//! Character-level string helpers shared by the content parsers.

use vstd::prelude::*;

verus! {

/// Appends one character to a string.
///
/// Calls `String::push`, which std documents as appending the given char to
/// the end of the string; the contract states exactly that over the views.
#[verifier::external_body]
pub(crate) fn push_char(s: &mut String, c: char)
    ensures
        final(s)@ == old(s)@.push(c),
{
    s.push(c);
}

/// Copies a string slice into a new string.
pub fn to_owned_string(s: &str) -> (r: String)
    ensures
        r@ == s@,
{
    s.to_owned()
}

/// Appends every character of `t` to `s`.
pub fn push_str(s: &mut String, t: &str)
    ensures
        final(s)@ == old(s)@ + t@,
{
    let n = t.unicode_len();
    let mut i: usize = 0;
    while i < n
        invariant
            n == t@.len(),
            i <= n,
            s@ == old(s)@ + t@.subrange(0, i as int),
        decreases n - i,
    {
        let c = t.get_char(i);
        push_char(s, c);
        assert(t@.subrange(0, i + 1) == t@.subrange(0, i as int).push(c));
        i = i + 1;
    }
    assert(t@.subrange(0, n as int) == t@);
}


/// The characters of a string slice, in order.
pub fn chars_of(s: &str) -> (v: Vec<char>)
    ensures
        v@ == s@,
{
    let n = s.unicode_len();
    let mut v: Vec<char> = Vec::new();
    let mut i: usize = 0;
    while i < n
        invariant
            n == s@.len(),
            i <= n,
            v@ == s@.subrange(0, i as int),
        decreases n - i,
    {
        v.push(s.get_char(i));
        i = i + 1;
    }
    v
}

/// The string made of the characters `v[lo..hi]`.
pub fn string_from_chars(v: &Vec<char>, lo: usize, hi: usize) -> (s: String)
    requires
        lo <= hi <= v@.len(),
    ensures
        s@ == v@.subrange(lo as int, hi as int),
{
    let mut s = String::new();
    let mut i: usize = lo;
    while i < hi
        invariant
            lo <= i <= hi <= v@.len(),
            s@ == v@.subrange(lo as int, i as int),
        decreases hi - i,
    {
        push_char(&mut s, v[i]);
        assert(v@.subrange(lo as int, i + 1) == v@.subrange(lo as int, i as int).push(v@[i as int]));
        i = i + 1;
    }
    s
}

/// `s` with every leftmost, non-overlapping occurrence of the non-empty
/// pattern `p` replaced by `r`, scanning from the front.
pub open spec fn replace_all(s: Seq<char>, p: Seq<char>, r: Seq<char>) -> Seq<char>
    recommends
        p.len() > 0,
    decreases s.len(),
{
    if p.len() == 0 || s.len() < p.len() {
        s
    } else if s.subrange(0, p.len() as int) == p {
        r + replace_all(s.subrange(p.len() as int, s.len() as int), p, r)
    } else {
        seq![s[0]] + replace_all(s.subrange(1, s.len() as int), p, r)
    }
}

/// Text in which the pattern's first character never occurs is left as it
/// is.
pub proof fn lemma_replace_absent(s: Seq<char>, p: Seq<char>, r: Seq<char>)
    requires
        p.len() > 0,
        !s.contains(p[0]),
    ensures
        replace_all(s, p, r) == s,
    decreases s.len(),
{
    if s.len() >= p.len() {
        assert(s.subrange(0, p.len() as int)[0] == s[0]);
        let rest = s.subrange(1, s.len() as int);
        if rest.contains(p[0]) {
            let j = choose|j: int| 0 <= j < rest.len() && rest[j] == p[0];
            assert(s[j + 1] == p[0]);
        }
        lemma_replace_absent(rest, p, r);
        assert(seq![s[0]] + rest =~= s);
    }
}

/// Whether `p` occurs in `s` at position `i`.
pub open spec fn occurs_at(s: Seq<char>, p: Seq<char>, i: int) -> bool {
    0 <= i && i + p.len() <= s.len() && s.subrange(i, i + p.len()) == p
}

/// Text of which no occurrence of `p` starts within its first part `a` is
/// replaced there as it stands.
pub proof fn lemma_replace_after(a: Seq<char>, y: Seq<char>, p: Seq<char>, r: Seq<char>)
    requires
        p.len() > 0,
        forall|i: int| 0 <= i < a.len() ==> !occurs_at(a + y, p, i),
    ensures
        replace_all(a + y, p, r) == a + replace_all(y, p, r),
    decreases a.len(),
{
    let s = a + y;
    if a.len() == 0 {
        assert(s =~= y);
    } else {
        let a1 = a.subrange(1, a.len() as int);
        assert(s.subrange(1, s.len() as int) =~= a1 + y);
        assert forall|i: int| 0 <= i < a1.len() implies !occurs_at(a1 + y, p, i) by {
            assert(!occurs_at(s, p, i + 1));
            if i + p.len() <= (a1 + y).len() {
                assert((a1 + y).subrange(i, i + p.len()) =~= s.subrange(i + 1, i + 1 + p.len()));
            }
        }
        lemma_replace_after(a1, y, p, r);
        if s.len() < p.len() {
            if y.len() >= p.len() {
                assert(false);
            }
            assert(a1 + y == a1 + replace_all(y, p, r));
        } else {
            assert(!occurs_at(s, p, 0));
        }
        assert(seq![a[0]] + (a1 + replace_all(y, p, r)) =~= a + replace_all(y, p, r));
    }
}

/// The parts joined end to end.
pub open spec fn concat(parts: Seq<Seq<char>>) -> Seq<char>
    decreases parts.len(),
{
    if parts.len() == 0 {
        Seq::empty()
    } else {
        parts[0] + concat(parts.subrange(1, parts.len() as int))
    }
}

/// A part that a pattern starting with `&` never starts inside, unless the
/// part is the pattern itself: only its first character may be `&`, and a
/// first `&` is followed by a character the pattern does not have there.
pub open spec fn part_ok(part: Seq<char>, p: Seq<char>) -> bool {
    part == p || (part.len() >= 1 && (forall|j: int| 1 <= j < part.len() ==> part[j] != '&') && (part[0] != '&' || (
    part.len() >= 2 && p.len() >= 2 && part[1] != p[1])))
}

/// Replacing a pattern that starts with `&` in parts joined end to end
/// replaces exactly the parts equal to it (giving the parts `out`).
pub proof fn lemma_replace_parts(parts: Seq<Seq<char>>, out: Seq<Seq<char>>, p: Seq<char>, r: Seq<char>)
    requires
        p.len() > 0,
        p[0] == '&',
        forall|k: int| 0 <= k < parts.len() ==> part_ok(#[trigger] parts[k], p),
        out.len() == parts.len(),
        forall|k: int| 0 <= k < parts.len() ==> #[trigger] out[k] == if parts[k] == p { r } else { parts[k] },
    ensures
        replace_all(concat(parts), p, r) == concat(out),
    decreases parts.len(),
{
    if parts.len() > 0 {
        let rest = parts.subrange(1, parts.len() as int);
        let out_rest = out.subrange(1, out.len() as int);
        assert forall|k: int| 0 <= k < rest.len() implies part_ok(#[trigger] rest[k], p) by {
            assert(rest[k] == parts[k + 1]);
        }
        assert forall|k: int| 0 <= k < rest.len() implies #[trigger] out_rest[k] == if rest[k] == p { r } else { rest[k] } by {
            assert(rest[k] == parts[k + 1]);
            assert(out_rest[k] == out[k + 1]);
        }
        lemma_replace_parts(rest, out_rest, p, r);
        assert(out[0] == if parts[0] == p { r } else { parts[0] });
        let a = parts[0];
        let y = concat(rest);
        let s = a + y;
        assert(part_ok(parts[0], p));
        if a == p {
            assert(s.subrange(0, p.len() as int) =~= p);
            assert(s.subrange(p.len() as int, s.len() as int) =~= y);
        } else {
            assert forall|i: int| 0 <= i < a.len() implies !occurs_at(s, p, i) by {
                if occurs_at(s, p, i) {
                    assert(s.subrange(i, i + p.len())[0] == p[0]);
                    assert(s[i] == '&');
                    if i == 0 {
                        assert(s.subrange(i, i + p.len())[1] == p[1]);
                        assert(s[1] == a[1]);
                    } else {
                        assert(s[i] == a[i]);
                    }
                }
            }
            lemma_replace_after(a, y, p, r);
        }
    }
}

/// Whether `p` occurs in `v` at position `i`.
fn matches_at(v: &Vec<char>, i: usize, p: &Vec<char>) -> (b: bool)
    requires
        i <= v.len(),
    ensures
        b == (i + p.len() <= v.len() && v@.subrange(i as int, i + p.len()) == p@),
{
    if p.len() > v.len() - i {
        return false;
    }
    let mut k: usize = 0;
    while k < p.len()
        invariant
            i + p.len() <= v.len(),
            k <= p.len(),
            forall|j: int| 0 <= j < k ==> v@[i + j] == p@[j],
        decreases p.len() - k,
    {
        if v[i + k] != p[k] {
            assert(v@.subrange(i as int, i + p.len())[k as int] != p@[k as int]);
            return false;
        }
        k = k + 1;
    }
    assert(v@.subrange(i as int, i + p.len()) =~= p@);
    true
}

/// Appends the characters of `cs` to `s`.
fn push_chars(s: &mut String, cs: &Vec<char>)
    ensures
        final(s)@ == old(s)@ + cs@,
{
    let mut i: usize = 0;
    while i < cs.len()
        invariant
            i <= cs.len(),
            s@ == old(s)@ + cs@.subrange(0, i as int),
        decreases cs.len() - i,
    {
        push_char(s, cs[i]);
        assert(cs@.subrange(0, i + 1) == cs@.subrange(0, i as int).push(cs@[i as int]));
        i = i + 1;
    }
    assert(cs@.subrange(0, cs.len() as int) == cs@);
}

/// Replaces every occurrence of the non-empty pattern `p` in `s` by `r`.
pub fn replace_str(s: &str, p: &str, r: &str) -> (out: String)
    requires
        p@.len() > 0,
    ensures
        out@ == replace_all(s@, p@, r@),
{
    let v = chars_of(s);
    let pv = chars_of(p);
    let rv = chars_of(r);
    let mut out = String::new();
    let mut i: usize = 0;
    assert(v@.subrange(0, v.len() as int) =~= v@);
    assert(out@ + replace_all(v@, pv@, rv@) =~= replace_all(v@, pv@, rv@));
    while i < v.len()
        invariant
            v@ == s@,
            pv@ == p@,
            rv@ == r@,
            pv@.len() > 0,
            i <= v.len(),
            out@ + replace_all(v@.subrange(i as int, v.len() as int), pv@, rv@)
                == replace_all(s@, p@, r@),
        decreases v.len() - i,
    {
        let ghost rest = v@.subrange(i as int, v.len() as int);
        if matches_at(&v, i, &pv) {
            assert(rest.subrange(0, pv@.len() as int) == pv@);
            assert(rest.subrange(pv@.len() as int, rest.len() as int)
                == v@.subrange(i + pv@.len(), v.len() as int));
            push_chars(&mut out, &rv);
            i = i + pv.len();
        } else {
            assert(rest.len() < pv@.len() || rest.subrange(0, pv@.len() as int) != pv@) by {
                if rest.len() >= pv@.len() {
                    assert(rest.subrange(0, pv@.len() as int)
                        == v@.subrange(i as int, i + pv@.len()));
                }
            }
            if v.len() - i < pv.len() {
                // nothing matches any more: the rest is copied unchanged
                assert(replace_all(rest, pv@, rv@) == rest);
                let mut j: usize = i;
                while j < v.len()
                    invariant
                        i <= j <= v.len(),
                        out@ + v@.subrange(j as int, v.len() as int)
                            == replace_all(s@, p@, r@),
                    decreases v.len() - j,
                {
                    let ghost before = out@;
                    push_char(&mut out, v[j]);
                    assert(v@.subrange(j as int, v.len() as int)
                        == seq![v@[j as int]] + v@.subrange(j + 1, v.len() as int));
                    j = j + 1;
                }
                assert(v@.subrange(v.len() as int, v.len() as int) =~= Seq::<char>::empty());
                assert(out@ =~= replace_all(s@, p@, r@));
                return out;
            }
            assert(rest.subrange(1, rest.len() as int) == v@.subrange(i + 1, v.len() as int));
            push_char(&mut out, v[i]);
            i = i + 1;
        }
        assert(out@ + replace_all(v@.subrange(i as int, v.len() as int), pv@, rv@)
            == replace_all(s@, p@, r@));
    }
    assert(v@.subrange(v.len() as int, v.len() as int) =~= Seq::<char>::empty());
    assert(replace_all(Seq::<char>::empty(), pv@, rv@) == Seq::<char>::empty());
    assert(out@ =~= out@ + Seq::<char>::empty());
    out
}


/// Whether `t` occurs somewhere inside `s` (the empty string occurs everywhere).
pub open spec fn contains_seq(s: Seq<char>, t: Seq<char>) -> bool {
    exists|i: int| 0 <= i && i + t.len() <= s.len() && #[trigger] s.subrange(i, i + t.len()) == t
}

/// Whether `s` begins with `t`.
pub open spec fn starts_with_seq(s: Seq<char>, t: Seq<char>) -> bool {
    t.len() <= s.len() && s.subrange(0, t.len() as int) == t
}

/// Whether `s` ends with `t`.
pub open spec fn ends_with_seq(s: Seq<char>, t: Seq<char>) -> bool {
    t.len() <= s.len() && s.subrange(s.len() - t.len(), s.len() as int) == t
}

/// Substring search.
pub fn str_contains(s: &str, t: &str) -> (b: bool)
    ensures
        b == contains_seq(s@, t@),
{
    let v = chars_of(s);
    let tv = chars_of(t);
    if tv.len() > v.len() {
        return false;
    }
    let limit = v.len() - tv.len();
    let mut i: usize = 0;
    loop
        invariant
            v@ == s@,
            tv@ == t@,
            tv.len() <= v.len(),
            limit == v.len() - tv.len(),
            i <= limit,
            forall|j: int| 0 <= j < i ==> #[trigger] v@.subrange(j, j + tv@.len()) != tv@,
        decreases limit - i,
    {
        if matches_at(&v, i, &tv) {
            return true;
        }
        if i == limit {
            assert forall|j: int| 0 <= j && j + t@.len() <= s@.len() implies
                #[trigger] s@.subrange(j, j + t@.len()) != t@ by {
                assert(j <= i);
            }
            return false;
        }
        i = i + 1;
    }
}

/// Prefix test.
pub fn str_starts_with(s: &str, t: &str) -> (b: bool)
    ensures
        b == starts_with_seq(s@, t@),
{
    let v = chars_of(s);
    let tv = chars_of(t);
    matches_at(&v, 0, &tv)
}

/// Suffix test.
pub fn str_ends_with(s: &str, t: &str) -> (b: bool)
    ensures
        b == ends_with_seq(s@, t@),
{
    let v = chars_of(s);
    let tv = chars_of(t);
    if tv.len() > v.len() {
        return false;
    }
    matches_at(&v, v.len() - tv.len(), &tv)
}

/// Exact string equality.
pub fn str_eq(a: &str, b: &str) -> (r: bool)
    ensures
        r == (a@ == b@),
{
    let av = chars_of(a);
    let bv = chars_of(b);
    if av.len() != bv.len() {
        return false;
    }
    let r = matches_at(&av, 0, &bv);
    assert(av@ =~= av@.subrange(0, bv@.len() as int));
    r
}

/// The decimal digit for a value below ten.
pub open spec fn digit_char(d: nat) -> char {
    if d == 0 { '0' } else if d == 1 { '1' } else if d == 2 { '2' } else if d == 3 { '3' }
    else if d == 4 { '4' } else if d == 5 { '5' } else if d == 6 { '6' } else if d == 7 { '7' }
    else if d == 8 { '8' } else { '9' }
}

/// The decimal representation of a natural number, without leading zeros.
pub open spec fn decimal(n: nat) -> Seq<char>
    decreases n,
{
    if n < 10 {
        seq![digit_char(n)]
    } else {
        decimal(n / 10).push(digit_char(n % 10))
    }
}

/// The decimal representation of an integer, with a leading `-` when negative.
pub open spec fn signed_decimal(n: int) -> Seq<char> {
    if n < 0 { seq!['-'] + decimal((-n) as nat) } else { decimal(n as nat) }
}

fn digit_of(d: u64) -> (c: char)
    requires
        d < 10,
    ensures
        c == digit_char(d as nat),
{
    if d == 0 { '0' } else if d == 1 { '1' } else if d == 2 { '2' } else if d == 3 { '3' }
    else if d == 4 { '4' } else if d == 5 { '5' } else if d == 6 { '6' } else if d == 7 { '7' }
    else if d == 8 { '8' } else { '9' }
}

/// Appends the decimal representation of `n` to `s`.
pub fn push_decimal(s: &mut String, n: u64)
    ensures
        final(s)@ == old(s)@ + decimal(n as nat),
    decreases n,
{
    if n < 10 {
        push_char(s, digit_of(n));
        assert(old(s)@.push(digit_char(n as nat)) =~= old(s)@ + seq![digit_char(n as nat)]);
    } else {
        push_decimal(s, n / 10);
        push_char(s, digit_of(n % 10));
        assert(old(s)@ + decimal(n as nat) =~= old(s)@ + decimal((n / 10) as nat) + seq![
            digit_char((n % 10) as nat),
        ]);
    }
}

/// The decimal representation of an unsigned number.
pub fn u64_to_string(n: u64) -> (s: String)
    ensures
        s@ == decimal(n as nat),
{
    let mut s = String::new();
    push_decimal(&mut s, n);
    assert(s@ =~= decimal(n as nat));
    s
}

/// Appends the decimal representation of a signed number to `s`.
pub fn push_signed_decimal(s: &mut String, n: i64)
    ensures
        final(s)@ == old(s)@ + signed_decimal(n as int),
{
    if n < 0 {
        push_char(s, '-');
        let m: u64 = if n == i64::MIN { 9223372036854775808u64 } else { (-n) as u64 };
        assert(m as int == -(n as int));
        push_decimal(s, m);
        assert(final(s)@ =~= old(s)@ + signed_decimal(n as int)) by {
            assert(s@ =~= old(s)@ + (seq!['-'] + decimal(m as nat)));
        }
    } else {
        push_decimal(s, n as u64);
    }
}

/// `parts` joined with `sep` between consecutive elements.
pub open spec fn join_seq(parts: Seq<Seq<char>>, sep: Seq<char>) -> Seq<char>
    decreases parts.len(),
{
    if parts.len() == 0 {
        Seq::empty()
    } else if parts.len() == 1 {
        parts[0]
    } else {
        join_seq(parts.drop_last(), sep) + sep + parts.last()
    }
}

/// The views of a vector of strings.
pub open spec fn views(v: Seq<String>) -> Seq<Seq<char>> {
    v.map_values(|x: String| x@)
}

/// Joins strings with a separator.
pub fn join_strings(parts: &Vec<String>, sep: &str) -> (out: String)
    ensures
        out@ == join_seq(views(parts@), sep@),
{
    let mut out = String::new();
    let mut i: usize = 0;
    while i < parts.len()
        invariant
            i <= parts.len(),
            out@ == join_seq(views(parts@.subrange(0, i as int)), sep@),
        decreases parts.len() - i,
    {
        let ghost prev = parts@.subrange(0, i as int);
        let ghost next = parts@.subrange(0, i + 1);
        assert(views(next).drop_last() =~= views(prev));
        assert(views(next).last() == parts@[i as int]@);
        if i > 0 {
            push_str(&mut out, sep);
        }
        push_str(&mut out, parts[i].as_str());
        proof {
            if i == 0 {
                assert(views(next).len() == 1);
                assert(out@ =~= views(next)[0]);
            }
        }
        i = i + 1;
    }
    assert(parts@.subrange(0, parts.len() as int) =~= parts@);
    out
}


/// Unicode `White_Space`, the set `char::is_whitespace` tests for.
pub open spec fn is_white(c: char) -> bool {
    ||| ('\t' <= c && c <= '\r')
    ||| c == ' '
    ||| c == '\u{85}'
    ||| c == '\u{a0}'
    ||| c == '\u{1680}'
    ||| ('\u{2000}' <= c && c <= '\u{200a}')
    ||| c == '\u{2028}'
    ||| c == '\u{2029}'
    ||| c == '\u{202f}'
    ||| c == '\u{205f}'
    ||| c == '\u{3000}'
}

/// Whether a character is Unicode white space.
pub fn is_white_char(c: char) -> (b: bool)
    ensures
        b == is_white(c),
{
    ('\t' <= c && c <= '\r') || c == ' ' || c == '\u{85}' || c == '\u{a0}' || c == '\u{1680}'
        || ('\u{2000}' <= c && c <= '\u{200a}') || c == '\u{2028}' || c == '\u{2029}'
        || c == '\u{202f}' || c == '\u{205f}' || c == '\u{3000}'
}

/// The words of `s` (its maximal runs of non-white characters) separated by
/// single spaces, read from the front: `started` tells whether a word was
/// already emitted and `pending` whether white space followed it.
pub open spec fn words_from(s: Seq<char>, started: bool, pending: bool) -> Seq<char>
    decreases s.len(),
{
    if s.len() == 0 {
        Seq::empty()
    } else if is_white(s[0]) {
        words_from(s.subrange(1, s.len() as int), started, started)
    } else if pending {
        seq![' ', s[0]] + words_from(s.subrange(1, s.len() as int), true, false)
    } else {
        seq![s[0]] + words_from(s.subrange(1, s.len() as int), true, false)
    }
}

/// The words of `s` joined by single spaces.
pub open spec fn collapse_white(s: Seq<char>) -> Seq<char> {
    words_from(s, false, false)
}

/// Splits on white space and joins the words with single spaces.
pub fn collapse_whitespace(v: &Vec<char>) -> (out: String)
    ensures
        out@ == collapse_white(v@),
{
    let mut out = String::new();
    let mut started = false;
    let mut pending = false;
    let mut i: usize = 0;
    assert(v@.subrange(0, v.len() as int) =~= v@);
    while i < v.len()
        invariant
            i <= v.len(),
            out@ + words_from(v@.subrange(i as int, v.len() as int), started, pending)
                == collapse_white(v@),
        decreases v.len() - i,
    {
        let c = v[i];
        let ghost rest = v@.subrange(i as int, v.len() as int);
        assert(rest.subrange(1, rest.len() as int) =~= v@.subrange(i + 1, v.len() as int));
        if is_white_char(c) {
            pending = started;
        } else {
            if pending {
                push_char(&mut out, ' ');
            }
            push_char(&mut out, c);
            started = true;
            pending = false;
        }
        i = i + 1;
    }
    assert(v@.subrange(v.len() as int, v.len() as int) =~= Seq::<char>::empty());
    assert(out@ =~= out@ + Seq::<char>::empty());
    out
}

} // verus!
