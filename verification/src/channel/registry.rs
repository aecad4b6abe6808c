//! The channel registry's descriptions of channels, and how a message ID
//! names the channel it came from.

use vstd::prelude::*;

use crate::content::PlatformType;
use crate::text::{chars_of, push_char};

verus! {

/// What the registry reports about a channel.
#[derive(Debug, Clone)]
pub struct ChannelInfo {
    pub channel_type: String,
    pub platform: PlatformType,
    pub enabled: bool,
    pub connection_mode: String,
    pub is_connected: bool,
}

/// The text before the first occurrence of `c` in `s`, if `c` occurs.
pub open spec fn before_first(s: Seq<char>, c: char) -> Option<Seq<char>> {
    if s.contains(c) {
        let i = choose|i: int| 0 <= i < s.len() && s[i] == c && forall|j: int| 0 <= j < i ==> s[j] != c;
        Some(s.subrange(0, i))
    } else {
        None
    }
}

/// The channel type a message ID starts with: the text before its first
/// `:`, or else before its first `_`; none when it has neither.
pub open spec fn msg_id_channel(msg_id: Seq<char>) -> Option<Seq<char>> {
    if msg_id.contains(':') {
        before_first(msg_id, ':')
    } else {
        before_first(msg_id, '_')
    }
}

fn prefix_before(v: &Vec<char>, c: char) -> (r: Option<String>)
    ensures
        match before_first(v@, c) {
            Some(p) => r matches Some(s) && s@ == p,
            None => r is None,
        },
{
    let mut s = String::new();
    let mut i: usize = 0;
    while i < v.len()
        invariant
            i <= v.len(),
            s@ == v@.subrange(0, i as int),
            forall|j: int| 0 <= j < i ==> v@[j] != c,
        decreases v.len() - i,
    {
        if v[i] == c {
            proof {
                assert(v@.contains(c)) by {
                    assert(v@[i as int] == c);
                }
                let k = choose|k: int| 0 <= k < v@.len() && v@[k] == c && forall|j: int| 0 <= j < k ==> v@[j] != c;
                if k < i {
                    assert(v@[k] != c);
                }
                if k > i {
                    assert(v@[i as int] != c);
                }
            }
            return Some(s);
        }
        push_char(&mut s, v[i]);
        assert(v@.subrange(0, i + 1) =~= v@.subrange(0, i as int).push(v@[i as int]));
        i = i + 1;
    }
    assert(!v@.contains(c)) by {
        if v@.contains(c) {
            let k = choose|k: int| 0 <= k < v@.len() && v@[k] == c;
            assert(v@[k] != c);
        }
    }
    None
}

/// The channel type a message ID starts with, if it names one.
pub fn msg_id_prefix(msg_id: &str) -> (r: Option<String>)
    ensures
        match msg_id_channel(msg_id@) {
            Some(p) => r matches Some(s) && s@ == p,
            None => r is None,
        },
{
    let v = chars_of(msg_id);
    match prefix_before(&v, ':') {
        Some(p) => Some(p),
        None => prefix_before(&v, '_'),
    }
}

} // verus!
