//! Decentralized identifiers: parsing `did:<method>:<identifier>`, the
//! documents of the locally resolvable methods, the documents built from an
//! identity registry's answers, and a resolver that caches what it resolved.

use vstd::prelude::*;

use crate::clock::now_seconds;
use crate::content::opt_view;
use crate::strmap::{inserted, lookup, lemma_lookup_inserted, StrMap};
use crate::text::{chars_of, push_str, str_eq, string_from_chars, to_owned_string};

verus! {

/// A key by which a DID's subject can be verified.
#[derive(Debug, Clone)]
pub struct VerificationMethod {
    pub id: String,
    pub vm_type: String,
    pub controller: String,
    pub public_key_hex: Option<String>,
    pub public_key_base58: Option<String>,
}

/// A service endpoint of a DID's subject.
#[derive(Debug, Clone)]
pub struct Service {
    pub id: String,
    pub service_type: String,
    pub service_endpoint: String,
}

/// A DID document, with what an identity registry said of the DID.
#[derive(Debug, Clone)]
pub struct DIDDocument {
    pub context: Vec<String>,
    pub id: String,
    pub verification_method: Vec<VerificationMethod>,
    pub authentication: Vec<String>,
    pub assertion_method: Vec<String>,
    pub service: Vec<Service>,
    /// Whether the registry knows the DID.
    pub on_chain_verified: bool,
    /// The agent's address, where the registry gave one.
    pub agent_address: Option<String>,
    /// The agent's reputation, where the registry gave one.
    pub reputation: Option<u64>,
}

/// Why a DID could not be resolved.
#[derive(Debug, Clone, PartialEq, Eq)]
pub enum DIDResolutionError {
    NotFound(String),
    InvalidFormat(String),
    ChainVerificationFailed(String),
    CacheError(String),
}

/// A verification method as plain text: ID, type, controller, hex key and
/// base58 key.
pub type MethodView = (Seq<char>, Seq<char>, Seq<char>, Option<Seq<char>>, Option<Seq<char>>);

/// A DID document as plain values.
pub struct DocumentView {
    pub context: Seq<Seq<char>>,
    pub id: Seq<char>,
    pub verification_method: Seq<MethodView>,
    pub authentication: Seq<Seq<char>>,
    pub assertion_method: Seq<Seq<char>>,
    pub service: Seq<(Seq<char>, Seq<char>, Seq<char>)>,
    pub on_chain_verified: bool,
    pub agent_address: Option<Seq<char>>,
    pub reputation: Option<u64>,
}

impl View for VerificationMethod {
    type V = MethodView;

    open spec fn view(&self) -> MethodView {
        (self.id@, self.vm_type@, self.controller@, opt_view(self.public_key_hex), opt_view(self.public_key_base58))
    }
}

impl View for Service {
    type V = (Seq<char>, Seq<char>, Seq<char>);

    open spec fn view(&self) -> (Seq<char>, Seq<char>, Seq<char>) {
        (self.id@, self.service_type@, self.service_endpoint@)
    }
}

impl View for DIDDocument {
    type V = DocumentView;

    open spec fn view(&self) -> DocumentView {
        DocumentView {
            context: self.context@.map_values(|s: String| s@),
            id: self.id@,
            verification_method: self.verification_method@.map_values(|m: VerificationMethod| m@),
            authentication: self.authentication@.map_values(|s: String| s@),
            assertion_method: self.assertion_method@.map_values(|s: String| s@),
            service: self.service@.map_values(|s: Service| s@),
            on_chain_verified: self.on_chain_verified,
            agent_address: opt_view(self.agent_address),
            reputation: self.reputation,
        }
    }
}

/// The position of the first `:` in `s` at or after `from`, or -1.
pub open spec fn find_colon(s: Seq<char>, from: int) -> int
    decreases s.len() - from,
{
    if from < 0 || from >= s.len() {
        -1
    } else if s[from] == ':' {
        from
    } else {
        find_colon(s, from + 1)
    }
}

/// The method and the identifier of `did:<method>:<identifier>`: the text
/// between the first two colons and the text after the second (which may
/// hold more colons). `None` where there are fewer than two colons or the
/// text before the first is not `did`.
pub open spec fn did_parts(s: Seq<char>) -> Option<(Seq<char>, Seq<char>)> {
    let i = find_colon(s, 0);
    let j = find_colon(s, i + 1);
    if i < 0 || j < 0 || s.subrange(0, i) != "did"@ {
        None
    } else {
        Some((s.subrange(i + 1, j), s.subrange(j + 1, s.len() as int)))
    }
}

/// The DID of an identifier under a method.
pub open spec fn did_of(method: Seq<char>, identifier: Seq<char>) -> Seq<char> {
    "did:"@ + method + ":"@ + identifier
}

/// `s` without its leading run of `0x` pairs.
pub open spec fn trim_hex_prefix(s: Seq<char>) -> Seq<char>
    decreases s.len(),
{
    if s.len() >= 2 && s[0] == '0' && s[1] == 'x' {
        trim_hex_prefix(s.subrange(2, s.len() as int))
    } else {
        s
    }
}

/// The context every document here is written in.
pub open spec fn did_context() -> Seq<char> {
    "https://www.w3.org/ns/did/v1"@
}

/// A document of `id` with one verification method, `key_id`, that is
/// also its authentication and assertion method, and no services.
pub open spec fn one_key_document(
    id: Seq<char>,
    key_id: Seq<char>,
    vm_type: Seq<char>,
    hex: Option<Seq<char>>,
    base58: Option<Seq<char>>,
    verified: bool,
    address: Option<Seq<char>>,
    reputation: Option<u64>,
) -> DocumentView {
    DocumentView {
        context: seq![did_context()],
        id,
        verification_method: seq![(key_id, vm_type, id, hex, base58)],
        authentication: seq![key_id],
        assertion_method: seq![key_id],
        service: seq![],
        on_chain_verified: verified,
        agent_address: address,
        reputation,
    }
}

/// The document that a method resolvable here gives an identifier, or
/// `None` for another method.
pub open spec fn local_document(method: Seq<char>, identifier: Seq<char>) -> Option<DocumentView> {
    let id = did_of(method, identifier);
    if method == "beebot"@ {
        Some(one_key_document(id, id + "#keys-1"@, "Ed25519VerificationKey2020"@,
            Some("0x"@ + identifier), None, false, None, None))
    } else if method == "ethr"@ {
        Some(one_key_document(id, id + "#owner"@, "EcdsaSecp256k1RecoveryMethod2020"@,
            Some(identifier), None, false, Some("0x"@ + trim_hex_prefix(identifier)), None))
    } else if method == "key"@ {
        Some(one_key_document(id, id + "#keys-1"@, "Ed25519VerificationKey2020"@,
            None, Some(identifier), false, None, None))
    } else {
        None
    }
}

/// The document built for a DID that the registry knows, from the address
/// and the reputation it gave.
pub open spec fn registry_document(did: Seq<char>, address: Option<Seq<char>>, reputation: Option<u64>) -> DocumentView {
    one_key_document(did, did + "#keys-1"@, "EcdsaSecp256k1RecoveryMethod2020"@,
        address, None, true, address, reputation)
}

/// `doc` after the registry's answers: whether it knows the DID (`None`
/// where asking failed), and, where it does, the reputation and address it
/// gave.
pub open spec fn with_registry_status(
    doc: DocumentView,
    registered: Option<bool>,
    reputation: Option<u64>,
    address: Option<Seq<char>>,
) -> DocumentView {
    if registered == Some(true) {
        DocumentView {
            on_chain_verified: true,
            reputation: if reputation is Some { reputation } else { doc.reputation },
            agent_address: if address is Some { address } else { doc.agent_address },
            ..doc
        }
    } else {
        DocumentView { on_chain_verified: false, ..doc }
    }
}

/// The position of the first `:` in `v` at or after `from`.
fn find_colon_in(v: &Vec<char>, from: usize) -> (r: Option<usize>)
    requires
        from <= v@.len(),
    ensures
        r is None <==> find_colon(v@, from as int) < 0,
        r matches Some(k) ==> k == find_colon(v@, from as int) && from <= k < v.len(),
{
    let mut k: usize = from;
    while k < v.len()
        invariant
            from <= k <= v@.len(),
            find_colon(v@, from as int) == find_colon(v@, k as int),
        decreases v.len() - k,
    {
        if v[k] == ':' {
            return Some(k);
        }
        k = k + 1;
    }
    None
}

/// `s` without its leading run of `0x` pairs.
pub fn trim_hex(s: &str) -> (r: String)
    ensures
        r@ == trim_hex_prefix(s@),
{
    let v = chars_of(s);
    let n = v.len();
    let mut i: usize = 0;
    assert(v@.subrange(0, n as int) == v@);
    while n - i >= 2 && v[i] == '0' && v[i + 1] == 'x'
        invariant
            i <= n == v@.len(),
            trim_hex_prefix(v@) == trim_hex_prefix(v@.subrange(i as int, n as int)),
        decreases n - i,
    {
        assert(v@.subrange(i as int, n as int).subrange(2, n - i) == v@.subrange(i + 2, n as int));
        i = i + 2;
    }
    assert(v@.subrange(0, n as int) == v@);
    string_from_chars(&v, i, n)
}

impl DIDResolutionError {
    /// The message describing the error.
    pub fn message(&self) -> (s: String)
        ensures
            s@ == match *self {
                DIDResolutionError::NotFound(d) => "DID not found: "@ + d@,
                DIDResolutionError::InvalidFormat(d) => "Invalid DID format: "@ + d@,
                DIDResolutionError::ChainVerificationFailed(m) => "Chain verification failed: "@ + m@,
                DIDResolutionError::CacheError(m) => "Cache error: "@ + m@,
            },
    {
        let (head, tail) = match self {
            DIDResolutionError::NotFound(d) => ("DID not found: ", d),
            DIDResolutionError::InvalidFormat(d) => ("Invalid DID format: ", d),
            DIDResolutionError::ChainVerificationFailed(m) => ("Chain verification failed: ", m),
            DIDResolutionError::CacheError(m) => ("Cache error: ", m),
        };
        let mut s = to_owned_string(head);
        push_str(&mut s, tail.as_str());
        s
    }
}

/// The method and the identifier of a DID, or `InvalidFormat` with the
/// DID where it is not of the form `did:<method>:<identifier>`.
pub fn parse_did(did: &str) -> (r: Result<(String, String), DIDResolutionError>)
    ensures
        match did_parts(did@) {
            Some((m, i)) => r matches Ok((a, b)) && a@ == m && b@ == i,
            None => r matches Err(DIDResolutionError::InvalidFormat(d)) && d@ == did@,
        },
{
    let v = chars_of(did);
    let first = find_colon_in(&v, 0);
    match first {
        None => Err(DIDResolutionError::InvalidFormat(to_owned_string(did))),
        Some(i) => {
            let second = find_colon_in(&v, i + 1);
            match second {
                None => Err(DIDResolutionError::InvalidFormat(to_owned_string(did))),
                Some(j) => {
                    let scheme = string_from_chars(&v, 0, i);
                    if !str_eq(scheme.as_str(), "did") {
                        return Err(DIDResolutionError::InvalidFormat(to_owned_string(did)));
                    }
                    let method = string_from_chars(&v, i + 1, j);
                    let identifier = string_from_chars(&v, j + 1, v.len());
                    Ok((method, identifier))
                },
            }
        },
    }
}

/// Builds the one-key document described by `one_key_document`, unverified
/// and with no reputation.
fn one_key(id: String, suffix: &str, vm_type: &str, hex: Option<String>, base58: Option<String>, address: Option<String>) -> (d: DIDDocument)
    ensures
        d@ == one_key_document(id@, id@ + suffix@, vm_type@, opt_view(hex), opt_view(base58), false, opt_view(address), None),
{
    let mut key_id = id.clone();
    push_str(&mut key_id, suffix);
    let method = VerificationMethod {
        id: key_id.clone(),
        vm_type: to_owned_string(vm_type),
        controller: id.clone(),
        public_key_hex: hex,
        public_key_base58: base58,
    };
    let d = DIDDocument {
        context: vec![to_owned_string("https://www.w3.org/ns/did/v1")],
        id,
        verification_method: vec![method],
        authentication: vec![key_id.clone()],
        assertion_method: vec![key_id],
        service: Vec::new(),
        on_chain_verified: false,
        agent_address: address,
        reputation: None,
    };
    proof {
        reveal_strlit("https://www.w3.org/ns/did/v1");
        assert(d@.context =~= seq![did_context()]);
        assert(d@.verification_method =~= seq![method@]);
        assert(d@.authentication =~= seq![id@ + suffix@]);
        assert(d@.assertion_method =~= seq![id@ + suffix@]);
        assert(d@.service =~= Seq::<(Seq<char>, Seq<char>, Seq<char>)>::empty());
    }
    d
}

/// The document of `did:<method>:<identifier>` for the methods resolvable
/// without a registry (`beebot`, `ethr`, `key`), or `None` for another
/// method.
pub fn local_document_of(method: &str, identifier: &str) -> (r: Option<DIDDocument>)
    ensures
        match local_document(method@, identifier@) {
            Some(d) => r matches Some(doc) && doc@ == d,
            None => r is None,
        },
{
    let is_beebot = str_eq(method, "beebot");
    let is_ethr = str_eq(method, "ethr");
    let is_key = str_eq(method, "key");
    if !is_beebot && !is_ethr && !is_key {
        return None;
    }
    let mut id = to_owned_string("did:");
    push_str(&mut id, method);
    push_str(&mut id, ":");
    push_str(&mut id, identifier);
    proof {
        reveal_strlit("did:");
        reveal_strlit(":");
        assert(id@ == did_of(method@, identifier@));
    }
    if is_beebot {
        let mut hex = to_owned_string("0x");
        push_str(&mut hex, identifier);
        Some(one_key(id, "#keys-1", "Ed25519VerificationKey2020", Some(hex), None, None))
    } else if is_ethr {
        let mut address = to_owned_string("0x");
        let trimmed = trim_hex(identifier);
        push_str(&mut address, trimmed.as_str());
        Some(one_key(id, "#owner", "EcdsaSecp256k1RecoveryMethod2020", Some(to_owned_string(identifier)), None, Some(address)))
    } else {
        Some(one_key(id, "#keys-1", "Ed25519VerificationKey2020", None, Some(to_owned_string(identifier)), None))
    }
}

/// The document of a DID that the registry knows, from the address (as
/// text) and the reputation that the registry gave.
pub fn registry_document_of(did: &str, address: Option<String>, reputation: Option<u64>) -> (d: DIDDocument)
    ensures
        d@ == registry_document(did@, opt_view(address), reputation),
{
    let hex = match &address {
        Some(a) => Some(a.clone()),
        None => None,
    };
    let mut d = one_key(to_owned_string(did), "#keys-1", "EcdsaSecp256k1RecoveryMethod2020", hex, None, address);
    d.on_chain_verified = true;
    d.reputation = reputation;
    d
}

/// Applies the registry's answers to a locally resolved document: where
/// the registry knows the DID the document is marked verified and takes the
/// reputation and address given; otherwise (the DID unknown, or asking
/// failed, `None`) it is marked unverified.
pub fn apply_registry_status(doc: &mut DIDDocument, registered: Option<bool>, reputation: Option<u64>, address: Option<String>)
    ensures
        final(doc)@ == with_registry_status(old(doc)@, registered, reputation, opt_view(address)),
{
    match registered {
        Some(true) => {
            doc.on_chain_verified = true;
            if reputation.is_some() {
                doc.reputation = reputation;
            }
            if address.is_some() {
                doc.agent_address = address;
            }
        },
        _ => {
            doc.on_chain_verified = false;
        },
    }
}

/// A copy of a verification method.
fn copy_method(m: &VerificationMethod) -> (c: VerificationMethod)
    ensures
        c@ == m@,
{
    VerificationMethod {
        id: m.id.clone(),
        vm_type: m.vm_type.clone(),
        controller: m.controller.clone(),
        public_key_hex: match &m.public_key_hex {
            Some(s) => Some(s.clone()),
            None => None,
        },
        public_key_base58: match &m.public_key_base58 {
            Some(s) => Some(s.clone()),
            None => None,
        },
    }
}

/// A copy of a list of strings.
fn copy_strings(v: &Vec<String>) -> (c: Vec<String>)
    ensures
        c@.map_values(|s: String| s@) == v@.map_values(|s: String| s@),
{
    let mut c: Vec<String> = Vec::new();
    let mut i: usize = 0;
    while i < v.len()
        invariant
            i <= v@.len(),
            c@.map_values(|s: String| s@) == v@.subrange(0, i as int).map_values(|s: String| s@),
        decreases v.len() - i,
    {
        c.push(v[i].clone());
        assert(v@.subrange(0, i + 1).map_values(|s: String| s@) =~= v@.subrange(0, i as int).map_values(|s: String| s@).push(v@[i as int]@));
        assert(c@.map_values(|s: String| s@) =~= v@.subrange(0, i + 1).map_values(|s: String| s@));
        i = i + 1;
    }
    assert(v@.subrange(0, v@.len() as int) == v@);
    c
}

impl DIDDocument {
    /// A copy of the document.
    pub fn copy(&self) -> (d: DIDDocument)
        ensures
            d@ == self@,
    {
        let mut methods: Vec<VerificationMethod> = Vec::new();
        let mut i: usize = 0;
        while i < self.verification_method.len()
            invariant
                i <= self.verification_method@.len(),
                methods@.map_values(|m: VerificationMethod| m@)
                    == self.verification_method@.subrange(0, i as int).map_values(|m: VerificationMethod| m@),
            decreases self.verification_method.len() - i,
        {
            let m = copy_method(&self.verification_method[i]);
            methods.push(m);
            assert(self.verification_method@.subrange(0, i + 1).map_values(|m: VerificationMethod| m@)
                =~= self.verification_method@.subrange(0, i as int).map_values(|m: VerificationMethod| m@).push(self.verification_method@[i as int]@));
            assert(methods@.map_values(|m: VerificationMethod| m@)
                =~= self.verification_method@.subrange(0, i + 1).map_values(|m: VerificationMethod| m@));
            i = i + 1;
        }
        assert(self.verification_method@.subrange(0, self.verification_method@.len() as int) == self.verification_method@);
        let mut services: Vec<Service> = Vec::new();
        let mut j: usize = 0;
        while j < self.service.len()
            invariant
                j <= self.service@.len(),
                services@.map_values(|s: Service| s@) == self.service@.subrange(0, j as int).map_values(|s: Service| s@),
            decreases self.service.len() - j,
        {
            let s = Service {
                id: self.service[j].id.clone(),
                service_type: self.service[j].service_type.clone(),
                service_endpoint: self.service[j].service_endpoint.clone(),
            };
            services.push(s);
            assert(self.service@.subrange(0, j + 1).map_values(|s: Service| s@)
                =~= self.service@.subrange(0, j as int).map_values(|s: Service| s@).push(self.service@[j as int]@));
            assert(services@.map_values(|s: Service| s@) =~= self.service@.subrange(0, j + 1).map_values(|s: Service| s@));
            j = j + 1;
        }
        assert(self.service@.subrange(0, self.service@.len() as int) == self.service@);
        DIDDocument {
            context: copy_strings(&self.context),
            id: self.id.clone(),
            verification_method: methods,
            authentication: copy_strings(&self.authentication),
            assertion_method: copy_strings(&self.assertion_method),
            service: services,
            on_chain_verified: self.on_chain_verified,
            agent_address: match &self.agent_address {
                Some(s) => Some(s.clone()),
                None => None,
            },
            reputation: self.reputation,
        }
    }
}

/// A resolved document and the time, in seconds, at which it was cached.
#[derive(Debug)]
pub struct CachedDIDEntry {
    pub document: DIDDocument,
    pub timestamp: u64,
}

impl View for CachedDIDEntry {
    type V = (DocumentView, u64);

    open spec fn view(&self) -> (DocumentView, u64) {
        (self.document@, self.timestamp)
    }
}

/// Seconds from `then` to `now`, none where `now` is earlier.
pub open spec fn seconds_since(now: u64, then: u64) -> int {
    if now >= then { now - then } else { 0 }
}

/// The cached document of `did` that is younger than `ttl` at `now`.
pub open spec fn fresh_entry(cache: Seq<(Seq<char>, (DocumentView, u64))>, did: Seq<char>, now: u64, ttl: u64) -> Option<DocumentView> {
    match lookup(cache, did) {
        Some((d, t)) => if seconds_since(now, t) < ttl { Some(d) } else { None },
        None => None,
    }
}

/// Resolves DIDs of the locally resolvable methods and caches what it
/// resolved, each entry for `cache_ttl_secs` seconds.
#[derive(Debug)]
pub struct DIDResolver {
    cache: StrMap<CachedDIDEntry>,
    cache_ttl_secs: u64,
}

impl View for DIDResolver {
    type V = (Seq<(Seq<char>, (DocumentView, u64))>, u64);

    closed spec fn view(&self) -> (Seq<(Seq<char>, (DocumentView, u64))>, u64) {
        (self.cache@, self.cache_ttl_secs)
    }
}

impl DIDResolver {
    /// A resolver with an empty cache whose entries live five minutes.
    pub fn new() -> (r: Self)
        ensures
            r@.0 == Seq::<(Seq<char>, (DocumentView, u64))>::empty(),
            r@.1 == 300,
    {
        DIDResolver { cache: StrMap::new(), cache_ttl_secs: 300 }
    }

    /// The resolver with cache entries living `ttl_secs` seconds.
    pub fn with_cache_ttl(self, ttl_secs: u64) -> (r: Self)
        ensures
            r@.0 == self@.0,
            r@.1 == ttl_secs,
    {
        DIDResolver { cache: self.cache, cache_ttl_secs: ttl_secs }
    }

    /// The number of cached entries and how long each lives, in seconds.
    pub fn cache_stats(&self) -> (r: (usize, u64))
        ensures
            r.0 == self@.0.len(),
            r.1 == self@.1,
    {
        (self.cache.len(), self.cache_ttl_secs)
    }

    /// Empties the cache.
    pub fn clear_cache(&mut self)
        ensures
            final(self)@.0 == Seq::<(Seq<char>, (DocumentView, u64))>::empty(),
            final(self)@.1 == old(self)@.1,
    {
        self.cache = StrMap::new();
    }

    /// The cached document of `did`, where it is younger than the
    /// time-to-live at `now` (seconds).
    pub fn cached_at(&self, did: &str, now: u64) -> (r: Option<DIDDocument>)
        ensures
            match fresh_entry(self@.0, did@, now, self@.1) {
                Some(d) => r matches Some(doc) && doc@ == d,
                None => r is None,
            },
    {
        match self.cache.get(did) {
            Some(entry) => {
                let age: u64 = if now >= entry.timestamp { now - entry.timestamp } else { 0 };
                if age < self.cache_ttl_secs {
                    Some(entry.document.copy())
                } else {
                    None
                }
            },
            None => None,
        }
    }

    /// Caches `document` as the document of `did`, at `now` (seconds).
    pub fn cache_did_at(&mut self, did: String, document: DIDDocument, now: u64)
        ensures
            final(self)@.0 == inserted(old(self)@.0, did@, (document@, now)),
            final(self)@.1 == old(self)@.1,
    {
        self.cache.insert(did, CachedDIDEntry { document, timestamp: now });
    }

    /// Resolves `did` at `now` (seconds): a fresh cached document is
    /// returned as it is; otherwise the DID is parsed and, for a locally
    /// resolvable method, its document is cached and returned. A DID not of
    /// the form `did:<method>:<identifier>` gives `InvalidFormat`, another
    /// method `NotFound`, each with the DID, and leaves the cache as it was.
    pub fn resolve_at(&mut self, did: &str, now: u64) -> (r: Result<DIDDocument, DIDResolutionError>)
        ensures
            resolves(old(self)@, final(self)@, did@, now, r),
    {
        if let Some(doc) = self.cached_at(did, now) {
            return Ok(doc);
        }
        let (method, identifier) = match parse_did(did) {
            Ok(parts) => parts,
            Err(e) => return Err(e),
        };
        match local_document_of(method.as_str(), identifier.as_str()) {
            Some(doc) => {
                let copy = doc.copy();
                self.cache_did_at(to_owned_string(did), doc, now);
                Ok(copy)
            },
            None => Err(DIDResolutionError::NotFound(to_owned_string(did))),
        }
    }

    /// Resolves `did` as `resolve_at` does, at the current time (seconds
    /// since the epoch; a clock before the epoch counts as zero).
    pub fn resolve(&mut self, did: &str) -> (r: Result<DIDDocument, DIDResolutionError>)
        ensures
            exists|now: u64| #[trigger] resolves(old(self)@, final(self)@, did@, now, r),
    {
        let t = now_seconds();
        let now: u64 = if t >= 0 { t as u64 } else { 0 };
        self.resolve_at(did, now)
    }
}

/// What resolving `did` at `now` does to a resolver's cache and
/// time-to-live (`before`, `after`) and what it returns (`r`).
pub open spec fn resolves(
    before: (Seq<(Seq<char>, (DocumentView, u64))>, u64),
    after: (Seq<(Seq<char>, (DocumentView, u64))>, u64),
    did: Seq<char>,
    now: u64,
    r: Result<DIDDocument, DIDResolutionError>,
) -> bool {
    &&& after.1 == before.1
    &&& match fresh_entry(before.0, did, now, before.1) {
        Some(d) => r matches Ok(doc) && doc@ == d && after == before,
        None => match did_parts(did) {
            None => r matches Err(DIDResolutionError::InvalidFormat(e)) && e@ == did && after == before,
            Some((m, i)) => match local_document(m, i) {
                None => r matches Err(DIDResolutionError::NotFound(e)) && e@ == did && after == before,
                Some(d) => r matches Ok(doc) && doc@ == d && after.0 == inserted(before.0, did, (d, now)),
            },
        },
    }
}

/// A DID parsed into method and identifier is the DID of that identifier
/// under that method.
pub proof fn lemma_did_round_trip(s: Seq<char>)
    ensures
        did_parts(s) matches Some((method, identifier)) ==> did_of(method, identifier) == s,
{
    let i = find_colon(s, 0);
    let j = find_colon(s, i + 1);
    lemma_find_colon_bounds(s, 0);
    lemma_find_colon_bounds(s, i + 1);
    reveal_strlit("did:");
    reveal_strlit(":");
    reveal_strlit("did");
    if did_parts(s) is Some {
        assert(s =~= s.subrange(0, i) + ":"@ + s.subrange(i + 1, j) + ":"@ + s.subrange(j + 1, s.len() as int));
    }
}

/// The document resolved locally for a DID carries that DID as its ID.
pub proof fn lemma_local_document_id(s: Seq<char>)
    ensures
        did_parts(s) matches Some((method, identifier))
            ==> (local_document(method, identifier) matches Some(d) ==> d.id == s),
{
    lemma_did_round_trip(s);
}

/// Where `find_colon` finds a colon, it lies at or after `from` and holds
/// a colon.
pub proof fn lemma_find_colon_bounds(s: Seq<char>, from: int)
    ensures
        find_colon(s, from) >= 0 ==> from <= find_colon(s, from) < s.len() && s[find_colon(s, from)] == ':',
    decreases s.len() - from,
{
    if from >= 0 && from < s.len() && s[from] != ':' {
        lemma_find_colon_bounds(s, from + 1);
    }
}

/// Once a DID is resolved and cached at `t`, asking again before its
/// entry's time-to-live has passed gives the same document back.
pub proof fn lemma_cache_hit(
    cache: Seq<(Seq<char>, (DocumentView, u64))>,
    did: Seq<char>,
    d: DocumentView,
    t: u64,
    later: u64,
    ttl: u64,
)
    requires
        t <= later,
        later - t < ttl,
    ensures
        fresh_entry(inserted(cache, did, (d, t)), did, later, ttl) == Some(d),
{
    lemma_lookup_inserted(cache, did, (d, t), did);
}

/// What the identity registry's answer does to a document: the document is
/// verified on chain exactly when the registry knows the DID; then the
/// reputation and agent address it gives replace the document's (those it
/// does not give are kept); an unknown DID keeps both; and the document's
/// identity, keys and services never change. Applying the same answer again
/// changes nothing more.
pub proof fn lemma_registry_status(
    doc: DocumentView,
    registered: Option<bool>,
    reputation: Option<u64>,
    address: Option<Seq<char>>,
)
    ensures
        ({
            let r = with_registry_status(doc, registered, reputation, address);
            &&& r.on_chain_verified == (registered == Some(true))
            &&& registered == Some(true) ==> (address matches Some(a) ==> r.agent_address == Some(a))
            &&& registered == Some(true) ==> (reputation matches Some(n) ==> r.reputation == Some(n))
            &&& (registered != Some(true) || address is None) ==> r.agent_address == doc.agent_address
            &&& (registered != Some(true) || reputation is None) ==> r.reputation == doc.reputation
            &&& r.id == doc.id && r.context == doc.context && r.verification_method == doc.verification_method
            &&& r.authentication == doc.authentication && r.assertion_method == doc.assertion_method
            &&& r.service == doc.service
            &&& with_registry_status(r, registered, reputation, address) == r
        }),
{
}

} // verus!
