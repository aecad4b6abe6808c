use beebotos_agents::did::{
    apply_registry_status, local_document_of, parse_did, registry_document_of, trim_hex,
    DIDResolutionError, DIDResolver,
};

#[test]
fn test_did_resolver_new() {
    let resolver = DIDResolver::new();
    let (size, ttl) = resolver.cache_stats();
    assert_eq!(size, 0);
    assert_eq!(ttl, 300);
}

#[test]
fn test_resolve_beebot_did() {
    let mut resolver = DIDResolver::new();
    let result = resolver.resolve("did:beebot:test123");
    assert!(result.is_ok());

    let doc = result.unwrap();
    assert_eq!(doc.id, "did:beebot:test123");
    assert!(!doc.verification_method.is_empty());
}

#[test]
fn test_resolve_invalid_did() {
    let mut resolver = DIDResolver::new();
    let result = resolver.resolve("invalid:did");
    assert!(matches!(result, Err(DIDResolutionError::InvalidFormat(_))));
}

#[test]
fn test_cache_works() {
    let mut resolver = DIDResolver::new();

    let _ = resolver.resolve("did:beebot:cached");
    let (size1, _) = resolver.cache_stats();
    assert_eq!(size1, 1);

    let _ = resolver.resolve("did:beebot:cached");
    let (size2, _) = resolver.cache_stats();
    assert_eq!(size2, 1);
}

#[test]
fn did_parts_keep_colons_in_identifier() {
    let (method, identifier) = parse_did("did:key:z6Mk:extra").unwrap();
    assert_eq!(method, "key");
    assert_eq!(identifier, "z6Mk:extra");
    assert_eq!(
        parse_did("did:only"),
        Err(DIDResolutionError::InvalidFormat("did:only".to_string()))
    );
    assert!(parse_did("dud:a:b").is_err());
}

#[test]
fn beebot_document_fields() {
    let doc = local_document_of("beebot", "abc").unwrap();
    assert_eq!(doc.context, vec!["https://www.w3.org/ns/did/v1".to_string()]);
    assert_eq!(doc.verification_method[0].id, "did:beebot:abc#keys-1");
    assert_eq!(doc.verification_method[0].vm_type, "Ed25519VerificationKey2020");
    assert_eq!(doc.verification_method[0].controller, "did:beebot:abc");
    assert_eq!(doc.verification_method[0].public_key_hex, Some("0xabc".to_string()));
    assert_eq!(doc.authentication, vec!["did:beebot:abc#keys-1".to_string()]);
    assert!(!doc.on_chain_verified);
}

#[test]
fn ethr_document_address_drops_hex_prefixes() {
    let doc = local_document_of("ethr", "0x0x12ab").unwrap();
    assert_eq!(doc.id, "did:ethr:0x0x12ab");
    assert_eq!(doc.verification_method[0].id, "did:ethr:0x0x12ab#owner");
    assert_eq!(doc.verification_method[0].public_key_hex, Some("0x0x12ab".to_string()));
    assert_eq!(doc.agent_address, Some("0x12ab".to_string()));
    assert_eq!(trim_hex("0x0x0"), "0");
    assert_eq!(trim_hex("x0x"), "x0x");
}

#[test]
fn key_document_and_unknown_method() {
    let doc = local_document_of("key", "z6Mk").unwrap();
    assert_eq!(doc.verification_method[0].public_key_base58, Some("z6Mk".to_string()));
    assert_eq!(doc.verification_method[0].public_key_hex, None);
    assert!(local_document_of("web", "example.com").is_none());
    let mut resolver = DIDResolver::new();
    assert_eq!(
        resolver.resolve_at("did:web:example.com", 5).unwrap_err(),
        DIDResolutionError::NotFound("did:web:example.com".to_string())
    );
    assert_eq!(
        DIDResolutionError::NotFound("did:web:x".to_string()).message(),
        "DID not found: did:web:x"
    );
}

#[test]
fn cache_entries_expire() {
    let mut resolver = DIDResolver::new().with_cache_ttl(10);
    resolver.resolve_at("did:beebot:a", 100).unwrap();
    assert!(resolver.cached_at("did:beebot:a", 109).is_some());
    assert!(resolver.cached_at("did:beebot:a", 110).is_none());
    resolver.clear_cache();
    assert_eq!(resolver.cache_stats(), (0, 10));
}

#[test]
fn registry_answers_mark_documents() {
    let doc = registry_document_of("did:beebot:r", Some("0xdead".to_string()), Some(7));
    assert!(doc.on_chain_verified);
    assert_eq!(doc.verification_method[0].vm_type, "EcdsaSecp256k1RecoveryMethod2020");
    assert_eq!(doc.agent_address, Some("0xdead".to_string()));
    assert_eq!(doc.reputation, Some(7));

    let mut local = local_document_of("beebot", "r").unwrap();
    apply_registry_status(&mut local, Some(true), Some(3), None);
    assert!(local.on_chain_verified);
    assert_eq!(local.reputation, Some(3));
    assert_eq!(local.agent_address, None);
    apply_registry_status(&mut local, None, None, None);
    assert!(!local.on_chain_verified);
}
