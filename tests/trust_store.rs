use trust_roots::{
    check_tally, embedded_certificates, ingest, load_certs_from_source, native_certificates,
    select_source, CertSource, IngestionTally, LoadError, RootsConfig, BUNDLED_ROOT_COUNT,
};

#[derive(Debug, Clone, PartialEq)]
struct Cert(u32);

#[derive(Debug, Clone, PartialEq)]
struct ParseError;

#[test]
fn mixed_source_keeps_every_parsed_certificate() {
    let certs = vec![Err(ParseError), Ok(Cert(1)), Err(ParseError), Ok(Cert(2))];
    let kept = load_certs_from_source(certs).unwrap();
    assert_eq!(kept, vec![Cert(1), Cert(2)]);
}

#[test]
fn all_unparseable_source_is_refused() {
    let certs: Vec<Result<Cert, ParseError>> = vec![Err(ParseError), Err(ParseError)];
    assert_eq!(load_certs_from_source(certs), Err(LoadError::AllCertificatesInvalid));
}

#[test]
fn single_unparseable_certificate_is_refused() {
    let certs: Vec<Result<Cert, ParseError>> = vec![Err(ParseError)];
    assert_eq!(load_certs_from_source(certs), Err(LoadError::AllCertificatesInvalid));
}

#[test]
fn empty_source_gives_empty_store() {
    let certs: Vec<Result<Cert, ParseError>> = Vec::new();
    assert_eq!(load_certs_from_source(certs), Ok(Vec::new()));
}

#[test]
fn three_valid_and_one_corrupt() {
    let certs = vec![Ok(Cert(10)), Ok(Cert(20)), Err(ParseError), Ok(Cert(30))];
    let (kept, tally) = ingest(certs.clone());
    assert_eq!(tally, IngestionTally { valid: 3, invalid: 1 });
    assert_eq!(kept, vec![Cert(10), Cert(20), Cert(30)]);
    let stored = load_certs_from_source(certs).unwrap();
    assert_eq!(stored.len(), 3);
}

#[test]
fn tally_counts_each_candidate_once() {
    let certs = vec![Ok(Cert(1)), Err(ParseError), Err(ParseError), Ok(Cert(1)), Ok(Cert(5))];
    let (kept, tally) = ingest(certs);
    assert_eq!(tally.valid, 3);
    assert_eq!(tally.invalid, 2);
    assert_eq!(tally.valid + tally.invalid, 5);
    assert_eq!(kept, vec![Cert(1), Cert(1), Cert(5)]);
}

#[test]
fn policy_on_tallies() {
    assert_eq!(check_tally(&IngestionTally { valid: 0, invalid: 0 }), Ok(()));
    assert_eq!(check_tally(&IngestionTally { valid: 2, invalid: 7 }), Ok(()));
    assert_eq!(check_tally(&IngestionTally { valid: 1, invalid: 0 }), Ok(()));
    assert_eq!(
        check_tally(&IngestionTally { valid: 0, invalid: 1 }),
        Err(LoadError::AllCertificatesInvalid)
    );
}

#[test]
fn embedded_bundle_wins_over_native_store() {
    let cfg = RootsConfig { embedded_roots: true, native_roots: true };
    assert_eq!(select_source(&cfg), Some(CertSource::EmbeddedBundle));
}

#[test]
fn each_source_alone() {
    let embedded = RootsConfig { embedded_roots: true, native_roots: false };
    assert_eq!(select_source(&embedded), Some(CertSource::EmbeddedBundle));
    let native = RootsConfig { embedded_roots: false, native_roots: true };
    assert_eq!(select_source(&native), Some(CertSource::NativeStore));
}

#[test]
fn no_source_configured() {
    let cfg = RootsConfig { embedded_roots: false, native_roots: false };
    assert_eq!(select_source(&cfg), None);
}

#[test]
fn unreadable_native_store_is_unavailable() {
    assert_eq!(native_certificates(Vec::new(), 2), Err(LoadError::SourceUnavailable));
}

#[test]
fn native_store_with_some_errors_keeps_what_it_found() {
    let found = vec![vec![0x30u8, 0x03, 0x02, 0x01, 0x01]];
    assert_eq!(native_certificates(found.clone(), 1), Ok(found));
}

#[test]
fn empty_native_store_without_errors_is_empty() {
    assert_eq!(native_certificates(Vec::new(), 0), Ok(Vec::new()));
}

#[test]
fn embedded_bundle_holds_der_certificates() {
    let roots = embedded_certificates();
    assert_eq!(roots.len(), BUNDLED_ROOT_COUNT);
    assert_eq!(roots.len(), 121);
    for der in &roots {
        assert!(der.len() > 2);
        assert_eq!(der[0], 0x30);
    }
}

#[test]
fn error_messages() {
    assert_eq!(LoadError::AllCertificatesInvalid.message(), "all certificates are invalid");
    assert_eq!(
        LoadError::SourceUnavailable.message(),
        "native root certificates are unavailable"
    );
}

#[test]
fn embedded_bundle_is_in_bundle_order_on_every_call() {
    let first = embedded_certificates();
    assert_eq!(first[0].len(), 0x219 + 4);
    assert_eq!(&first[0][..8], &[0x30, 0x82, 0x02, 0x19, 0x30, 0x82, 0x01, 0x9F]);
    assert_eq!(&first[1][..4], &[0x30, 0x82, 0x05, 0xA9]);
    assert_eq!(embedded_certificates(), first);
}
