//! A process-wide root certificate store: picking one source of trust
//! anchors, taking in the certificates parsed from it one by one, and
//! deciding whether what was taken in makes a usable store.

mod error;
mod ingest;
mod source;

pub use error::LoadError;
pub use ingest::{
    accepted, all_invalid, check_tally, ingest, invalid_count, law_all_invalid_fails,
    law_empty_source_succeeds, law_partial_success, law_tally_covers_input, load_certs_from_source,
    IngestionTally,
};
pub use source::{
    bundled_root_der, chosen_source, embedded_certificates, native_certificates, select_source,
    CertSource, RootsConfig, BUNDLED_ROOT_COUNT,
};
