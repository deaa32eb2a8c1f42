//! Choosing where the root certificates come from.

use crate::error::LoadError;
use vstd::prelude::*;

verus! {

/// Which sources of root certificates this build may use.
#[derive(Debug, Clone, Copy, PartialEq, Eq, Structural)]
pub struct RootsConfig {
    /// The bundle compiled into the program.
    pub embedded_roots: bool,
    /// The operating system's trust store.
    pub native_roots: bool,
}

/// The one source a store is loaded from.
#[derive(Debug, Clone, Copy, PartialEq, Eq, Structural)]
pub enum CertSource {
    EmbeddedBundle,
    NativeStore,
}

/// The source chosen for a configuration: the embedded bundle wherever it is
/// enabled, else the native store where that is enabled, else none.
pub open spec fn chosen_source(cfg: RootsConfig) -> Option<CertSource> {
    if cfg.embedded_roots {
        Some(CertSource::EmbeddedBundle)
    } else if cfg.native_roots {
        Some(CertSource::NativeStore)
    } else {
        None
    }
}

/// Picks the one source to load from. The native store is picked only where
/// the embedded bundle is disabled, so it is never queried beside it.
pub fn select_source(cfg: &RootsConfig) -> (r: Option<CertSource>)
    ensures
        r == chosen_source(*cfg),
        cfg.embedded_roots ==> r == Some(CertSource::EmbeddedBundle),
        r == Some(CertSource::NativeStore) ==> !cfg.embedded_roots && cfg.native_roots,
        r is None <==> !cfg.embedded_roots && !cfg.native_roots,
{
    if cfg.embedded_roots {
        Some(CertSource::EmbeddedBundle)
    } else if cfg.native_roots {
        Some(CertSource::NativeStore)
    } else {
        None
    }
}

/// How many roots the bundle compiled into the program holds.
pub const BUNDLED_ROOT_COUNT: usize = 121;

/// The DER encoding of the bundled root at position `i`.
pub uninterp spec fn bundled_root_der(i: int) -> Seq<u8>;

/// Relies on `webpki_root_certs::TLS_SERVER_ROOT_CERTS`: a fixed list of
/// DER-encoded roots, whose bytes are copied out in order.
#[verifier::external_body]
fn bundled_roots() -> (r: Vec<Vec<u8>>)
    ensures
        r@.len() == BUNDLED_ROOT_COUNT,
        forall|i: int| 0 <= i < r@.len() ==> r@[i]@ == bundled_root_der(i),
{
    webpki_root_certs::TLS_SERVER_ROOT_CERTS.iter().map(|c| c.as_ref().to_vec()).collect()
}

/// The DER encodings of the roots compiled into the program, in bundle order:
/// the same list on every call.
pub fn embedded_certificates() -> (r: Vec<Vec<u8>>)
    ensures
        r@.len() == BUNDLED_ROOT_COUNT,
        forall|i: int| 0 <= i < r@.len() ==> r@[i]@ == bundled_root_der(i),
{
    bundled_roots()
}

/// What the native store's enumeration gave: the certificates it found, and
/// how many errors it met. It failed as a whole where it met errors and found
/// nothing; found certificates are used even where some locations failed.
pub fn native_certificates(certs: Vec<Vec<u8>>, errors: usize) -> (r: Result<
    Vec<Vec<u8>>,
    LoadError,
>)
    ensures
        (certs@.len() == 0 && errors > 0) ==> r == Err::<Vec<Vec<u8>>, LoadError>(
            LoadError::SourceUnavailable,
        ),
        !(certs@.len() == 0 && errors > 0) ==> (r matches Ok(v) && v@ == certs@),
{
    if certs.len() == 0 && errors > 0 {
        Err(LoadError::SourceUnavailable)
    } else {
        Ok(certs)
    }
}

} // verus!
