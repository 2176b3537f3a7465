use vstd::prelude::*;

verus! {

/// The error taxonomy of the exporter.
///
/// `Io` and `Parse` arise while loading configuration, `InvalidConfig` when a
/// device references a credential that no entry provides, and `ApiClient`
/// when the vendor device API rejects or fails a call.  Carrier payloads
/// (the underlying I/O, parser or vendor errors) stay with the unverified
/// edge that produced them.
#[derive(Debug, Clone, Copy, PartialEq, Eq, Structural)]
pub enum Error {
    Io,
    Parse,
    InvalidConfig,
    ApiClient,
}

} // verus!
