use vstd::prelude::*;

verus! {

/// Errors that connection set-up reports to its caller.
#[derive(Debug, Clone)]
pub enum ExporterError {
    /// The endpoint address does not parse as a URI.
    InvalidURI(String),
    /// A client handle of an API version that this client was not built for
    /// was asked for.
    GrpcClientError(String),
}

} // verus!
