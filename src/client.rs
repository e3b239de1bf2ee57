use vstd::prelude::*;

verus! {

/// The generation of the storage node's gRPC API that a client speaks.
#[derive(Debug, Clone, Copy, PartialEq, Eq, Structural)]
pub enum ApiVersion {
    V0,
    V1,
}

} // verus!
