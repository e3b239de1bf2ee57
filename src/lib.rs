//! Connection set-up for the storage node's gRPC API: endpoint and timeout
//! configuration, the choice between the two API generations, and the
//! decisions of the connect-and-retry loop.

pub mod client;
pub mod duration;
pub mod error;
pub mod grpc_client;
pub mod transport;
