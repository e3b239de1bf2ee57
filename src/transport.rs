use actix_web::http::uri::InvalidUri;
use actix_web::http::Uri;
use std::time::Duration;
use tonic::transport::Endpoint;
use vstd::prelude::*;

verus! {

/// An `http` URI, carried through as is.
#[verifier::external_type_specification]
#[verifier::external_body]
pub struct ExUri(Uri);

/// The error `http` gives for a string that is no URI.
#[verifier::external_type_specification]
#[verifier::external_body]
pub struct ExInvalidUri(InvalidUri);

/// tonic's description of a channel to open, carried through as is.
#[verifier::external_type_specification]
#[verifier::external_body]
pub struct ExEndpoint(Endpoint);

/// Whether `http` accepts the characters as a URI, as `Uri::from_str` decides.
pub uninterp spec fn uri_accepts(s: Seq<char>) -> bool;

/// Relies on `http`'s `Uri::from_str`: it succeeds exactly on the strings it
/// accepts, and which those are depends on the characters alone.
pub assume_specification[ <actix_web::http::Uri as core::str::FromStr>::from_str ](
    s: &str,
) -> (r: Result<Uri, InvalidUri>)
    ensures
        r is Ok <==> uri_accepts(s@),
;

/// Relies on tonic's `Endpoint::from(Uri)`: an endpoint for the URI with
/// default settings.
pub assume_specification[ <tonic::transport::Endpoint as core::convert::From<Uri>>::from ](
    uri: Uri,
) -> Endpoint;

/// Relies on tonic's `Endpoint::connect_timeout`: the endpoint with the given
/// timeout for establishing its connection.
pub assume_specification[ tonic::transport::Endpoint::connect_timeout ](
    e: Endpoint,
    dur: Duration,
) -> Endpoint;

/// Relies on tonic's `Endpoint::timeout`: the endpoint with the given timeout
/// for each request.
pub assume_specification[ tonic::transport::Endpoint::timeout ](
    e: Endpoint,
    dur: Duration,
) -> Endpoint;

/// Relies on tonic's derived `Clone` for `Endpoint`: a copy of its settings.
pub assume_specification[ <tonic::transport::Endpoint as core::clone::Clone>::clone ](
    e: &Endpoint,
) -> Endpoint;

} // verus!
