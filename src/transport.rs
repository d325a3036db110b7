//! The endpoint that a connection to the backend is made from.
use vstd::prelude::*;
use vstd::string::StringExecFns;
use crate::error::Error as BridgeError;
use crate::port::{endpoint_address, endpoint_text};
use tonic::transport::Endpoint;
use tonic::transport::Error as TransportError;

verus! {

#[verifier::external_type_specification]
#[verifier::external_body]
pub struct ExEndpoint(tonic::transport::Endpoint);

#[verifier::external_type_specification]
#[verifier::external_body]
pub struct ExTransportError(TransportError);

/// Whether tonic accepts this text as the address of an endpoint.
pub uninterp spec fn endpoint_accepts(uri: Seq<char>) -> bool;

/// Relies on `tonic::transport::Endpoint::from_shared`: it parses the text as a URI and
/// fails exactly when the text is not one; the outcome depends on the text alone.
#[verifier::external_body]
fn parse_endpoint(uri: String) -> (r: Result<Endpoint, TransportError>)
    ensures
        r is Ok == endpoint_accepts(uri@),
{
    Endpoint::from_shared(uri)
}

pub open spec fn invalid_endpoint() -> Seq<char> {
    "invalid endpoint"@
}

/// What the caller sees of a parsed endpoint: the endpoint itself, or a startup failure.
pub fn endpoint_outcome(r: Result<Endpoint, TransportError>) -> (o: Result<Endpoint, BridgeError>)
    ensures
        match r {
            Ok(e) => o == Ok::<Endpoint, BridgeError>(e),
            Err(_) => o matches Err(BridgeError::StartupFailure(m)) && m@ == invalid_endpoint(),
        },
{
    proof {
        reveal_strlit("invalid endpoint");
    }
    match r {
        Ok(e) => Ok(e),
        Err(_) => Err(BridgeError::StartupFailure(String::from_str("invalid endpoint"))),
    }
}

/// The endpoint of a backend that listens on `port` on this machine.
pub fn endpoint_for(port: u16) -> (o: Result<Endpoint, BridgeError>)
    ensures
        o is Ok == endpoint_accepts(endpoint_text(port)),
        o is Err ==> (o matches Err(BridgeError::StartupFailure(m)) && m@ == invalid_endpoint()),
{
    let uri = endpoint_address(port);
    endpoint_outcome(parse_endpoint(uri))
}

} // verus!
