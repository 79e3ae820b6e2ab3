//! The connectivity probe: classifying the response of a direct HTTP GET
//! against the well-known connectivity-check endpoint.

use vstd::prelude::*;

verus! {

/// What one HTTP GET against the connectivity-check endpoint came back with:
/// either a status code, or no response at all (timeout or transport error).
/// The request itself is performed by the caller; the classification below is
/// the probe's whole logic.
#[derive(Clone, Copy, Debug, PartialEq, Eq, Structural)]
pub enum ProbeResponse {
    Status(u16),
    TransportError,
}

/// Connectivity as derived from one probe; never cached beyond a single check.
#[derive(Clone, Copy, Debug, PartialEq, Eq, Structural)]
pub enum ConnectivityStatus {
    Online,
    Offline,
}

/// A probe response means online exactly when the endpoint answered with
/// status 204; any other status, timeout, or transport error means offline.
pub open spec fn spec_online(r: ProbeResponse) -> bool {
    r matches ProbeResponse::Status(code) && code == 204
}

/// Classifies one probe response: `Online` if and only if the status code is
/// exactly 204; any other status or a transport error yields `Offline`.
pub fn classify_probe(r: &ProbeResponse) -> (s: ConnectivityStatus)
    ensures
        (s is Online) == spec_online(*r),
{
    match r {
        ProbeResponse::Status(code) => {
            if *code == 204 {
                ConnectivityStatus::Online
            } else {
                ConnectivityStatus::Offline
            }
        },
        ProbeResponse::TransportError => ConnectivityStatus::Offline,
    }
}

/// `true` if and only if the response carries status 204; every other status
/// and every transport error yields `false`.
pub fn is_online(r: &ProbeResponse) -> (b: bool)
    ensures
        b == spec_online(*r),
{
    classify_probe(r) == ConnectivityStatus::Online
}

} // verus!
