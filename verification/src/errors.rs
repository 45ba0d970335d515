//! Classification of failures at the component boundary. Raw driver errors
//! never cross it: callers see a kind, and the kind alone decides the
//! user-visible signal.

use vstd::prelude::*;

verus! {

/// The failure taxonomy of the data-access core.
///
/// `Configuration`: a required connection parameter is missing — fatal at
/// startup, never retried. `Connection`: pool establishment failed — retried
/// up to the fixed bound during explicit initialization, surfaced at once on
/// lazy first use. `NotFound`: a key was absent on read or a write affected
/// zero rows — a normal negative result, not a store failure. `Conflict`: a
/// concurrent modification was detected. `Database`: any other underlying
/// I/O, constraint, or syntax failure — surfaced as an opaque internal
/// failure, never retried here.
#[derive(Clone, Copy, PartialEq, Eq, Structural, Debug)]
pub enum ErrorKind {
    Configuration,
    Connection,
    NotFound,
    Conflict,
    Database,
}

/// The HTTP status an error kind maps to: granular causes stay internal,
/// and everything that is not "not found" or a conflict is a single generic
/// failure signal.
pub open spec fn spec_http_status(kind: ErrorKind) -> u16 {
    match kind {
        ErrorKind::Configuration => 500,
        ErrorKind::Connection => 500,
        ErrorKind::NotFound => 404,
        ErrorKind::Conflict => 409,
        ErrorKind::Database => 500,
    }
}

/// Maps an error kind to the status code of the response that reports it.
pub fn http_status_of(kind: ErrorKind) -> (r: u16)
    ensures
        r == spec_http_status(kind),
{
    match kind {
        ErrorKind::Configuration => 500,
        ErrorKind::Connection => 500,
        ErrorKind::NotFound => 404,
        ErrorKind::Conflict => 409,
        ErrorKind::Database => 500,
    }
}

/// Whether explicit startup retries an error of this kind: only a failed
/// connection attempt is, up to the fixed bound; a missing parameter and
/// every database failure are not.
pub fn retried_at_startup(kind: ErrorKind) -> (r: bool)
    ensures
        r == (kind == ErrorKind::Connection),
{
    match kind {
        ErrorKind::Connection => true,
        _ => false,
    }
}

} // verus!
