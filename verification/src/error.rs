use vstd::prelude::*;

verus! {

/// Failure classes of the scheduler core.
///
/// `InvalidCoordinates` carries the offending latitude and longitude in
/// micro-degrees. `InvalidConfiguration` means that neither a manual nor an
/// automatic schedule was present, so no trigger source could be built.
/// `InvalidAction` is reserved for malformed trigger names, and
/// `FailedtoCreateDaemon` for a daemon that could not claim its socket.
#[derive(Debug, PartialEq, Eq)]
pub enum Error {
    InvalidCoordinates(i64, i64),
    InvalidAction(String),
    InvalidConfiguration,
    FailedtoCreateDaemon,
}

impl Clone for Error {
    fn clone(&self) -> (r: Self)
        ensures
            r == *self,
    {
        match self {
            Error::InvalidCoordinates(lat, lon) => Error::InvalidCoordinates(*lat, *lon),
            Error::InvalidAction(s) => Error::InvalidAction(s.clone()),
            Error::InvalidConfiguration => Error::InvalidConfiguration,
            Error::FailedtoCreateDaemon => Error::FailedtoCreateDaemon,
        }
    }
}

} // verus!
