//! The library's error type.
use vstd::prelude::*;

verus! {

/// Errors of the service, each with a human-readable detail.
#[derive(Debug)]
pub enum Error {
    NotFound(String),
    Validation(String),
    Database(String),
    Config(String),
    Configuration(String),
    External(String),
    Io(String),
    Storage(String),
}

impl Error {
    /// The detail text carried by the error.
    pub open spec fn spec_detail(&self) -> Seq<char> {
        match self {
            Error::NotFound(m) => m@,
            Error::Validation(m) => m@,
            Error::Database(m) => m@,
            Error::Config(m) => m@,
            Error::Configuration(m) => m@,
            Error::External(m) => m@,
            Error::Io(m) => m@,
            Error::Storage(m) => m@,
        }
    }

    /// The detail text carried by the error.
    pub fn detail(&self) -> (r: &String)
        ensures
            r@ == self.spec_detail(),
    {
        match self {
            Error::NotFound(m) => m,
            Error::Validation(m) => m,
            Error::Database(m) => m,
            Error::Config(m) => m,
            Error::Configuration(m) => m,
            Error::External(m) => m,
            Error::Io(m) => m,
            Error::Storage(m) => m,
        }
    }
}

} // verus!
