//! What can go wrong while a store is created or opened.

use crate::mapper;
use crate::wrapper::EngineError;
use vstd::prelude::*;
use vstd::std_specs::convert::FromSpecImpl;

verus! {

/// A failure to create or to open a store.
#[derive(Debug)]
pub enum Error {
    /// The engine could not open the store as it was asked to: the path or a
    /// table is missing and was not to be created, or the engine refused its
    /// options.
    Configuration(EngineError),
    /// One of the two records could not be written or read.
    Mapper(mapper::Error),
}

impl Error {
    /// The words that describe each kind of error.
    pub open spec fn spec_message(error: Error) -> Seq<char> {
        match error {
            Error::Configuration(_) => "Configuration error"@,
            Error::Mapper(e) => mapper::Error::spec_message(e),
        }
    }

    /// A short description of the error.
    pub fn message(&self) -> (text: String)
        ensures
            text@ == Error::spec_message(*self),
    {
        match self {
            Error::Configuration(_) => "Configuration error".to_owned(),
            Error::Mapper(error) => error.message(),
        }
    }
}

impl From<EngineError> for Error {
    fn from(e: EngineError) -> (error: Error) {
        Error::Configuration(e)
    }
}

impl FromSpecImpl<EngineError> for Error {
    open spec fn obeys_from_spec() -> bool {
        true
    }

    open spec fn from_spec(e: EngineError) -> Error {
        Error::Configuration(e)
    }
}

impl From<mapper::Error> for Error {
    fn from(e: mapper::Error) -> (error: Error) {
        Error::Mapper(e)
    }
}

impl FromSpecImpl<mapper::Error> for Error {
    open spec fn obeys_from_spec() -> bool {
        true
    }

    open spec fn from_spec(e: mapper::Error) -> Error {
        Error::Mapper(e)
    }
}

} // verus!
