//! What can go wrong while a document is turned into text.

use vstd::prelude::*;
use vstd::std_specs::convert::FromSpecImpl;
use yaml_rust::EmitError;
use std::string::FromUtf8Error;

verus! {

#[verifier::external_type_specification]
#[verifier::external_body]
pub struct ExEmitError(yaml_rust::EmitError);

#[verifier::external_type_specification]
#[verifier::external_body]
pub struct ExFromUtf8Error(std::string::FromUtf8Error);

/// The failures of this library.
#[derive(Debug)]
pub enum Error {
    /// The emitter refused the document.
    Emit(EmitError),
    /// The emitted bytes are no UTF-8 text.
    FromUtf8(FromUtf8Error),
}

impl From<EmitError> for Error {
    fn from(e: EmitError) -> (r: Error) {
        Error::Emit(e)
    }
}

impl FromSpecImpl<EmitError> for Error {
    open spec fn obeys_from_spec() -> bool {
        true
    }

    open spec fn from_spec(e: EmitError) -> Error {
        Error::Emit(e)
    }
}

impl From<FromUtf8Error> for Error {
    fn from(e: FromUtf8Error) -> (r: Error) {
        Error::FromUtf8(e)
    }
}

impl FromSpecImpl<FromUtf8Error> for Error {
    open spec fn obeys_from_spec() -> bool {
        true
    }

    open spec fn from_spec(e: FromUtf8Error) -> Error {
        Error::FromUtf8(e)
    }
}

} // verus!
