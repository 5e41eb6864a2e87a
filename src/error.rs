use vstd::prelude::*;
use wasm_bindgen::JsValue;

verus! {

/// A value thrown by the host's JavaScript side. The library only carries it.
#[verifier::external_type_specification]
#[verifier::external_body]
pub struct ExJsValue(JsValue);

/// Relies on `JsValue::clone`: a new handle to the same JavaScript value. Its
/// handle index differs from the original's, so nothing is stated of it.
pub assume_specification[ <JsValue as Clone>::clone ](v: &JsValue) -> JsValue;

/// Errors of a codec session.
#[derive(Debug, Clone)]
pub enum Error {
    /// The engine rejected a call or reported a fatal condition.
    Unknown(JsValue),
    /// A produced frame could not be handed on because its consumer is gone.
    Dropped,
}

impl Error {
    /// Whether this is the error the session synthesizes for a vanished consumer.
    pub fn is_dropped(&self) -> (r: bool)
        ensures
            r <==> self is Dropped,
    {
        match self {
            Error::Dropped => true,
            Error::Unknown(_) => false,
        }
    }
}

impl From<JsValue> for Error {
    fn from(e: JsValue) -> (r: Error)
        ensures
            r == Error::Unknown(e),
    {
        Error::Unknown(e)
    }
}

impl vstd::std_specs::convert::FromSpecImpl<JsValue> for Error {
    open spec fn obeys_from_spec() -> bool {
        true
    }

    open spec fn from_spec(e: JsValue) -> Error {
        Error::Unknown(e)
    }
}

} // verus!
