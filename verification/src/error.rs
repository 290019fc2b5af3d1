//! The error taxonomy of an extraction attempt: four terminal categories,
//! with the status classification a host maps them to.

use vstd::prelude::*;

verus! {

/// Declares quick-xml's deserialization error type so that values of it can
/// be carried through the library; nothing is read from inside it.
#[verifier::external_type_specification]
#[verifier::external_body]
pub struct ExDeError(quick_xml::DeError);

/// Declares actix-web's payload (transport) error type so that values of it
/// can be carried through the library; nothing is read from inside it.
#[verifier::external_type_specification]
#[verifier::external_body]
pub struct ExPayloadError(actix_web::error::PayloadError);

/// A set of errors that can occur during parsing xml payloads.
#[derive(Debug)]
pub enum XMLPayloadError {
    /// Payload size is bigger than allowed.
    Overflow,
    /// Content type error.
    ContentType,
    /// Deserialize error.
    Deserialize(quick_xml::DeError),
    /// Error that occurred while the payload itself was being read.
    Payload(actix_web::error::PayloadError),
}

impl XMLPayloadError {
    /// The fixed description of the error category.
    pub fn message(&self) -> (r: &'static str)
        ensures
            match *self {
                XMLPayloadError::Overflow => r@ == "Xml payload size is bigger than allowed"@,
                XMLPayloadError::ContentType => r@ == "Content type error"@,
                XMLPayloadError::Deserialize(_) => r@ == "Xml deserialize error"@,
                XMLPayloadError::Payload(_) => r@ == "Error that occur during reading payload"@,
            },
    {
        match self {
            XMLPayloadError::Overflow => "Xml payload size is bigger than allowed",
            XMLPayloadError::ContentType => "Content type error",
            XMLPayloadError::Deserialize(_) => "Xml deserialize error",
            XMLPayloadError::Payload(_) => "Error that occur during reading payload",
        }
    }

    /// The HTTP status code a host should map the error to: payload too
    /// large for an overflow, bad request for every other category.
    pub fn status_code(&self) -> (r: u16)
        ensures
            r == (match *self {
                XMLPayloadError::Overflow => 413u16,
                _ => 400u16,
            }),
    {
        match self {
            XMLPayloadError::Overflow => 413,
            _ => 400,
        }
    }
}

} // verus!
