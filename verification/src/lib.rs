//! XML extractor for actix-web style hosts.
//!
//! The library converts an HTTP request body into a typed value behind a
//! content-type gate and a hard byte-size ceiling: gate, configuration
//! resolution, size-limited collection, decode, composed strictly in that
//! order. The asynchronous host glue stays outside; the decisions live
//! here, with contracts.

use vstd::prelude::*;

use serde::de::DeserializeOwned;

pub mod body;
pub mod config;
pub mod error;
pub mod media;

pub use crate::body::XmlBody;
pub use crate::config::XmlConfig;
pub use crate::error::XMLPayloadError;

use crate::body::collect_outcome;
use crate::config::ContentTypePredicate;
use crate::config::opt_str_view;

verus! {

/// Wrapper holding a value decoded from an XML request body.
#[derive(Debug)]
pub struct Xml<T>(pub T);

impl<T> Xml<T> {
    /// Deconstruct to an inner value.
    pub fn into_inner(self) -> (r: T)
        ensures
            r == self.0,
    {
        self.0
    }
}

/// Relies on `quick_xml::de::from_reader` (quick-xml 0.42, `serialize`
/// feature): decodes one complete XML document from the byte slice into the
/// target shape. Nothing is assumed of the outcome.
#[verifier::external_body]
fn decode_slice<T: DeserializeOwned>(buf: &[u8]) -> (r: Result<T, quick_xml::DeError>) {
    quick_xml::de::from_reader(buf)
}

/// The decode boundary: convert a complete, size-valid buffer into the
/// target value, classifying any failure as a deserialization error. Every
/// error it returns is of that one category.
pub fn from_buffer<T: DeserializeOwned>(buf: &[u8]) -> (r: Result<T, XMLPayloadError>)
    ensures
        r matches Err(e) ==> e matches XMLPayloadError::Deserialize(_),
{
    match decode_slice::<T>(buf) {
        Ok(v) => Ok(v),
        Err(e) => Err(XMLPayloadError::Deserialize(e)),
    }
}

/// The extraction pipeline over a completely delivered request: the
/// content-type gate, then the declared-length fast check, then the
/// size-limited collection, then the decode. A failure at an earlier stage
/// skips all later ones.
pub fn extract<T: DeserializeOwned, P: ContentTypePredicate>(
    config: &XmlConfig<P>,
    content_type: Option<&str>,
    length: Option<usize>,
    chunks: &Vec<Vec<u8>>,
) -> (r: Result<Xml<T>, XMLPayloadError>)
    ensures
        config.gate_must_reject(opt_str_view(content_type)) ==> r matches Err(
            XMLPayloadError::ContentType,
        ),
        config.gate_must_accept(opt_str_view(content_type)) ==> !(r matches Err(
            XMLPayloadError::ContentType,
        )),
        !(r matches Err(XMLPayloadError::ContentType)) ==> match collect_outcome(
            config.spec_limit(),
            length,
            chunks.deep_view(),
        ) {
            Some(_) => (r matches Ok(_)) || (r matches Err(XMLPayloadError::Deserialize(_))),
            None => r matches Err(XMLPayloadError::Overflow),
        },
        !(r matches Err(XMLPayloadError::Payload(_))),
{
    if let Err(e) = config.check_content_type(content_type) {
        return Err(e);
    }
    let body = XmlBody::new(length).limit(config.limit_value());
    let buf = match body.collect(chunks) {
        Ok(b) => b,
        Err(e) => {
            return Err(e);
        },
    };
    match from_buffer::<T>(buf.as_slice()) {
        Ok(v) => Ok(Xml(v)),
        Err(e) => Err(e),
    }
}

} // verus!
