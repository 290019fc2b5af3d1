//! Tests of the collector's size ceiling, the content-type checks, the
//! configuration lookup, and the error mapping.

use actix_xml::body::XmlBody;
use actix_xml::config::decide_content_type;
use actix_xml::config::resolve_config;
use actix_xml::config::NoPredicate;
use actix_xml::config::DEFAULT_LIMIT;
use actix_xml::error::XMLPayloadError;
use actix_xml::extract;
use actix_xml::from_buffer;
use actix_xml::media::MediaType;
use actix_xml::Xml;
use actix_xml::XmlConfig;

use serde::de::Deserialize;
use serde::de::Deserializer;
use serde::de::Visitor;

/// A value decoded from a bare `<Tag>text</Tag>` element.
#[derive(Debug, PartialEq)]
struct Plain(String);

struct PlainVisitor;

impl<'de> Visitor<'de> for PlainVisitor {
    type Value = Plain;

    fn expecting(&self, f: &mut std::fmt::Formatter) -> std::fmt::Result {
        f.write_str("a string element")
    }

    fn visit_str<E: serde::de::Error>(self, v: &str) -> Result<Plain, E> {
        Ok(Plain(v.to_string()))
    }

    fn visit_string<E: serde::de::Error>(self, v: String) -> Result<Plain, E> {
        Ok(Plain(v))
    }
}

impl<'de> Deserialize<'de> for Plain {
    fn deserialize<D: Deserializer<'de>>(d: D) -> Result<Self, D::Error> {
        d.deserialize_string(PlainVisitor)
    }
}

/// A predicate that accepts every media type it is shown.
struct AcceptAll;

impl actix_xml::config::ContentTypePredicate for AcceptAll {
    fn matches(&self, _media: &MediaType) -> bool {
        true
    }
}

#[test]
fn default_limit_is_256k() {
    assert_eq!(DEFAULT_LIMIT, 262144);
    let config = XmlConfig::<NoPredicate>::new();
    assert_eq!(config.limit_value(), 262144);
}

#[test]
fn declared_length_over_limit_reads_nothing() {
    // The fast check fails before any chunk is pushed; the source is never
    // consulted.
    let body = XmlBody::new(Some(11)).limit(10);
    let r = body.check_length();
    assert!(matches!(r, Err(XMLPayloadError::Overflow)));

    let body = XmlBody::new(Some(10)).limit(10);
    assert!(body.check_length().is_ok());
}

#[test]
fn boundary_exact_limit_succeeds_one_more_overflows() {
    let payload = b"<Tag>abc</Tag>";
    let body = XmlBody::new(None).limit(payload.len());
    let buf = body
        .collect(&vec![payload.to_vec()])
        .expect("a body of exactly the limit is accepted");
    assert_eq!(buf, payload.to_vec());

    let body = XmlBody::new(None).limit(payload.len());
    let r = body.collect(&vec![payload.to_vec(), vec![b' ']]);
    assert!(matches!(r, Err(XMLPayloadError::Overflow)));
}

#[test]
fn overflow_raised_at_crossing_chunk() {
    let mut body = XmlBody::new(None).limit(5);
    assert!(body.push_chunk(&[1, 2, 3]).is_ok());
    // The next chunk crosses the threshold: the failure comes now, not at
    // the end of the stream.
    let r = body.push_chunk(&[4, 5, 6]);
    assert!(matches!(r, Err(XMLPayloadError::Overflow)));
}

#[test]
fn multi_chunk_body_is_concatenated() {
    let body = XmlBody::new(None).limit(100);
    let chunks = vec![b"<Tag>ab".to_vec(), b"c</Tag>".to_vec()];
    let buf = body.collect(&chunks).unwrap();
    assert_eq!(buf, b"<Tag>abc</Tag>".to_vec());
    let value: Plain = from_buffer(&buf).unwrap();
    assert_eq!(value, Plain("abc".to_string()));
}

#[test]
fn missing_content_type_is_rejected() {
    let config = XmlConfig::<NoPredicate>::new();
    let r: Result<Xml<Plain>, XMLPayloadError> =
        extract(&config, None, None, &vec![b"<Tag>x</Tag>".to_vec()]);
    assert!(matches!(r, Err(XMLPayloadError::ContentType)));
}

#[test]
fn unparsable_content_type_is_rejected() {
    // Rejected even with a predicate that accepts everything: an
    // unparsable value never reaches the predicate.
    let config = XmlConfig::new().content_type(AcceptAll);
    let r: Result<Xml<Plain>, XMLPayloadError> = extract(
        &config,
        Some("not a media type"),
        None,
        &vec![b"<Tag>x</Tag>".to_vec()],
    );
    assert!(matches!(r, Err(XMLPayloadError::ContentType)));
}

#[test]
fn content_type_parameters_and_case_are_normalized() {
    // The mime parser lower-cases the type and subtype and drops the
    // parameters, so this value passes the built-in gate.
    let config = XmlConfig::<NoPredicate>::new();
    let r: Result<Xml<Plain>, XMLPayloadError> = extract(
        &config,
        Some("TEXT/XML; charset=utf-8"),
        None,
        &vec![b"<Tag>x</Tag>".to_vec()],
    );
    assert_eq!(r.unwrap().into_inner(), Plain("x".to_string()));
}

#[test]
fn check_content_type_runs_the_gate() {
    let config = XmlConfig::<NoPredicate>::new();
    assert!(config.check_content_type(Some("application/xml")).is_ok());
    assert!(config.check_content_type(Some("text/xml")).is_ok());
    let r = config.check_content_type(Some("application/json"));
    assert!(matches!(r, Err(XMLPayloadError::ContentType)));
    let r = config.check_content_type(None);
    assert!(matches!(r, Err(XMLPayloadError::ContentType)));
}

#[test]
fn check_parsed_asks_the_predicate_only_when_needed() {
    let config = XmlConfig::new().content_type(AcceptAll);
    assert!(config.check_parsed(Some(&MediaType::new("image", "png"))).is_ok());
    let bare = XmlConfig::<NoPredicate>::new();
    let r = bare.check_parsed(Some(&MediaType::new("image", "png")));
    assert!(matches!(r, Err(XMLPayloadError::ContentType)));
    assert!(bare.check_parsed(Some(&MediaType::new("text", "xml"))).is_ok());
    assert!(bare.check_parsed(Some(&MediaType::new("application", "xml"))).is_ok());
}

#[test]
fn malformed_body_is_a_deserialize_error() {
    let config = XmlConfig::<NoPredicate>::new();
    let r: Result<Xml<Plain>, XMLPayloadError> = extract(
        &config,
        Some("text/xml"),
        None,
        &vec![b"<Tag>never closed".to_vec()],
    );
    let err = r.unwrap_err();
    assert!(matches!(err, XMLPayloadError::Deserialize(_)));
    assert_eq!(err.status_code(), 400);
    assert_eq!(err.message(), "Xml deserialize error");
}

#[test]
fn resolution_is_deterministic_and_ordered() {
    let direct = XmlConfig::<NoPredicate>::new().limit(1);
    let shared = XmlConfig::<NoPredicate>::new().limit(2);
    let fallback = XmlConfig::<NoPredicate>::new().limit(3);

    // First match wins.
    let first = resolve_config(Some(&direct), Some(&shared), &fallback);
    assert_eq!(first.limit_value(), 1);
    let second = resolve_config(None, Some(&shared), &fallback);
    assert_eq!(second.limit_value(), 2);
    let third = resolve_config(None, None, &fallback);
    assert_eq!(third.limit_value(), 3);

    // Resolving twice with unchanged inputs yields the same configuration.
    let again = resolve_config(Some(&direct), Some(&shared), &fallback);
    assert_eq!(first.limit_value(), again.limit_value());
}

#[test]
fn streamed_chunks_without_declared_length_overflow_partway() {
    // No declared length: only the cumulative streamed size can raise the
    // overflow, at the chunk that crosses the threshold.
    let config = XmlConfig::<NoPredicate>::new().limit(10);
    let chunks = vec![vec![b'a'; 4], vec![b'b'; 4], vec![b'c'; 4], vec![b'd'; 4]];
    let r: Result<Xml<Plain>, XMLPayloadError> = extract(&config, Some("text/xml"), None, &chunks);
    assert!(matches!(r, Err(XMLPayloadError::Overflow)));

    let mut body = XmlBody::new(None).limit(10);
    assert!(body.push_chunk(&[b'a'; 4]).is_ok());
    assert!(body.push_chunk(&[b'b'; 4]).is_ok());
    assert!(matches!(body.push_chunk(&[b'c'; 4]), Err(XMLPayloadError::Overflow)));
}

#[test]
fn gate_decision_on_plain_values() {
    assert!(decide_content_type(true, true, None).is_ok());
    assert!(decide_content_type(true, false, Some(true)).is_ok());
    assert!(matches!(
        decide_content_type(true, false, Some(false)),
        Err(XMLPayloadError::ContentType)
    ));
    assert!(matches!(
        decide_content_type(true, false, None),
        Err(XMLPayloadError::ContentType)
    ));
    assert!(matches!(
        decide_content_type(false, false, None),
        Err(XMLPayloadError::ContentType)
    ));
}

#[test]
fn builtin_media_types_and_no_others() {
    assert!(MediaType::new("text", "xml").is_builtin_xml());
    assert!(MediaType::new("application", "xml").is_builtin_xml());
    assert!(!MediaType::new("text", "plain").is_builtin_xml());
    assert!(!MediaType::new("application", "json").is_builtin_xml());
    let m = MediaType::new("image", "svg");
    assert_eq!(m.kind, "image");
    assert_eq!(m.subtype, "svg");
}

#[test]
fn empty_body_is_a_deserialize_error() {
    let config = XmlConfig::<NoPredicate>::new();
    let r: Result<Xml<Plain>, XMLPayloadError> =
        extract(&config, Some("text/xml"), Some(0), &vec![]);
    assert!(matches!(r, Err(XMLPayloadError::Deserialize(_))));
}

#[test]
fn error_classification_for_the_host() {
    let overflow = XMLPayloadError::Overflow;
    assert_eq!(overflow.status_code(), 413);
    let content = XMLPayloadError::ContentType;
    assert_eq!(content.status_code(), 400);
    assert_eq!(content.message(), "Content type error");
    let transport = XMLPayloadError::Payload(actix_web::error::PayloadError::Incomplete(None));
    assert_eq!(transport.status_code(), 400);
    assert_eq!(transport.message(), "Error that occur during reading payload");
}
