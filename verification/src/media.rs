//! The library's own model of a declared media type: the type and subtype of
//! a parsed `Content-Type` value, parameters dropped.

use vstd::prelude::*;

verus! {

/// A parsed media type, reduced to what the content-type gate reads: the
/// type and the subtype, both lower-case. Parameters are dropped at parse.
pub struct MediaType {
    /// The top-level type, such as `text` in `text/xml`.
    pub kind: String,
    /// The subtype, such as `xml` in `text/xml`.
    pub subtype: String,
}

/// Holds when a media type is one of the two built-in accepted ones,
/// `text/xml` or `application/xml`, comparing type and subtype only.
pub open spec fn is_xml_media(kind: Seq<char>, subtype: Seq<char>) -> bool {
    (kind == "text"@ || kind == "application"@) && subtype == "xml"@
}

/// What mime's parser extracts from a `Content-Type` value: the type and the
/// subtype in lower case, or nothing when the value is not a media type.
pub uninterp spec fn parsed_media(raw: Seq<char>) -> Option<(Seq<char>, Seq<char>)>;

impl MediaType {
    /// Build a media type from its two parts.
    pub fn new(kind: &str, subtype: &str) -> (r: MediaType)
        ensures
            r.kind@ == kind@,
            r.subtype@ == subtype@,
    {
        MediaType { kind: kind.to_owned(), subtype: subtype.to_owned() }
    }

    /// Whether this media type is exactly `text/xml` or `application/xml`.
    pub fn is_builtin_xml(&self) -> (r: bool)
        ensures
            r == is_xml_media(self.kind@, self.subtype@),
    {
        let text: String = "text".to_owned();
        let application: String = "application".to_owned();
        let xml: String = "xml".to_owned();
        (self.kind == text || self.kind == application) && self.subtype == xml
    }
}

/// Relies on `mime::Mime::from_str` (mime 0.3, through `str::parse`): the
/// parsed type and subtype are a function of the input alone, the parser
/// lower-cases both, and an input that is no media type is rejected.
#[verifier::external_body]
pub(crate) fn parse_media_type(raw: &str) -> (r: Option<MediaType>)
    ensures
        match r {
            Some(m) => parsed_media(raw@) == Some((m.kind@, m.subtype@)),
            None => parsed_media(raw@) is None,
        },
{
    match raw.parse::<mime::Mime>() {
        Ok(m) => Some(MediaType {
            kind: m.type_().as_str().to_owned(),
            subtype: m.subtype().as_str().to_owned(),
        }),
        Err(_) => None,
    }
}

} // verus!
