//! Extraction configuration: the byte-size limit and the content-type
//! policy, and the deterministic per-request resolution of the effective
//! configuration.

use vstd::prelude::*;

use crate::error::XMLPayloadError;
use crate::media::MediaType;
use crate::media::is_xml_media;
use crate::media::parse_media_type;
use crate::media::parsed_media;

verus! {

/// The process-wide default size limit for a request body, in bytes.
pub const DEFAULT_LIMIT: usize = 262144;

/// A content-type predicate: a capability the host configures to extend the
/// accepted media types beyond the two built-in XML ones. Implementations
/// are host code; nothing is assumed of what `matches` returns.
pub trait ContentTypePredicate {
    /// Whether the predicate accepts the media type.
    fn matches(&self, media: &MediaType) -> bool;
}

/// The predicate type of a configuration that has no predicate configured;
/// it never accepts anything on its own.
pub struct NoPredicate;

impl ContentTypePredicate for NoPredicate {
    fn matches(&self, _media: &MediaType) -> bool {
        false
    }
}

/// XML extractor configuration: a size limit and an optional content-type
/// predicate. Immutable once constructed.
pub struct XmlConfig<P> {
    limit: usize,
    content_type: Option<P>,
}

/// The view of an optional string slice.
pub open spec fn opt_str_view(raw: Option<&str>) -> Option<Seq<char>> {
    match raw {
        Some(s) => Some(s@),
        None => None,
    }
}

impl<P> XmlConfig<P> {
    /// The configured size limit, in bytes.
    pub closed spec fn spec_limit(&self) -> usize {
        self.limit
    }

    /// The configured predicate, if any.
    pub closed spec fn spec_predicate(&self) -> Option<P> {
        self.content_type
    }

    /// The `Content-Type` text names `text/xml` or `application/xml`: the
    /// gate accepts without asking any predicate.
    pub open spec fn gate_must_accept(&self, raw: Option<Seq<char>>) -> bool {
        match raw {
            Some(s) => match parsed_media(s) {
                Some(p) => is_xml_media(p.0, p.1),
                None => false,
            },
            None => false,
        }
    }

    /// The `Content-Type` text is missing or unparsable, or names a media
    /// type outside the two XML ones while no predicate is configured: the
    /// gate rejects.
    pub open spec fn gate_must_reject(&self, raw: Option<Seq<char>>) -> bool {
        match raw {
            Some(s) => match parsed_media(s) {
                Some(p) => !is_xml_media(p.0, p.1) && self.spec_predicate() is None,
                None => true,
            },
            None => true,
        }
    }
}

/// Whether a checked media type goes through: it parsed, and is either a
/// built-in XML one or approved by a configured predicate.
pub open spec fn gate_decision(parsed: bool, builtin: bool, verdict: Option<bool>) -> bool {
    parsed && (builtin || (verdict matches Some(true)))
}

/// The content-type verdict on plain values, one outcome for each
/// combination: `parsed` says the media type was present and parsed,
/// `builtin` that it is an XML one, `verdict` what a configured predicate
/// answered, nothing when none is configured.
pub fn decide_content_type(
    parsed: bool,
    builtin: bool,
    verdict: Option<bool>,
) -> (r: Result<(), XMLPayloadError>)
    ensures
        r is Ok <==> gate_decision(parsed, builtin, verdict),
        r is Err ==> r matches Err(XMLPayloadError::ContentType),
{
    if parsed && (builtin || matches!(verdict, Some(true))) {
        Ok(())
    } else {
        Err(XMLPayloadError::ContentType)
    }
}

impl<P: ContentTypePredicate> XmlConfig<P> {
    /// A configuration with the default limit and no predicate.
    pub fn new() -> (r: Self)
        ensures
            r.spec_limit() == DEFAULT_LIMIT,
            r.spec_predicate() is None,
    {
        XmlConfig { limit: DEFAULT_LIMIT, content_type: None }
    }

    /// Change max size of payload. By default max size is 256Kb.
    pub fn limit(self, limit: usize) -> (r: Self)
        ensures
            r.spec_limit() == limit,
            r.spec_predicate() == self.spec_predicate(),
    {
        XmlConfig { limit, content_type: self.content_type }
    }

    /// Set predicate for allowed content types.
    pub fn content_type(self, predicate: P) -> (r: Self)
        ensures
            r.spec_limit() == self.spec_limit(),
            r.spec_predicate() == Some(predicate),
    {
        XmlConfig { limit: self.limit, content_type: Some(predicate) }
    }

    /// The configured limit, read back.
    pub fn limit_value(&self) -> (r: usize)
        ensures
            r == self.spec_limit(),
    {
        self.limit
    }

    /// The content-type gate on an already-parsed media type: accept a
    /// built-in XML type; otherwise ask the configured predicate, if any;
    /// otherwise reject. The one case the contract leaves open is the
    /// predicate's own verdict, which is the host's code.
    pub fn check_parsed(&self, media: Option<&MediaType>) -> (r: Result<(), XMLPayloadError>)
        ensures
            r is Err ==> r matches Err(XMLPayloadError::ContentType),
            match media {
                Some(m) => {
                    &&& (is_xml_media(m.kind@, m.subtype@) ==> r is Ok)
                    &&& (!is_xml_media(m.kind@, m.subtype@) && self.spec_predicate() is None
                        ==> r is Err)
                    &&& (r is Ok ==> is_xml_media(m.kind@, m.subtype@)
                        || self.spec_predicate() is Some)
                },
                None => r is Err,
            },
    {
        match media {
            Some(m) => {
                let builtin = m.is_builtin_xml();
                if builtin {
                    decide_content_type(true, true, None)
                } else {
                    match &self.content_type {
                        Some(p) => {
                            let verdict = p.matches(m);
                            decide_content_type(true, false, Some(verdict))
                        },
                        None => decide_content_type(true, false, None),
                    }
                }
            },
            None => decide_content_type(false, false, None),
        }
    }

    /// The full gate as the pipeline runs it: parse the declared
    /// `Content-Type` value, then check the parsed media type. Runs before
    /// any body byte is consumed.
    pub fn check_content_type(&self, raw: Option<&str>) -> (r: Result<(), XMLPayloadError>)
        ensures
            r is Err ==> r matches Err(XMLPayloadError::ContentType),
            self.gate_must_accept(opt_str_view(raw)) ==> r is Ok,
            self.gate_must_reject(opt_str_view(raw)) ==> r is Err,
            r is Ok ==> (opt_str_view(raw) matches Some(s) && parsed_media(s) is Some),
    {
        match raw {
            Some(s) => {
                let parsed = parse_media_type(s);
                match parsed {
                    Some(m) => self.check_parsed(Some(&m)),
                    None => self.check_parsed(None),
                }
            },
            None => self.check_parsed(None),
        }
    }
}

/// The configuration that per-request resolution chooses: the directly
/// attached entry, else the entry behind a shared wrapper, else the
/// fallback.
pub open spec fn resolved_config<C>(direct: Option<C>, shared: Option<C>, fallback: C) -> C {
    match direct {
        Some(c) => c,
        None => match shared {
            Some(c) => c,
            None => fallback,
        },
    }
}

/// Resolve the effective configuration for a request scope, first match
/// wins: a directly attached entry, then one behind a shared wrapper, then
/// the process-wide default. Pure; no side effects.
pub fn resolve_config<'a, C>(
    direct: Option<&'a C>,
    shared: Option<&'a C>,
    fallback: &'a C,
) -> (r: &'a C)
    ensures
        r == resolved_config(direct, shared, fallback),
{
    match direct {
        Some(c) => c,
        None => match shared {
            Some(c) => c,
            None => fallback,
        },
    }
}

/// Law: resolution is deterministic. Resolving twice against the same
/// request scope, with no intervening reconfiguration, yields the identical
/// configuration.
pub proof fn lemma_resolve_deterministic<C>(
    direct_first: Option<C>,
    shared_first: Option<C>,
    fallback_first: C,
    direct_second: Option<C>,
    shared_second: Option<C>,
    fallback_second: C,
)
    requires
        direct_first == direct_second,
        shared_first == shared_second,
        fallback_first == fallback_second,
    ensures
        resolved_config(direct_first, shared_first, fallback_first) == resolved_config(
            direct_second,
            shared_second,
            fallback_second,
        ),
{
}

impl Default for XmlConfig<NoPredicate> {
    /// The process-wide default configuration.
    fn default() -> (r: Self)
        ensures
            r.spec_limit() == DEFAULT_LIMIT,
            r.spec_predicate() is None,
    {
        XmlConfig { limit: DEFAULT_LIMIT, content_type: None }
    }
}

} // verus!
