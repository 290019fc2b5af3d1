//! The size-bounded body collector: the incremental state machine that
//! accumulates chunks under a hard byte ceiling, and the laws that govern a
//! complete collection run.

use vstd::prelude::*;

use crate::config::DEFAULT_LIMIT;
use crate::error::XMLPayloadError;

verus! {

/// Holds when a declared body length already exceeds the limit, so that the
/// stream need never be read.
pub open spec fn declared_too_long(limit: usize, length: Option<usize>) -> bool {
    match length {
        Some(n) => n > limit,
        None => false,
    }
}

/// The outcome of a complete collection run over the delivered chunks:
/// `None` stands for an overflow, the bytes of the complete body otherwise.
/// When the declared length exceeds the limit the chunks play no part.
pub open spec fn collect_outcome(
    limit: usize,
    length: Option<usize>,
    chunks: Seq<Seq<u8>>,
) -> Option<Seq<u8>> {
    if declared_too_long(limit, length) {
        None
    } else if chunks.flatten().len() > limit {
        None
    } else {
        Some(chunks.flatten())
    }
}

/// Request's payload collector: enforces the size limit against the
/// declared length first, then incrementally against the accumulated
/// buffer as chunks arrive.
pub struct XmlBody {
    limit: usize,
    length: Option<usize>,
    buf: Vec<u8>,
}

impl XmlBody {
    /// The byte ceiling the collector enforces.
    pub closed spec fn spec_limit(&self) -> usize {
        self.limit
    }

    /// The declared body length, if the request carried one.
    pub closed spec fn spec_length(&self) -> Option<usize> {
        self.length
    }

    /// The bytes accumulated so far.
    pub closed spec fn buffered(&self) -> Seq<u8> {
        self.buf@
    }

    /// The collector's invariant: the buffer never exceeds the limit.
    pub open spec fn wf(&self) -> bool {
        self.buffered().len() <= self.spec_limit()
    }

    /// Whether the declared length alone already exceeds the limit.
    pub open spec fn declared_exceeds(&self) -> bool {
        declared_too_long(self.spec_limit(), self.spec_length())
    }

    /// Create a collector for a request with the given declared length and
    /// the default limit.
    pub fn new(length: Option<usize>) -> (r: Self)
        ensures
            r.spec_limit() == DEFAULT_LIMIT,
            r.spec_length() == length,
            r.buffered() == Seq::<u8>::empty(),
            r.wf(),
    {
        XmlBody { limit: DEFAULT_LIMIT, length, buf: Vec::new() }
    }

    /// Change max size of payload. By default max size is 256Kb.
    pub fn limit(self, limit: usize) -> (r: Self)
        requires
            self.buffered().len() == 0,
        ensures
            r.spec_limit() == limit,
            r.spec_length() == self.spec_length(),
            r.buffered() == self.buffered(),
            r.wf(),
    {
        XmlBody { limit, length: self.length, buf: self.buf }
    }

    /// The fast path run before any read: fail with an overflow when the
    /// declared length already exceeds the limit, if and only if it does.
    pub fn check_length(&self) -> (r: Result<(), XMLPayloadError>)
        ensures
            r is Ok <==> !self.declared_exceeds(),
            r is Err ==> r matches Err(XMLPayloadError::Overflow),
    {
        match self.length {
            Some(n) => {
                if n > self.limit {
                    Err(XMLPayloadError::Overflow)
                } else {
                    Ok(())
                }
            },
            None => Ok(()),
        }
    }

    /// One streaming step: append the delivered chunk, unless doing so would
    /// push the buffer past the limit, in which case the buffer is
    /// discarded and the step fails with an overflow.
    pub fn push_chunk(&mut self, chunk: &[u8]) -> (r: Result<(), XMLPayloadError>)
        requires
            old(self).wf(),
        ensures
            final(self).spec_limit() == old(self).spec_limit(),
            final(self).spec_length() == old(self).spec_length(),
            final(self).wf(),
            if old(self).buffered().len() + chunk@.len() > old(self).spec_limit() {
                &&& r matches Err(XMLPayloadError::Overflow)
                &&& final(self).buffered() == Seq::<u8>::empty()
            } else {
                &&& r is Ok
                &&& final(self).buffered() == old(self).buffered() + chunk@
            },
    {
        let remaining: usize = self.limit - self.buf.len();
        if chunk.len() > remaining {
            self.buf = Vec::new();
            Err(XMLPayloadError::Overflow)
        } else {
            let mut i: usize = 0;
            while i < chunk.len()
                invariant
                    i <= chunk@.len(),
                    self.limit == old(self).limit,
                    self.length == old(self).length,
                    chunk@.len() <= old(self).limit - old(self).buf@.len(),
                    self.buf@ == old(self).buf@ + chunk@.subrange(0, i as int),
                decreases chunk@.len() - i,
            {
                self.buf.push(chunk[i]);
                proof {
                    assert(self.buf@ == old(self).buf@ + chunk@.subrange(0, i + 1));
                }
                i = i + 1;
            }
            proof {
                assert(chunk@.subrange(0, chunk@.len() as int) =~= chunk@);
            }
            Ok(())
        }
    }

    /// Hand out the complete body once every chunk has been accepted.
    pub fn finish(self) -> (r: Vec<u8>)
        requires
            self.wf(),
        ensures
            r@ == self.buffered(),
            r@.len() <= self.spec_limit(),
    {
        self.buf
    }

    /// Drive the collector over a complete run of delivered chunks: the
    /// declared-length fast check, then each chunk in order, then the
    /// completed buffer. An overflow is raised at the chunk that crosses
    /// the threshold and ends the run at once.
    pub fn collect(self, chunks: &Vec<Vec<u8>>) -> (r: Result<Vec<u8>, XMLPayloadError>)
        requires
            self.buffered().len() == 0,
            self.wf(),
        ensures
            match collect_outcome(self.spec_limit(), self.spec_length(), chunks.deep_view()) {
                Some(b) => r matches Ok(v) && v@ == b,
                None => r matches Err(XMLPayloadError::Overflow),
            },
    {
        let mut body = self;
        if let Err(e) = body.check_length() {
            return Err(e);
        }
        let ghost cs: Seq<Seq<u8>> = chunks.deep_view();
        let mut i: usize = 0;
        while i < chunks.len()
            invariant
                i <= chunks@.len(),
                cs == chunks.deep_view(),
                cs.len() == chunks@.len(),
                body.wf(),
                body.spec_limit() == self.spec_limit(),
                body.spec_length() == self.spec_length(),
                !self.declared_exceeds(),
                body.buffered() == cs.take(i as int).flatten(),
            decreases chunks@.len() - i,
        {
            proof {
                assert(cs[i as int] == chunks@[i as int].deep_view());
                assert(cs.take(i as int + 1).drop_last() =~= cs.take(i as int));
                assert(cs.take(i as int + 1) =~= cs.take(i as int).push(cs[i as int]));
                cs.take(i as int).lemma_flatten_push(cs[i as int]);
            }
            let chunk: &Vec<u8> = &chunks[i];
            match body.push_chunk(chunk.as_slice()) {
                Ok(()) => {},
                Err(e) => {
                    proof {
                        lemma_flatten_take_len_le(cs, i as int + 1);
                    }
                    return Err(e);
                },
            }
            i = i + 1;
        }
        proof {
            assert(cs.take(chunks@.len() as int) =~= cs);
        }
        Ok(body.finish())
    }
}

/// The bytes of a prefix of the chunk sequence are never more than the
/// bytes of the whole sequence.
proof fn lemma_flatten_take_len_le(chunks: Seq<Seq<u8>>, i: int)
    requires
        0 <= i <= chunks.len(),
    ensures
        chunks.take(i).flatten().len() <= chunks.flatten().len(),
    decreases chunks.len() - i,
{
    if i == chunks.len() {
        assert(chunks.take(i) =~= chunks);
    } else {
        assert(chunks.take(i + 1).drop_last() =~= chunks.take(i));
        assert(chunks.take(i + 1) =~= chunks.take(i).push(chunks[i]));
        chunks.take(i).lemma_flatten_push(chunks[i]);
        lemma_flatten_take_len_le(chunks, i + 1);
    }
}

/// Law: when the declared length exceeds the limit the outcome is an
/// overflow whatever the stream would have delivered; the chunks play no
/// part in the outcome, so the stream need never be read.
pub proof fn lemma_declared_overflow_ignores_stream(
    limit: usize,
    declared: usize,
    chunks_one: Seq<Seq<u8>>,
    chunks_other: Seq<Seq<u8>>,
)
    requires
        declared > limit,
    ensures
        collect_outcome(limit, Some(declared), chunks_one) is None,
        collect_outcome(limit, Some(declared), chunks_one) == collect_outcome(
            limit,
            Some(declared),
            chunks_other,
        ),
{
}

/// Law: success is owed whenever no declared length exceeds the limit and
/// the streamed bytes fit within it; the completed buffer then holds
/// exactly the streamed bytes, in order.
pub proof fn lemma_within_limit_completes(
    limit: usize,
    length: Option<usize>,
    chunks: Seq<Seq<u8>>,
)
    requires
        !declared_too_long(limit, length),
        chunks.flatten().len() <= limit,
    ensures
        collect_outcome(limit, length, chunks) == Some(chunks.flatten()),
{
}

/// Law: a body whose total streamed size equals the limit exactly is
/// accepted in full, and the same body with one more non-empty chunk
/// overflows.
pub proof fn lemma_limit_boundary(
    limit: usize,
    length: Option<usize>,
    chunks: Seq<Seq<u8>>,
    extra: Seq<u8>,
)
    requires
        !declared_too_long(limit, length),
        chunks.flatten().len() == limit,
        extra.len() > 0,
    ensures
        collect_outcome(limit, length, chunks) == Some(chunks.flatten()),
        collect_outcome(limit, length, chunks.push(extra)) is None,
{
    chunks.lemma_flatten_push(extra);
}

} // verus!
