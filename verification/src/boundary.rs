//! The result type handed across the call boundary, and its release.
//!
//! A result carries exactly one of an embedding buffer or an error message.
//! The buffer travels with its element count; the caller gives the whole
//! result back to `free_embeddings` exactly once, which the type enforces by
//! taking it by value.

use vstd::prelude::*;

use vstd::string::StringExecFns;

use candle_core::Tensor;

use crate::adapters::elems;

verus! {

/// The text starts with the given prefix.
pub open spec fn has_prefix(s: Seq<char>, prefix: Seq<char>) -> bool {
    prefix.len() <= s.len() && s.subrange(0, prefix.len() as int) == prefix
}

/// Builds a failure message: the failing step's own description followed by
/// the underlying error's words.  The result is never empty.
pub(crate) fn describe(prefix: &str, detail: &str) -> (r: String)
    requires
        prefix@.len() > 0,
    ensures
        r@ == prefix@ + detail@,
        r@.len() > 0,
        has_prefix(r@, prefix@),
{
    let s = String::from_str(prefix);
    let r = s.concat(detail);
    proof {
        assert(r@.subrange(0, prefix@.len() as int) =~= prefix@);
    }
    r
}

/// The outcome of one embedding request: a flat buffer of hidden states with
/// its length, or an error message, never both and never neither.
pub struct EmbeddingResult {
    pub embeddings: Option<Tensor>,
    pub len: usize,
    pub error: Option<String>,
}

impl EmbeddingResult {
    /// The result carries a buffer rather than an error.
    pub open spec fn is_success(self) -> bool {
        self.embeddings is Some
    }

    /// Exactly one channel is set: a success holds a buffer whose element
    /// count is the stated, positive length; a failure holds no buffer, a
    /// zero length and a non-empty message.
    pub open spec fn well_formed(self) -> bool {
        &&& (self.embeddings is Some <==> self.error is None)
        &&& (self.embeddings is Some ==> self.len > 0 && self.len == elems(
            self.embeddings->Some_0,
        ))
        &&& (self.error is Some ==> self.len == 0 && self.error->Some_0@.len() > 0)
    }

    pub fn success(buffer: Tensor, len: usize) -> (r: EmbeddingResult)
        requires
            len > 0,
            len == elems(buffer),
        ensures
            r.well_formed(),
            r.is_success(),
            r.embeddings == Some(buffer),
            r.len == len,
            r.error is None,
    {
        EmbeddingResult { embeddings: Some(buffer), len, error: None }
    }

    pub fn failure(message: String) -> (r: EmbeddingResult)
        requires
            message@.len() > 0,
        ensures
            r.well_formed(),
            !r.is_success(),
            r.embeddings is None,
            r.len == 0,
            r.error == Some(message),
    {
        EmbeddingResult { embeddings: None, len: 0, error: Some(message) }
    }
}

/// On every well-formed successful result the error channel is empty and the
/// stated length is positive and is exactly the buffer's element count.
pub proof fn lemma_success_channel(r: EmbeddingResult)
    requires
        r.well_formed(),
        r.is_success(),
    ensures
        r.error is None,
        r.len > 0,
        r.len == elems(r.embeddings->Some_0),
{
}

/// On every well-formed failed result the buffer channel is empty, the
/// stated length is zero and the error message is non-empty.
pub proof fn lemma_failure_channel(r: EmbeddingResult)
    requires
        r.well_formed(),
        !r.is_success(),
    ensures
        r.embeddings is None,
        r.len == 0,
        r.error is Some,
        r.error->Some_0@.len() > 0,
{
}

/// Releases whatever the result owns: the buffer on the success channel or
/// the message on the error channel.  Taking the result by value makes the
/// release happen exactly once; after the call the result no longer exists,
/// so no field can be read and no second release can be written.
pub fn free_embeddings(result: EmbeddingResult) {
    let _ = result;
}

} // verus!
