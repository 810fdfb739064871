//! The embedding pipeline: tokenize, build tensor inputs, run the encoder's
//! forward pass, flatten, and package the outcome as a dual-channel result.
//!
//! Every fallible step short-circuits into a failure result at its own site;
//! no failure crosses the boundary as a panic.  Encoding may draw randomness
//! inside the tokenizer, so nothing relates its ids to the text; everything
//! after it is deterministic in the ids, and `embed_token_ids` carries that
//! exact contract.

use vstd::prelude::*;

use vstd::string::StringExecFns;

use candle_core::Tensor;

use crate::adapters::bert_forward;
use crate::adapters::clone_tokenizer;
use crate::adapters::disable_truncation;
use crate::adapters::elems;
use crate::adapters::enable_default_padding;
use crate::adapters::encode_ids;
use crate::adapters::flatten_tensor;
use crate::adapters::flattened;
use crate::adapters::forward_output;
use crate::adapters::hidden_size;
use crate::adapters::ids_tensor;
use crate::adapters::new_token_tensor;
use crate::adapters::tensor_elem_count;
use crate::adapters::unsqueeze_front;
use crate::adapters::unsqueezed;
use crate::adapters::zeros_like_tensor;
use crate::adapters::zeros_of;
use crate::boundary::describe;
use crate::boundary::has_prefix;
use crate::boundary::EmbeddingResult;
use crate::registry::LoadedModel;
use crate::registry::ModelRegistry;

verus! {

/// The rank-2 token-id input tensor (one batch row of the given ids), if
/// tensor construction succeeds.
pub open spec fn input_tensor(m: LoadedModel, ids: Seq<u32>) -> Option<Tensor> {
    match ids_tensor(ids, m.encoder) {
        Option::None => Option::None,
        Option::Some(row) => Option::Some(unsqueezed(row)),
    }
}

/// The zero-filled token-type tensor of the input tensor's shape, if the
/// steps up to it succeed.
pub open spec fn type_tensor(m: LoadedModel, ids: Seq<u32>) -> Option<Tensor> {
    match input_tensor(m, ids) {
        Option::None => Option::None,
        Option::Some(input) => zeros_of(input),
    }
}

/// The hidden-state tensor one model produces for one id sequence, if every
/// step up to and including the encoder's forward pass succeeds.
pub open spec fn hidden_states(m: LoadedModel, ids: Seq<u32>) -> Option<Tensor> {
    match input_tensor(m, ids) {
        Option::None => Option::None,
        Option::Some(input) => match type_tensor(m, ids) {
            Option::None => Option::None,
            Option::Some(type_ids) => forward_output(m.encoder, input, type_ids),
        },
    }
}

/// When the deterministic tail of the pipeline succeeds on one id sequence:
/// every tensor step succeeds, the output is non-empty, and it flattens.
pub open spec fn embedding_succeeds(m: LoadedModel, ids: Seq<u32>) -> bool {
    &&& hidden_states(m, ids) is Some
    &&& elems(hidden_states(m, ids)->Some_0) > 0
    &&& flattened(hidden_states(m, ids)->Some_0, elems(hidden_states(m, ids)->Some_0)) is Some
}

/// The flat buffer a successful request returns: the hidden states reshaped
/// to one dimension, element count and row-major order preserved.
pub open spec fn generated_buffer(m: LoadedModel, ids: Seq<u32>) -> Tensor
    recommends
        embedding_succeeds(m, ids),
{
    flattened(hidden_states(m, ids)->Some_0, elems(hidden_states(m, ids)->Some_0))->Some_0
}

/// The length a successful request reports: the element count of the hidden
/// states, which the flat buffer preserves.
pub open spec fn generated_len(m: LoadedModel, ids: Seq<u32>) -> usize
    recommends
        embedding_succeeds(m, ids),
{
    elems(hidden_states(m, ids)->Some_0)
}

/// The message a request against an empty registry reports.
pub open spec fn not_initialized_message() -> Seq<char> {
    "Model not initialized"@
}

/// Which error message each failing tensor step reports: every failure is
/// converted at its own site, and the message names that site.
pub open spec fn failure_message_matches_cause(
    m: LoadedModel,
    ids: Seq<u32>,
    result: EmbeddingResult,
) -> bool {
    &&& (input_tensor(m, ids) is None ==> has_prefix(
        result.error->Some_0@,
        "token tensor construction failed: "@,
    ))
    &&& (input_tensor(m, ids) is Some && type_tensor(m, ids) is None ==> has_prefix(
        result.error->Some_0@,
        "token-type tensor construction failed: "@,
    ))
    &&& (type_tensor(m, ids) is Some && hidden_states(m, ids) is None ==> has_prefix(
        result.error->Some_0@,
        "model forward pass failed: "@,
    ))
    &&& (hidden_states(m, ids) is Some && flattened(
        hidden_states(m, ids)->Some_0,
        elems(hidden_states(m, ids)->Some_0),
    ) is None ==> has_prefix(result.error->Some_0@, "embedding flattening failed: "@))
    &&& (hidden_states(m, ids) is Some && flattened(
        hidden_states(m, ids)->Some_0,
        elems(hidden_states(m, ids)->Some_0),
    ) is Some && elems(hidden_states(m, ids)->Some_0) == 0 ==> result.error->Some_0@
        == "model produced an empty embedding"@)
}

/// Everything the deterministic tail promises about its result, as a
/// relation between the model, the id sequence it was given, and the result:
/// success exactly when the tail succeeds, the payload pinned to the named
/// outside results, the length equal to the hidden dimension times the id
/// count, and every failure message naming its site.
pub open spec fn embedding_post(m: LoadedModel, ids: Seq<u32>, result: EmbeddingResult) -> bool {
    &&& result.well_formed()
    &&& (result.is_success() <==> embedding_succeeds(m, ids))
    &&& (result.is_success() ==> result.embeddings == Some(generated_buffer(m, ids)) && result.len
        == generated_len(m, ids))
    &&& (result.is_success() ==> result.len as int == ids.len() as int * hidden_size(
        m.encoder,
    ) as int)
    &&& failure_message_matches_cause(m, ids, result)
}

/// Everything `generate_embeddings` promises about its result.  The ids the
/// tokenizer returned are not a function of the text (encoding may draw
/// randomness), so the promise is: against an empty registry, exactly the
/// not-initialized failure; otherwise the result is the deterministic tail's
/// outcome for some id sequence, or a failure whose message names the
/// encoding or configuration step that failed.
pub open spec fn generation_post(
    m: Option<LoadedModel>,
    text: Seq<char>,
    result: EmbeddingResult,
) -> bool {
    &&& result.well_formed()
    &&& (m is None ==> result.error is Some && result.error->Some_0@ == not_initialized_message())
    &&& (result.is_success() ==> m is Some)
    &&& (result.is_success() ==> exists|ids: Seq<u32>|
        #[trigger] embedding_post(m->Some_0, ids, result))
    &&& (m is Some && !result.is_success() ==> has_prefix(
        result.error->Some_0@,
        "tokenization failed: "@,
    ) || has_prefix(result.error->Some_0@, "truncation configuration failed: "@) || exists|
        ids: Seq<u32>,
    |
        #[trigger] embedding_post(m->Some_0, ids, result))
}

/// Packages a failed step as a failure result carrying the step's
/// description followed by the underlying error.
fn failed(prefix: &str, detail: String) -> (r: EmbeddingResult)
    requires
        prefix@.len() > 0,
    ensures
        r.well_formed(),
        !r.is_success(),
        r.embeddings is None,
        r.len == 0,
        r.error is Some,
        r.error->Some_0@ == prefix@ + detail@,
        has_prefix(r.error->Some_0@, prefix@),
{
    EmbeddingResult::failure(describe(prefix, detail.as_str()))
}

/// Encodes a text with the stored tokenizer, special tokens added.  The
/// tokenizer decides success and ids (possibly drawing randomness), so only
/// the registry side is promised: without a model the call fails, and every
/// failure carries a non-empty message.
pub fn tokenize(reg: &ModelRegistry, text: &str) -> (r: Result<Vec<u32>, String>)
    ensures
        r is Ok ==> reg.model() is Some,
        reg.model() is None ==> r is Err && r->Err_0@ == not_initialized_message(),
        reg.model() is Some && r is Err ==> has_prefix(r->Err_0@, "tokenization failed: "@),
        r is Err ==> r->Err_0@.len() > 0,
{
    proof {
        reveal_strlit("Model not initialized");
        reveal_strlit("tokenization failed: ");
    }
    let m = match reg.current() {
        Some(m) => m,
        None => {
            return Err(String::from_str("Model not initialized"));
        },
    };
    match encode_ids(&m.tokenizer, text) {
        Ok(ids) => Ok(ids),
        Err(e) => Err(describe("tokenization failed: ", e.as_str())),
    }
}

/// The deterministic tail of the pipeline: from an id sequence, build the
/// rank-2 token-id tensor and its zero-filled token-type twin, run the
/// encoder's forward pass, flatten, and package the outcome.  The whole
/// result is a function of the model and the ids, stated by
/// `embedding_post`.
pub fn embed_token_ids(model: &LoadedModel, ids: &Vec<u32>) -> (result: EmbeddingResult)
    ensures
        embedding_post(*model, ids@, result),
{
    proof {
        reveal_strlit("token tensor construction failed: ");
        reveal_strlit("batch dimension insertion failed: ");
        reveal_strlit("token-type tensor construction failed: ");
        reveal_strlit("model forward pass failed: ");
        reveal_strlit("embedding flattening failed: ");
        reveal_strlit("model produced an empty embedding");
    }
    let row = match new_token_tensor(ids, &model.encoder) {
        Ok(t) => t,
        Err(e) => {
            return failed("token tensor construction failed: ", e);
        },
    };

    let input_ids = match unsqueeze_front(&row) {
        Ok(t) => t,
        Err(e) => {
            return failed("batch dimension insertion failed: ", e);
        },
    };

    let type_ids = match zeros_like_tensor(&input_ids) {
        Ok(t) => t,
        Err(e) => {
            return failed("token-type tensor construction failed: ", e);
        },
    };

    let hidden = match bert_forward(&model.encoder, &input_ids, &type_ids) {
        Ok(t) => t,
        Err(e) => {
            return failed("model forward pass failed: ", e);
        },
    };

    let len = tensor_elem_count(&hidden);
    let buffer = match flatten_tensor(&hidden, len) {
        Ok(t) => t,
        Err(e) => {
            return failed("embedding flattening failed: ", e);
        },
    };

    if len == 0 {
        return EmbeddingResult::failure(String::from_str("model produced an empty embedding"));
    }
    EmbeddingResult::success(buffer, len)
}

/// One embedding request: look up the stored model, configure a
/// request-scoped tokenizer copy, encode, and run the deterministic tail on
/// whatever ids the encode returned.
pub fn generate_embeddings(reg: &ModelRegistry, text: &str) -> (result: EmbeddingResult)
    ensures
        generation_post(reg.model(), text@, result),
{
    proof {
        reveal_strlit("Model not initialized");
        reveal_strlit("truncation configuration failed: ");
        reveal_strlit("tokenization failed: ");
    }
    let m = match reg.current() {
        Some(m) => m,
        None => {
            return EmbeddingResult::failure(String::from_str("Model not initialized"));
        },
    };

    // A request-scoped copy of the stored tokenizer is configured with
    // padding on and truncation off, so per-request configuration never
    // touches the shared tokenizer; the encode itself runs on the stored
    // tokenizer.
    let mut request_tokenizer = clone_tokenizer(&m.tokenizer);
    enable_default_padding(&mut request_tokenizer);
    match disable_truncation(&mut request_tokenizer) {
        Ok(()) => (),
        Err(e) => {
            return failed("truncation configuration failed: ", e);
        },
    };

    let ids = match encode_ids(&m.tokenizer, text) {
        Ok(ids) => ids,
        Err(e) => {
            return failed("tokenization failed: ", e);
        },
    };

    let result = embed_token_ids(m, &ids);
    proof {
        assert(embedding_post(reg.model()->Some_0, ids@, result));
    }
    result
}

/// Before any model is installed, a generation request always reports the
/// not-initialized failure: no buffer, length zero, and exactly that
/// message.
pub proof fn lemma_uninitialized_generation(text: Seq<char>, result: EmbeddingResult)
    requires
        generation_post(None, text, result),
    ensures
        !result.is_success(),
        result.embeddings is None,
        result.len == 0,
        result.error is Some,
        result.error->Some_0@ == not_initialized_message(),
{
}

/// For one model and one id sequence, the pipeline's tail is deterministic:
/// any two results agree on whether they succeed, and two successes carry
/// the same buffer and the same length.  (The ids themselves need not be a
/// function of the text: a tokenizer may draw randomness while encoding.)
pub proof fn lemma_embedding_deterministic(
    m: LoadedModel,
    ids: Seq<u32>,
    r1: EmbeddingResult,
    r2: EmbeddingResult,
)
    requires
        embedding_post(m, ids, r1),
        embedding_post(m, ids, r2),
    ensures
        r1.is_success() == r2.is_success(),
        r1.is_success() ==> r1.embeddings == r2.embeddings && r1.len == r2.len,
{
}

/// A successful embedding's length is the model's hidden dimension times
/// the number of token ids it was given — so after re-initialization it is
/// fixed by the newly stored model alone.
pub proof fn lemma_embedding_dimensions(m: LoadedModel, ids: Seq<u32>, result: EmbeddingResult)
    requires
        embedding_post(m, ids, result),
        result.is_success(),
    ensures
        result.len as int == ids.len() as int * hidden_size(m.encoder) as int,
{
}

} // verus!
