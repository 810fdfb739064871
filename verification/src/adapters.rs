//! Trusted boundary to the tokenizer and encoder crates.
//!
//! The tokenizer, the encoder model, its configuration and its tensors are
//! opaque outside values.  Each outside call the pipeline makes goes through
//! exactly one wrapper here; the names below stand for what those calls
//! return, so that the verified code can state exact contracts over them.

use vstd::prelude::*;

use candle_core::Tensor;
use candle_transformers::models::bert::BertModel;
use candle_transformers::models::bert::Config;
use candle_transformers::models::bert::HiddenAct;
use tokenizers::PaddingParams;
use tokenizers::Tokenizer;

verus! {

#[verifier::external_type_specification]
#[verifier::external_body]
pub struct ExTokenizer(Tokenizer);

#[verifier::external_type_specification]
#[verifier::external_body]
pub struct ExBertModel(BertModel);

#[verifier::external_type_specification]
#[verifier::external_body]
pub struct ExConfig(Config);

#[verifier::external_type_specification]
#[verifier::external_body]
pub struct ExTensor(Tensor);

// `Tensor`'s arithmetic operator impls name this error type in their output,
// so declaring `Tensor` obliges declaring it too; no signature of this
// library mentions it.
#[verifier::external_type_specification]
#[verifier::external_body]
pub struct ExCandleError(candle_core::Error);

/// The encoder configuration that the configuration text parses to, if it
/// parses at all.
pub uninterp spec fn parsed_config(text: Seq<char>) -> Option<Config>;

/// The given configuration with its activation overridden to the
/// approximate GELU variant.
pub uninterp spec fn gelu_approximate_config(c: Config) -> Config;

/// The rank-1 token-id tensor built from an id sequence on the model's
/// device, if construction succeeds at all.
pub uninterp spec fn ids_tensor(ids: Seq<u32>, m: BertModel) -> Option<Tensor>;

/// The given tensor with a leading dimension of size one inserted.
pub uninterp spec fn unsqueezed(t: Tensor) -> Tensor;

/// A zero-filled tensor of the same shape, type and device as the given
/// one, if its allocation succeeds at all.
pub uninterp spec fn zeros_of(t: Tensor) -> Option<Tensor>;

/// The hidden-state tensor of the encoder's forward pass on the given
/// inputs, if the pass succeeds at all.
pub uninterp spec fn forward_output(m: BertModel, input_ids: Tensor, type_ids: Tensor) -> Option<
    Tensor,
>;

/// The number of elements stored in a tensor.
pub uninterp spec fn elems(t: Tensor) -> usize;

/// The hidden dimension of an encoder: the per-token width of its output.
pub uninterp spec fn hidden_size(m: BertModel) -> usize;

/// The given tensor reshaped to a single flat dimension of the given
/// length, if the reshape succeeds at all.
pub uninterp spec fn flattened(t: Tensor, n: usize) -> Option<Tensor>;

/// Relies on serde_json::from_str for the bert `Config`: parsing is a
/// function of the text alone, and either yields a configuration or a
/// parse error.
#[verifier::external_body]
pub(crate) fn parse_config(text: &str) -> (r: Result<Config, String>)
    ensures
        r is Ok <==> parsed_config(text@) is Some,
        r is Ok ==> r->Ok_0 == parsed_config(text@)->Some_0,
{
    serde_json::from_str::<Config>(text).map_err(|e| e.to_string())
}

/// Relies on the `hidden_act` field of the bert `Config`: this sets it to
/// `HiddenAct::GeluApproximate` and changes nothing else.
#[verifier::external_body]
pub(crate) fn approximate_gelu_config(c: Config) -> (r: Config)
    ensures
        r == gelu_approximate_config(c),
{
    let mut c = c;
    c.hidden_act = HiddenAct::GeluApproximate;
    c
}

/// Relies on the derived `Clone` of `Tokenizer`: the copy behaves exactly
/// as the stored tokenizer does.  (A byte-pair or unigram model's clone
/// starts with an empty memoization cache, but a cached result always equals
/// a recomputed one, and nothing observes the cache itself.)
#[verifier::external_body]
pub(crate) fn clone_tokenizer(t: &Tokenizer) -> (r: Tokenizer)
    ensures
        r == *t,
{
    t.clone()
}

/// Relies on `TokenizerImpl::with_padding`, which stores the given padding
/// parameters and cannot fail.
#[verifier::external_body]
pub(crate) fn enable_default_padding(t: &mut Tokenizer) {
    t.with_padding(Some(PaddingParams::default()));
}

/// Relies on `TokenizerImpl::with_truncation`: with `None` it only clears
/// the stored truncation parameters and returns `Ok` unconditionally.
#[verifier::external_body]
pub(crate) fn disable_truncation(t: &mut Tokenizer) -> (r: Result<(), String>)
    ensures
        r is Ok,
{
    t.with_truncation(None).map(|_| ()).map_err(|e| e.to_string())
}

/// Relies on `TokenizerImpl::encode` with special tokens added: the ids are
/// read off the returned `Encoding`.  Nothing more is promised: a tokenizer
/// may draw randomness while encoding (a byte-pair model configured with
/// dropout does, on every merge), so neither the outcome nor the ids are a
/// function of the tokenizer and the text.  Whoever calls this must hold
/// only what is true of every outcome, and compute on the ids it was
/// actually handed.
#[verifier::external_body]
pub(crate) fn encode_ids(t: &Tokenizer, text: &str) -> Result<Vec<u32>, String> {
    t.encode(text, true).map(|e| e.get_ids().to_vec()).map_err(|e| e.to_string())
}

/// Relies on `Tensor::new` on the model's own device: it builds a rank-1
/// tensor from the id slice, a function of the ids and that device, with one
/// element per id.
#[verifier::external_body]
pub(crate) fn new_token_tensor(ids: &Vec<u32>, m: &BertModel) -> (r: Result<Tensor, String>)
    ensures
        r is Ok <==> ids_tensor(ids@, *m) is Some,
        r is Ok ==> r->Ok_0 == ids_tensor(ids@, *m)->Some_0,
        r is Ok ==> elems(r->Ok_0) as nat == ids@.len(),
{
    Tensor::new(ids.as_slice(), &m.device).map_err(|e| e.to_string())
}

/// Relies on `Tensor::unsqueeze` at dimension zero, which only inserts a
/// leading dimension of size one — keeping the element count — and cannot
/// fail there.
#[verifier::external_body]
pub(crate) fn unsqueeze_front(t: &Tensor) -> (r: Result<Tensor, String>)
    ensures
        r is Ok,
        r is Ok ==> r->Ok_0 == unsqueezed(*t),
        r is Ok ==> elems(r->Ok_0) == elems(*t),
{
    t.unsqueeze(0).map_err(|e| e.to_string())
}

/// Relies on `Tensor::zeros_like`: a zero tensor of the same shape, type
/// and device, a function of the given tensor alone.
#[verifier::external_body]
pub(crate) fn zeros_like_tensor(t: &Tensor) -> (r: Result<Tensor, String>)
    ensures
        r is Ok <==> zeros_of(*t) is Some,
        r is Ok ==> r->Ok_0 == zeros_of(*t)->Some_0,
{
    t.zeros_like().map_err(|e| e.to_string())
}

/// Relies on `BertModel::forward` without an attention mask: the
/// hidden-state output is a function of the model and the two input tensors
/// (the model's dropout layers are the identity).  The embedding lookup maps
/// a (batch, sequence) input to (batch, sequence, hidden) states, and every
/// encoder layer keeps that shape, so the output holds the input's element
/// count times the model's hidden dimension.
#[verifier::external_body]
pub(crate) fn bert_forward(m: &BertModel, input_ids: &Tensor, type_ids: &Tensor) -> (r: Result<
    Tensor,
    String,
>)
    ensures
        r is Ok <==> forward_output(*m, *input_ids, *type_ids) is Some,
        r is Ok ==> r->Ok_0 == forward_output(*m, *input_ids, *type_ids)->Some_0,
        r is Ok ==> elems(r->Ok_0) as int == elems(*input_ids) as int * hidden_size(*m) as int,
{
    m.forward(input_ids, type_ids, None).map_err(|e| e.to_string())
}

/// Relies on `Tensor::elem_count`, the product of the shape's dimensions.
#[verifier::external_body]
pub(crate) fn tensor_elem_count(t: &Tensor) -> (r: usize)
    ensures
        r == elems(*t),
{
    t.elem_count()
}

/// Relies on `Tensor::reshape` to a single dimension of length `n`: it
/// fails whenever `n` differs from the element count, and otherwise
/// returns a tensor holding the same elements in a flat shape of length
/// `n`.
#[verifier::external_body]
pub(crate) fn flatten_tensor(t: &Tensor, n: usize) -> (r: Result<Tensor, String>)
    ensures
        r is Ok <==> flattened(*t, n) is Some,
        r is Ok ==> r->Ok_0 == flattened(*t, n)->Some_0,
        r is Ok ==> elems(r->Ok_0) == n,
        n != elems(*t) ==> r is Err,
{
    t.reshape(&[n]).map_err(|e| e.to_string())
}

} // verus!
