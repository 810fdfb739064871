//! The single-slot model registry and the compute side of initialization.
//!
//! The registry holds at most one (encoder, tokenizer) pair and replaces it
//! whole on re-initialization.  Callers that share a registry across threads
//! wrap it in a lock; every operation here works on one borrowed registry, so
//! a reader observes either the old pair or the new one, never a mixture.

use vstd::prelude::*;

use candle_transformers::models::bert::BertModel;
use candle_transformers::models::bert::Config;
use tokenizers::Tokenizer;

use crate::adapters::approximate_gelu_config;
use crate::adapters::gelu_approximate_config;
use crate::adapters::parse_config;
use crate::adapters::parsed_config;
use crate::boundary::describe;
use crate::boundary::has_prefix;

verus! {

/// The configuration the service runs with: the parsed text, with the
/// activation overridden when the approximate-GELU flag is set.
pub open spec fn effective_config(text: Seq<char>, approximate_gelu: bool) -> Config
    recommends
        parsed_config(text) is Some,
{
    if approximate_gelu {
        gelu_approximate_config(parsed_config(text)->Some_0)
    } else {
        parsed_config(text)->Some_0
    }
}

/// One loaded model: the transformer encoder and the tokenizer it was
/// initialized with.
pub struct LoadedModel {
    pub encoder: BertModel,
    pub tokenizer: Tokenizer,
}

/// The single slot that holds the currently loaded model, if any.
pub struct ModelRegistry {
    slot: Option<LoadedModel>,
}

impl ModelRegistry {
    /// The currently stored pair, if any.
    pub closed spec fn model(&self) -> Option<LoadedModel> {
        self.slot
    }

    /// An empty registry: no model has been initialized yet.
    pub fn new() -> (r: ModelRegistry)
        ensures
            r.model() is None,
    {
        ModelRegistry { slot: None }
    }

    /// Stores a freshly loaded pair, replacing whatever was stored before:
    /// afterwards the registry holds exactly the given pair.
    pub fn install(&mut self, encoder: BertModel, tokenizer: Tokenizer)
        ensures
            final(self).model() == Some((LoadedModel { encoder, tokenizer })),
    {
        self.slot = Some(LoadedModel { encoder, tokenizer });
    }

    pub fn is_initialized(&self) -> (r: bool)
        ensures
            r == (self.model() is Some),
    {
        self.slot.is_some()
    }

    /// Borrows the stored pair for one request.
    pub fn current(&self) -> (r: Option<&LoadedModel>)
        ensures
            r is Some <==> self.model() is Some,
            r is Some ==> *r->Some_0 == self.model()->Some_0,
    {
        self.slot.as_ref()
    }
}

/// Parses the configuration text and, when asked, overrides the configured
/// activation with the approximate GELU variant before the encoder is built.
/// Succeeds exactly when the text parses; a failure carries a non-empty
/// description instead of aborting.
pub fn prepare_config(text: &str, approximate_gelu: bool) -> (r: Result<Config, String>)
    ensures
        r is Ok <==> parsed_config(text@) is Some,
        r is Ok ==> r->Ok_0 == effective_config(text@, approximate_gelu),
        r is Err ==> r->Err_0@.len() > 0,
        r is Err ==> has_prefix(r->Err_0@, "model configuration failed to parse: "@),
{
    match parse_config(text) {
        Ok(c) => if approximate_gelu {
            Ok(approximate_gelu_config(c))
        } else {
            Ok(c)
        },
        Err(e) => {
            proof {
                reveal_strlit("model configuration failed to parse: ");
            }
            Err(describe("model configuration failed to parse: ", e.as_str()))
        },
    }
}

} // verus!
