use candle_core::Device;
use candle_nn::VarBuilder;
use candle_transformers::models::bert::{BertModel, HiddenAct, DTYPE};
use tokenizers::Tokenizer;

use embedder::{
    embed_token_ids, free_embeddings, generate_embeddings, prepare_config, tokenize, LoadedModel,
    ModelRegistry,
};

/// A word-level tokenizer whose vocabulary covers the test sentence; no
/// special tokens, so the id count equals the word count.
const TOKENIZER_JSON: &str = r#"{
  "version": "1.0",
  "truncation": null,
  "padding": null,
  "added_tokens": [],
  "normalizer": null,
  "pre_tokenizer": { "type": "Whitespace" },
  "post_processor": null,
  "decoder": null,
  "model": {
    "type": "WordLevel",
    "vocab": {
      "Test": 0,
      "sentence": 1,
      "for": 2,
      "embeddings": 3,
      ".": 4,
      "[UNK]": 5
    },
    "unk_token": "[UNK]"
  }
}"#;

/// A tokenizer that maps one word of the test sentence to an id far beyond
/// the encoder's vocabulary size, so the forward pass fails.
const OVERFLOWING_TOKENIZER_JSON: &str = r#"{
  "version": "1.0",
  "truncation": null,
  "padding": null,
  "added_tokens": [],
  "normalizer": null,
  "pre_tokenizer": { "type": "Whitespace" },
  "post_processor": null,
  "decoder": null,
  "model": {
    "type": "WordLevel",
    "vocab": {
      "Test": 0,
      "sentence": 1,
      "for": 2,
      "embeddings": 3,
      ".": 99,
      "[UNK]": 5
    },
    "unk_token": "[UNK]"
  }
}"#;

/// A tokenizer whose unknown-token name is missing from its vocabulary, so
/// encoding any out-of-vocabulary word fails.
const BROKEN_TOKENIZER_JSON: &str = r#"{
  "version": "1.0",
  "truncation": null,
  "padding": null,
  "added_tokens": [],
  "normalizer": null,
  "pre_tokenizer": { "type": "Whitespace" },
  "post_processor": null,
  "decoder": null,
  "model": {
    "type": "WordLevel",
    "vocab": { "Test": 0 },
    "unk_token": "[UNK]"
  }
}"#;

const CONFIG_384: &str = r#"{
  "vocab_size": 8,
  "hidden_size": 384,
  "num_hidden_layers": 1,
  "num_attention_heads": 12,
  "intermediate_size": 64,
  "hidden_act": "gelu",
  "hidden_dropout_prob": 0.0,
  "max_position_embeddings": 512,
  "type_vocab_size": 2,
  "initializer_range": 0.02,
  "layer_norm_eps": 1e-12,
  "pad_token_id": 0
}"#;

const CONFIG_128: &str = r#"{
  "vocab_size": 8,
  "hidden_size": 128,
  "num_hidden_layers": 1,
  "num_attention_heads": 4,
  "intermediate_size": 32,
  "hidden_act": "gelu",
  "hidden_dropout_prob": 0.0,
  "max_position_embeddings": 512,
  "type_vocab_size": 2,
  "initializer_range": 0.02,
  "layer_norm_eps": 1e-12,
  "pad_token_id": 0
}"#;

const SENTENCE: &str = "Test sentence for embeddings.";

fn load_encoder(config_json: &str, approximate_gelu: bool) -> BertModel {
    let config = prepare_config(config_json, approximate_gelu).unwrap();
    let vb = VarBuilder::zeros(DTYPE, &Device::Cpu);
    BertModel::load(vb, &config).unwrap()
}

fn initialized_registry(config_json: &str, tokenizer_json: &str) -> ModelRegistry {
    let mut registry = ModelRegistry::new();
    let tokenizer = Tokenizer::from_bytes(tokenizer_json.as_bytes()).unwrap();
    registry.install(load_encoder(config_json, false), tokenizer);
    registry
}

#[test]
fn test_generate_before_init_reports_not_initialized() {
    let registry = ModelRegistry::new();
    let result = generate_embeddings(&registry, SENTENCE);
    assert!(result.embeddings.is_none());
    assert_eq!(result.len, 0);
    assert_eq!(result.error.as_deref(), Some("Model not initialized"));
    free_embeddings(result);
}

#[test]
fn test_successful_generation_has_buffer_and_no_error() {
    let registry = initialized_registry(CONFIG_384, TOKENIZER_JSON);
    let result = generate_embeddings(&registry, SENTENCE);
    assert!(result.error.is_none(), "unexpected error: {:?}", result.error);
    assert!(result.embeddings.is_some());
    assert!(result.len > 0);
    assert_eq!(
        result.embeddings.as_ref().unwrap().elem_count(),
        result.len
    );
    free_embeddings(result);
}

#[test]
fn test_generation_len_is_hidden_size_times_token_count() {
    let registry = initialized_registry(CONFIG_384, TOKENIZER_JSON);
    let ids = tokenize(&registry, SENTENCE).unwrap();
    assert_eq!(ids.len(), 5);
    let result = generate_embeddings(&registry, SENTENCE);
    assert!(result.error.is_none());
    assert_eq!(result.len, 384 * ids.len());
    free_embeddings(result);
}

#[test]
fn test_failed_generation_has_error_and_no_buffer() {
    let registry = initialized_registry(CONFIG_384, BROKEN_TOKENIZER_JSON);
    let result = generate_embeddings(&registry, SENTENCE);
    assert!(result.embeddings.is_none());
    assert_eq!(result.len, 0);
    let message = result.error.clone().unwrap();
    assert!(!message.is_empty());
    assert!(message.starts_with("tokenization failed: "));
    free_embeddings(result);
}

fn loaded_model(config_json: &str) -> LoadedModel {
    LoadedModel {
        encoder: load_encoder(config_json, false),
        tokenizer: Tokenizer::from_bytes(TOKENIZER_JSON.as_bytes()).unwrap(),
    }
}

#[test]
fn test_embed_token_ids_len_is_hidden_size_times_id_count() {
    let model = loaded_model(CONFIG_384);
    let result = embed_token_ids(&model, &vec![0, 1, 2, 3, 4]);
    assert!(result.error.is_none());
    assert_eq!(result.len, 384 * 5);
    free_embeddings(result);
}

#[test]
fn test_embed_token_ids_same_ids_same_len() {
    let model = loaded_model(CONFIG_384);
    let first = embed_token_ids(&model, &vec![0, 1, 2]);
    assert!(first.embeddings.is_some());
    let first_len = first.len;
    free_embeddings(first);
    let second = embed_token_ids(&model, &vec![0, 1, 2]);
    assert!(second.embeddings.is_some());
    assert_eq!(second.len, first_len);
    free_embeddings(second);
}

#[test]
fn test_embed_token_ids_out_of_vocabulary_id_fails_forward() {
    let model = loaded_model(CONFIG_384);
    let result = embed_token_ids(&model, &vec![99]);
    assert!(result.embeddings.is_none());
    assert_eq!(result.len, 0);
    assert!(result
        .error
        .clone()
        .unwrap()
        .starts_with("model forward pass failed: "));
    free_embeddings(result);
}

#[test]
fn test_forward_failure_is_reported_at_its_site() {
    let registry = initialized_registry(CONFIG_384, OVERFLOWING_TOKENIZER_JSON);
    let result = generate_embeddings(&registry, SENTENCE);
    assert!(result.embeddings.is_none());
    assert_eq!(result.len, 0);
    let message = result.error.clone().unwrap();
    assert!(message.starts_with("model forward pass failed: "));
    free_embeddings(result);
}

#[test]
fn test_empty_text_yields_well_formed_failure() {
    let registry = initialized_registry(CONFIG_384, TOKENIZER_JSON);
    let result = generate_embeddings(&registry, "");
    assert!(result.embeddings.is_none());
    assert_eq!(result.len, 0);
    assert!(!result.error.clone().unwrap().is_empty());
    free_embeddings(result);
}

#[test]
fn test_single_release_of_success_and_failure() {
    let registry = initialized_registry(CONFIG_384, TOKENIZER_JSON);
    let success = generate_embeddings(&registry, SENTENCE);
    assert!(success.embeddings.is_some());
    free_embeddings(success);

    let empty = ModelRegistry::new();
    let failure = generate_embeddings(&empty, SENTENCE);
    assert!(failure.error.is_some());
    free_embeddings(failure);
}

#[test]
fn test_reinstall_replaces_model() {
    let mut registry = ModelRegistry::new();
    assert!(!registry.is_initialized());
    let tokenizer = Tokenizer::from_bytes(TOKENIZER_JSON.as_bytes()).unwrap();
    registry.install(load_encoder(CONFIG_384, false), tokenizer);
    assert!(registry.is_initialized());
    let first = generate_embeddings(&registry, SENTENCE);
    assert_eq!(first.len, 384 * 5);
    free_embeddings(first);

    let tokenizer = Tokenizer::from_bytes(TOKENIZER_JSON.as_bytes()).unwrap();
    registry.install(load_encoder(CONFIG_128, false), tokenizer);
    let second = generate_embeddings(&registry, SENTENCE);
    assert_eq!(second.len, 128 * 5);
    free_embeddings(second);
}

#[test]
fn test_generate_release_generate_is_consistent() {
    let registry = initialized_registry(CONFIG_384, TOKENIZER_JSON);
    let first = generate_embeddings(&registry, SENTENCE);
    assert!(first.embeddings.is_some());
    let first_len = first.len;
    free_embeddings(first);

    let second = generate_embeddings(&registry, SENTENCE);
    assert!(second.embeddings.is_some());
    assert_eq!(second.len, first_len);
    free_embeddings(second);
}

#[test]
fn test_tokenize_without_model_fails() {
    let registry = ModelRegistry::new();
    let r = tokenize(&registry, SENTENCE);
    assert!(r.is_err());
    assert!(!r.unwrap_err().is_empty());
}

#[test]
fn test_prepare_config_rejects_malformed_text() {
    let r = prepare_config("not a configuration", false);
    let message = r.err().unwrap();
    assert!(message.starts_with("model configuration failed to parse: "));
}

#[test]
fn test_prepare_config_accepts_gelu_override() {
    let overridden = prepare_config(CONFIG_384, true).unwrap();
    assert_eq!(overridden.hidden_act, HiddenAct::GeluApproximate);
    let plain = prepare_config(CONFIG_384, false).unwrap();
    assert_eq!(plain.hidden_act, HiddenAct::Gelu);
}

#[test]
fn test_approximate_gelu_model_still_generates() {
    let mut registry = ModelRegistry::new();
    let tokenizer = Tokenizer::from_bytes(TOKENIZER_JSON.as_bytes()).unwrap();
    registry.install(load_encoder(CONFIG_384, true), tokenizer);
    let result = generate_embeddings(&registry, SENTENCE);
    assert!(result.error.is_none());
    assert_eq!(result.len, 384 * 5);
    free_embeddings(result);
}
