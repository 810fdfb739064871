//! A text-embedding library: a single-slot registry holds a tokenizer and a
//! transformer encoder, and a pipeline turns text into a flat embedding
//! buffer, reporting every failure through a dual-channel result that holds
//! exactly one of a buffer or an error.

pub mod adapters;
pub mod boundary;
pub mod pipeline;
pub mod registry;

pub use boundary::free_embeddings;
pub use pipeline::embed_token_ids;
pub use pipeline::generate_embeddings;
pub use pipeline::tokenize;
pub use boundary::EmbeddingResult;
pub use registry::prepare_config;
pub use registry::LoadedModel;
pub use registry::ModelRegistry;
