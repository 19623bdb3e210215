//! The core of a chat service that answers from a knowledge graph and lets a
//! model call tools: how context is retrieved, tools are bound and run, the
//! prompt is assembled, a completion and a whole turn proceed step by step,
//! and the model's transcript is cleaned. Each function is verified against
//! its contract; the few calls into other crates stand behind small
//! functions whose contracts are stated and not proved.

pub mod agent_repo;
pub mod auth;
pub mod casing;
pub mod chat;
pub mod documents;
pub mod driver;
pub mod dtos;
pub mod encoding;
pub mod errors;
pub mod export;
pub mod ingest;
pub mod models;
pub mod normalizer;
pub mod prompt;
pub mod provider;
pub mod registry;
pub mod retriever;
pub mod search;
pub mod sequence;
pub mod text;
pub mod tools;
pub mod transmutation;
pub mod turn;
