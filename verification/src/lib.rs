//! Expansion of user-authored command templates into prompt text.

pub mod cache;
pub mod command;
pub mod error;
pub mod executor;
pub mod executor_proofs;
pub mod integration;
pub mod loader;
pub mod loader_proofs;
pub mod ordering;
pub mod outside;
pub mod parser;
pub mod paths;
pub mod processor;
pub mod processor_proofs;
pub mod registry;
pub mod security;
pub mod text;
pub mod text_proofs;
