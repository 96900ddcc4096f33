//! Retrieval, filtering and export of a user's board game collection.

pub mod record;
pub mod filter;
pub mod fetch;
pub mod state;
pub mod export;
pub mod session;
pub mod text;
pub mod provider;
