//! The model side: the catalog of models, and the way to the backend that
//! runs them.

pub mod bridge;
pub mod classify;
pub mod models;
pub mod schema;
pub mod types;

pub use bridge::AiBridge;
pub use models::ModelRegistry;
pub use types::AiResponse;
