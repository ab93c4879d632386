//! A catalog of AI models offered through the Model Context Protocol.
//!
//! The library is the part that decides: which envelope is answered and how,
//! what the catalog looks like as tools and as resources, how the arguments
//! of a tool call are shaped for the model, and what a call is estimated to
//! cost. It holds no state and reaches nothing outside itself; the backend
//! that runs a model is handed in by the caller.

pub mod ai;
pub mod json;
pub mod mcp;
pub mod text;
pub mod views;
