//! A skills directory: people, the skills they own, the checks applied to
//! submitted skills, and the decisions that sit between the HTTP surface and
//! the document store.
pub mod model;
pub mod store;
pub mod handlers;
pub mod laws;
