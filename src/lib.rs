//! Persistence core of a small invoicing tool: change descriptors compiled to
//! parameterised statements, row decoding and aggregate hydration, schema
//! migration planning, and derived invoice values.

pub mod calc;
pub mod crud;
pub mod descriptors;
pub mod hydrate;
pub mod json;
pub mod migrate;
pub mod models;
pub mod money;
pub mod prepare;
pub mod render;
pub mod roundtrip;
pub mod show;
pub mod text;
pub mod value;
