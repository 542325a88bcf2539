//! Typed statement construction and execution state machines for a
//! partition/clustering-keyed wide-column store.

pub mod statement;
pub mod errors;
pub mod request;
pub mod stream;
pub mod engine;
pub mod callbacks;
pub mod model;
