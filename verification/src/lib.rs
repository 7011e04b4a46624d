//! Batch orchestration for a model-inference gateway.
//!
//! A batch is N independent inference requests for one function. This crate
//! holds the rules that turn such a request into per-item work and per-item
//! records, and proves them with Verus:
//!
//! - [`params`] and [`tool`] expand optional per-field override arrays into
//!   one record per item, or refuse arrays of the wrong length;
//! - [`episode`] resolves and validates the episode identifier of each item;
//! - [`request`] plans a batch, making every check that can refuse it;
//! - [`variant`] selects the variant that serves the batch, with fallback;
//! - [`record`] builds the rows that are persisted for a batch.

pub mod broadcast;
pub mod episode;
pub mod error;
pub mod identifier;
pub mod json;
pub mod params;
pub mod record;
pub mod request;
pub mod text;
pub mod tool;
pub mod variant;
