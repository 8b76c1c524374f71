//! What the operations are for, stated over what goes in and what comes out.
//!
//! Each law here speaks of inputs and results field by field: what a result must
//! hold, where it comes from, and how two calls relate.

pub mod calls;
pub mod hub;
pub mod marketing;
pub mod models;
pub mod registry;
pub mod requests;
pub mod texts;
pub mod wire;
