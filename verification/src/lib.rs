//! Action dispatcher of the Scrap plugin.
//!
//! A host hands the plugin a named action together with a structured payload
//! and a structured context. The dispatcher answers with a record that says
//! whether the action was accepted and which effects the host is to carry out,
//! in order. Nothing here performs an effect: effects are plain data.
//!
//! Structured values are modelled by [`json::Value`], whose view
//! [`json::SpecValue`] is the mathematical value that the contracts speak of.

pub mod json;
pub mod effect;
pub mod dispatch;
pub mod laws;

pub use crate::dispatch::{exec, ExecInput, ExecOutput};
pub use crate::json::{Number, SpecValue, Value};
