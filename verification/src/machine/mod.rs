//! The abstract machine: terms, values, continuations, costs and the driver.

pub mod shared;
pub mod term;
pub mod value;
pub mod cost_model;
pub mod context;
pub mod builtins;
pub mod discharge;
pub mod semantics;
pub mod driver;
pub mod pretty;
pub mod debug;
pub mod laws;
