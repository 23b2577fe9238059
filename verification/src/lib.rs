//! A cost-metered CEK machine for an untyped lambda calculus, with a
//! step recorder and the diagnostics that read its snapshots.
//!
//! [`machine`] holds the machine itself: terms, values, continuations, the
//! cost model, the transitions and the runs they determine, and what holds
//! of every run. [`parser`] and [`program`] read and write programs;
//! [`loader`] and [`executor`] prepare and run them; [`frames`],
//! [`diagnostics`], [`analyzer`] and [`reporter`] explain a run from its
//! snapshots; [`navigator`] steps through them. [`text`] and [`codec`] hold
//! what the library takes on trust from the standard library and from the
//! crates that decode hexadecimal text and CBOR.

pub mod machine;
pub mod text;
pub mod frames;
pub mod diagnostics;
pub mod codec;
pub mod program;
pub mod error_interpreter;
pub mod loader;
pub mod executor;
pub mod analyzer;
pub mod reporter;
pub mod parser;
pub mod navigator;
