//! Cost schedules, backend selection and the counter initializer patch for
//! gas-metering instrumentation of WebAssembly modules.
//!
//! A module is instrumented in four steps: a cost schedule is built from the
//! configuration ([`rules`]), a metering backend is selected ([`backend`]),
//! the injector rewrites the module with both, and the counter that the
//! counter-global backend exports is armed with a large initial value
//! ([`patch`]). The injector is `wasm_instrument`'s; this crate decides what
//! it is handed and finishes what it hands back.
//!
//! Prices are given for the operations of [`operation`]. The parsed module is
//! `parity_wasm`'s; [`module`] holds what this crate assumes of it.

pub mod backend;
pub mod module;
pub mod operation;
pub mod patch;
pub mod rules;
