//! Lifecycle management for named Python virtual environments.
//!
//! The library decides; a thin program around it performs the effects. Every
//! operation is expressed either as a function from plain values to plain
//! values, or as a small machine that is handed the outcome of the previous
//! effect and answers with the next effect to perform.

pub mod cfg;
pub mod cmd;
pub mod notice;
pub mod platform;
pub mod text;
