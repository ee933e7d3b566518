//! Configuration of the tool.

pub mod settings;
