//! The core of a minimal interactive shell: splitting a command line into
//! piped command groups, classifying it as a built-in or an external
//! pipeline, deciding what the built-ins do, wiring the stages of a
//! pipeline together, and merging the output of its last stage.
//!
//! Everything here is a function of its arguments. Spawning processes,
//! changing the working directory and reading the terminal are left to the
//! caller, which performs the actions these functions decide on.

pub mod command;
pub mod tokenize;
pub mod builtin;
pub mod pipeline;
pub mod output;
