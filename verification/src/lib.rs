//! Core of a language-agnostic micro-benchmark orchestrator: a data
//! generator process streams synthetic input to one algorithm process per
//! requested language, and per-case timing lines come back out as
//! structured JSON records.
//!
//! This library holds the logic of that system, with every function's
//! behaviour stated in its contract and proved:
//!
//! * [`config`]: the three-tier resolution of generator and algorithm
//!   commands from CLI overrides, the persisted build manifest, and the
//!   requested task map — all-or-nothing, before anything spawns.
//! * [`manifest`]: the build manifest file format and its parser.
//! * [`benchmark`]: the `id,functionName,duration` line protocol, the
//!   byte-stable JSON-lines output, and the spawn argument lists.
//! * [`json`]: the JSON text primitives the input formats share.
//! * [`command`]: the runnable unit, an executable path with arguments.
//! * [`maps`]: string-keyed association lists and their map view.
//! * [`error`]: the error types, with their diagnostic texts.
//! * [`text`]: character-level utilities (decimal numbers, split/join).
//!
//! Process spawning, pipe wiring and stream draining are left to the
//! program around the library, which feeds lines in and writes records
//! out.

pub mod benchmark;
pub mod command;
pub mod config;
pub mod error;
pub mod json;
pub mod manifest;
pub mod maps;
pub mod text;

pub use benchmark::BenchmarkResult;
pub use command::CommandArgs;
pub use config::Config;
pub use config::RunArgs;
pub use error::BenchmarkError;
pub use error::ConfigError;
pub use manifest::BuildManifest;
