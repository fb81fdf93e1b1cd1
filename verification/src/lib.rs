//! Parsing of raw network-device CLI output into structured records.
//!
//! The core is a template interpreter: template definitions in a
//! line-oriented DSL are compiled into a state machine whose rules are
//! anchored regular expressions with named value captures; the machine is
//! driven line by line over the raw output and emits records. Around the
//! core sit a registry mapping `(platform, command key)` to template text
//! (with platform aliases and command normalization) and a facade that
//! shapes results into JSON envelopes.

pub mod commands;
pub mod engine;
pub mod json;
pub mod laws;
pub mod matcher;
pub mod normalize;
pub mod parse;
pub mod pattern;
pub mod platform;
pub mod records;
pub mod registry;
pub mod resources;
pub mod template;
pub mod textfsm;
pub mod text;

pub use commands::CommandKey;
pub use parse::ParseError;
pub use parse::parse_command_json;
pub use parse::parse_command_records;
pub use parse::parse_json;
pub use parse::parse_records;
pub use platform::Platform;
pub use records::Field;
pub use records::FieldVal;
pub use records::Record;
