//! A host for short-lived script executions that may read from one data
//! directory and from nowhere else.
//!
//! The library decides and never touches the outside world itself:
//!
//! - `path` and `confine` turn a path that a script asks for into an access
//!   decision against the root directory, by the path's components alone;
//! - `bucket` is the read and list surface that scripts see, built on those
//!   decisions, with `listing` for the order of directory listings;
//! - `outcome` maps everything that a script run can end in to one of three
//!   outcomes, and `engine` probes the values that the script engine hands
//!   back;
//! - `host` is the life of one execution as a state machine, whose steps tell
//!   the caller what outside work to do next;
//! - `transport`, `report` and `cli` say what a remote caller is sent, what
//!   the command line shows, and what follows from the command line's
//!   options.
//!
//! # What is taken on trust
//!
//! Verified code calls code that the verifier cannot read in three places,
//! each behind a small private function whose contract is believed, not
//! proved:
//!
//! - `text` appends a character to a string by `String::push`, and states
//!   that the string grows by that character;
//! - `engine` asks the script engine what a returned value is, by
//!   `rune::from_value`, `rune::to_value`, `serde_json::to_string` and the
//!   value's debug rendering, and states nothing of the answers: what is
//!   done with them is verified for every answer;
//! - `report` reads and lays out JSON, by `serde_json::from_str`,
//!   `serde_json::Value::as_str` and `serde_json::to_string_pretty`. It
//!   gives a name to whether a text is a JSON document, states that a value
//!   is read exactly then and that the layout of a value always comes
//!   back, and states nothing else of the results.

pub mod bucket;
pub mod cli;
pub mod confine;
pub mod engine;
pub mod host;
pub mod listing;
pub mod outcome;
pub mod path;
pub mod path_proofs;
pub mod report;
pub mod text;
pub mod transport;
