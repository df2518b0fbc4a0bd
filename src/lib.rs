//! Command construction, console-output decoding and the clone workflow for
//! a Proxmark3 RFID tool driven through its text interface.
//!
//! - `state`: the workflow state machine, the only place state changes.
//! - `command_builder`: validated command strings per protocol and blank.
//! - `output_parser`, `version`, `ansi`: decoding of console output.
//! - `runner`: the decisions of the process layer (validation, fallback
//!   order, exit classification).
//! - `flows`, `blank`, `scan`, `hf`, `autopwn`, `erase`, `firmware`: the
//!   decisions of the device operations, as functions from tool output to
//!   the next command or workflow action.

pub mod text;
pub mod fields;
pub mod pattern;
pub mod types;
pub mod ansi;
pub mod command_builder;
pub mod output_parser;
pub mod version;
pub mod state;
pub mod runner;
pub mod flows;
pub mod blank;
pub mod scan;
pub mod hf;
pub mod autopwn;
pub mod erase;
pub mod firmware;
