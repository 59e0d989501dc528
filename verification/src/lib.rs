//! Orchestration core of a desktop tool that files copyright appeals through
//! a browser: which session to reuse or launch, which workflow to generate,
//! how to wait for the human, how to fall back, and what to report.
//!
//! The library decides and does not act. Whatever touches the disk, the
//! network or another process is described as an action for the caller, who
//! carries it out and answers with an event; every decision has a contract
//! over the plain values that go in and come out.
//!
//! - `orchestrator`: start, stop, status, and the run as a state machine
//! - `session`: the browser session manager
//! - `workflow`, `script`: the workflow of an appeal, and its script and guide
//! - `executor`: the outcome of a strategy, and the fallback ladder
//! - `gate`: the verification latch
//! - `files`, `locator`: file references, and where programs are found
//! - `models`, `rows`, `status`, `settings`, `errors`: records and their rules
//! - `commands`, `database`, `report`: what the command layer decides
//! - `text`, `json`: operations on text, and the JSON form of a text
//! - `bridge`: calls into other crates

pub mod bridge;
pub mod commands;
pub mod database;
pub mod errors;
pub mod executor;
pub mod files;
pub mod gate;
pub mod json;
pub mod locator;
pub mod models;
pub mod orchestrator;
pub mod report;
pub mod rows;
pub mod script;
pub mod session;
pub mod settings;
pub mod status;
pub mod text;
pub mod workflow;
