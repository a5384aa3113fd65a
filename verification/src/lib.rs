//! Backend library for a desktop editor that shells out to an external
//! AI command-line tool.  The heart of the crate is the streaming bridge:
//! classifying the tool's mixed plain-text/JSON output, accumulating the
//! assistant's answer, and driving one session as a verified state machine.
//! Around it stand the document bookkeeping helpers (metadata, backup and
//! version paths) and dependency checking.
pub mod checks;
pub mod config;
pub mod errors;
pub mod interactive;
pub mod linebuf;
pub mod models;
pub mod paths;
pub mod resolve;
pub mod router;
pub mod session;
pub mod text;
