//! Core of an interactive command-line project bootstrapper.
//!
//! The crate verifies the two stateful parts of the tool: the modal
//! terminal-interaction engine (list selection, yes/no confirmation, free-text
//! input, a settings editor and a message display, each a small state machine
//! over a closed key vocabulary) and the project registry the tool persists
//! results into. Terminal handling, process spawning and file-system glue
//! live outside the library and drive these state machines.

pub mod app;
pub mod confirm;
pub mod editor;
pub mod gallery;
pub mod keys;
pub mod languages;
pub mod message;
pub mod project;
pub mod registry;
pub mod scaffold;
pub mod selector;
pub mod strutil;
pub mod text_input;
