//! Verified core of a serial-port chat terminal: the domain model, command
//! history, configuration profiles, log routing, batch planning and the
//! state of the chat user interface.

pub mod error;
pub mod model;
pub mod selector;
pub mod serial;
pub mod text;
pub mod view;
pub mod app;
pub mod batch;
pub mod cli;
pub mod config;
pub mod connections;
pub mod history;
pub mod input;
pub mod layout;
pub mod logging;
