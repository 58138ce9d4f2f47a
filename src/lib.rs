//! A monitoring daemon's core: configuration, change tracking for polled
//! targets, the web health poller, the log tailer and the alert dispatcher.
//! Every decision the daemon takes is a verified function of plain values;
//! the loops that talk to the network, the database and the container engine
//! feed those functions and carry out what they return.

pub mod change_tracker;
pub mod configuration;
pub mod dispatcher;
pub mod framing;
pub mod log_tailer;
pub mod text;
pub mod toml_doc;
pub mod web_poller;
