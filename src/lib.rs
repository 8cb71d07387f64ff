//! Session control and line decoding for a single low-power radio peripheral.
//!
//! The library holds the decisions: how notification text is framed into
//! lines, how each line is validated and classified, when a noise report
//! becomes an alert, and how the session reacts to each event. Radio,
//! console and log-file work is done by the caller, which performs the
//! actions the session asks for and hands back what happened.
pub mod text;
pub mod number;
pub mod decoder;
pub mod session;
