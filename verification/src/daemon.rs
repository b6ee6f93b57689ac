//! What the daemon decides: on notifications that come in, on requests from the command line
//! and the pop-ups, and when it starts.

pub mod control;
pub mod environment;
pub mod notifications;
pub mod startup;
