//! A verified model of a desktop application's window-command surface.
//!
//! The application's front end issues three named commands against a single
//! window of the GUI host framework: `minimize`, `toggle_maximize` and
//! `close`. The host owns the windows, the event loop and the bridge that
//! carries the commands; this crate models that host as an explicit registry
//! of open windows, so that the commands and their dispatcher are verified
//! against the registry instead of a real OS window. The process that wires
//! the verified command layer to the real host lives outside this crate and
//! only performs the transitions decided here.

pub mod commands;
pub mod host;
