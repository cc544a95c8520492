//! Active-window observation and change-debounced reporting for Linux desktops.
//!
//! - `classify` maps a window class to the application that owns it.
//! - `session` tells the session type and picks the probe for it.
//! - `probe`, `x11` and `kde` are the probes, written as state machines: the
//!   caller performs each request (a command, a pause, the script file) and
//!   hands the outcome back.
//! - `cycle` decides, once per cycle, whether to report; `enrich` adds the
//!   commentary and `payload` the shape of what is sent.
//! - `config` reads the settings, `status` prepares what the overlay shows.
//! - `text` holds the character-level helpers they share.

pub mod classify;
pub mod config;
pub mod cycle;
pub mod enrich;
pub mod kde;
pub mod payload;
pub mod probe;
pub mod session;
pub mod status;
pub mod text;
pub mod x11;
