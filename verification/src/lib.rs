//! Coordination logic of a draft-and-match game server: the messages that
//! travel between the browser front end, the Python simulator and the main
//! thread, the registry of their channels, and the decisions each of those
//! parties takes on what it receives.

pub mod data;
pub mod events;
pub mod python;
pub mod browser;
pub mod shared;
