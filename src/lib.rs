//! Notification configuration, its flat string protocol, and the typed
//! response decoded from an activation event.

pub mod delivery;
pub mod laws;
pub mod options;
pub mod protocol;
pub mod response;
pub mod text;
