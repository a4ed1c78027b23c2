//! Presence synchronization for desktop media-player sessions.
//!
//! The library holds the verified core of a daemon that mirrors the state of
//! the active media-player session on the desktop message bus to an outbound
//! rich-presence endpoint: metadata extraction, active-player discovery,
//! presence-payload construction, and the synchronization state machine that
//! decides when to re-synchronize, publish and reconnect.  All bus and IPC
//! traffic stays outside the library; it is handed plain values and returns
//! plain values.

pub mod discovery;
pub mod presence;
pub mod status;
pub mod sync;
pub mod track;
