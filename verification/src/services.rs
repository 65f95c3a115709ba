//! The services around a learning session: the backend's messages, the
//! offline sync queue, interaction tracking and adaptive hints.

pub mod adaptive;
pub mod api;
pub mod storage;
pub mod sync;
pub mod tracking;
pub mod websocket;
