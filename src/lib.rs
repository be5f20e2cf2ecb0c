//! Connection and audio-transport manager for a point-to-point BLE link to a
//! remote radio peer: the connection lifecycle state machine, peer discovery,
//! the send gateway's error mapping, and the audio framer.

pub mod framer;
pub mod error;
pub mod conn;
pub mod discovery;
pub mod gateway;
pub mod passwords;
