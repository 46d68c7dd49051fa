//! Core of a small video-sync server: the websocket message types, the
//! per-connection session rules, the timed media queue, and the naming and
//! reply rules of uploaded assets.

pub mod broadcast;
pub mod queue;
pub mod upload;
pub mod uploads;
pub mod ws;
