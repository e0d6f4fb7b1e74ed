//! A strongly typed BitTorrent peer ID.
//!
//! A peer ID is twenty opaque bytes that a client announces in handshakes and
//! to trackers. [`PeerId`] keeps those bytes apart from arbitrary buffers and
//! offers a rendering, [`PeerId::to_safe`], that can be shown in any text
//! environment without escaping: every character outside of `a-z`, `A-Z`,
//! `0-9`, `-` and `.` is replaced by `?`.
//!
//! Every function here carries a contract that Verus proves. The few
//! statements about the standard library that the proofs rest on are collected
//! in [`text`].

pub mod decimal;
pub mod errors;
pub mod peer_id;
pub mod render;
pub mod text;

pub use crate::errors::BadPeerIdLengthError;
pub use crate::peer_id::PeerId;
