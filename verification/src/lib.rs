//! Codec for the BRT draw-wire displacement sensor CAN protocol (manual
//! version 2.7).
//!
//! The library only converts protocol values to and from CAN frames;
//! sending, receiving, timing, retries, calibration, physical units and
//! device control are left to the caller. Encoded frames use a fixed
//! eight-byte buffer, and decoder input borrows the received data.

pub mod compat;
pub mod frame;
pub mod laws;
pub mod protocol;
pub mod wire;

pub use frame::{EncodedFrame, FrameId, FramePayload, FrameRef};
/// The protocol under the name of the manual version it follows.
pub use protocol as v2_7;
