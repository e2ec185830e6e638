//! The voice plane: control handshake, packet assembly and encryption,
//! address discovery, and frame pacing.

use vstd::prelude::*;

pub mod control;
pub mod discovery;
pub mod packet;
pub mod pacer;
pub mod pcm;
pub mod player;

verus! {

/// Samples per second of the audio stream.
pub const SAMPLE_RATE: u64 = 48000;

/// Milliseconds of audio per frame.
pub const FRAME_LENGTH_MS: u64 = 20;

/// An audio pipeline failure.
#[derive(Clone, Copy, Debug)]
pub enum EncodeError {
    /// Reading the source failed.
    Io,
    /// The encoder itself failed.
    Codec,
    /// The encoder produced a frame of the wrong size.
    FrameSize,
}

/// A voice plane failure.
#[derive(Clone, Copy, Debug)]
pub enum Error {
    /// The server withdrew the endpoint.
    MissingEndpoint,
    /// A handshake step read an event of the wrong kind.
    UnexpectedEvent,
    /// The advertised encryption modes lack the one supported here.
    UnsupportedEncryption,
    /// The session description named an unexpected encryption mode.
    EncryptionModeMismatch,
}

} // verus!
