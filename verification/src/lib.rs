//! A voice transport: the gateway session, UDP discovery, media packets, DAVE media
//! encryption and paced sending of encoded Opus, as verified state machines.
//!
//! The library decides; it performs no I/O. Whoever drives it reads sockets and clocks,
//! hands in what came, and does what the results say.
pub mod address;
pub mod aead;
pub mod audio;
pub mod config;
pub mod connection;
pub mod dave;
pub mod discovery;
pub mod error;
pub mod frame_channel;
pub mod fuzzing;
pub mod gateway;
pub mod json;
pub mod mls;
pub mod model;
pub mod owner;
pub mod pacer;
pub mod ring;
pub mod roster;
pub mod rtp;
pub mod send_trace;
pub mod testkit;
pub mod text;
pub mod transport;
pub mod wire;

pub use crate::audio::source::{FrameSource, FrameStatus};
pub use crate::config::{Oto, OtoBuilder, ResourceLimits};
pub use crate::error::{DaveContext, DaveFailure, Error, ErrorKind, Operation, RetryDisposition};
pub use crate::frame_channel::{frame_channel, FrameSendError};
pub use crate::model::{
    AudioPhase, AudioSnapshot, AudioStats, CloseReason, ConnectionEvent, ConnectionGeneration,
    ConnectionPhase, ConnectionSnapshot, ConnectionStats, EventReceiveError, FailureSnapshot,
    SourceGeneration, VoiceConnectInfo, VoiceToken,
};
pub use crate::send_trace::{SendRecord, SendTrace};
