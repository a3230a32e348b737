//! A bridge between a live audio device and a remote speech service.
//!
//! The library holds the decisions of the bridge: the sample codec, the
//! format negotiation carried in content-type parameters, the adapter that
//! turns captured buffers into a byte stream, the write loop that honours
//! the playback device's backpressure, and the session life cycles. Device
//! and network I/O are left to the caller, who feeds the library plain values.

pub mod capture;
pub mod codec;
pub mod decimal;
pub mod error;
pub mod format;
pub mod nuance;
pub mod playback;
pub mod session;
pub mod text;
pub mod types;
pub mod upload;
