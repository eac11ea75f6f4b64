//! What a screen publisher is asked for, and what it hands out.
use vstd::prelude::*;

verus! {

/// A codec that a host encodes with.
#[derive(Debug, Clone, Copy, PartialEq, Eq, Structural)]
pub enum Codec {
    H264,
    H265,
}

/// Which codecs an operator allows.
#[derive(Debug, Clone, Copy, PartialEq, Eq, Structural)]
pub enum CodecSelection {
    Auto,
    H264,
    H265,
}

/// How the screen is captured and encoded.
#[derive(Debug, Clone, Copy, PartialEq, Eq, Structural)]
pub enum PublisherBackend {
    Auto,
    DxgiNvenc,
}

/// What a publisher is opened with.
#[derive(Debug, Clone, Copy, PartialEq, Eq, Structural)]
pub struct PublisherConfig {
    pub codec: Codec,
    pub width: i32,
    pub height: i32,
    pub fps: u32,
    pub bitrate: i64,
    /// Whether the session follows the picture from `bitrate` on instead of
    /// holding it.
    pub auto_bitrate: bool,
    pub max_queued_units: usize,
    pub max_queued_bytes: usize,
    pub backend: PublisherBackend,
    pub output_index: usize,
}

/// Which codecs hardware encodes.
#[derive(Debug, Clone, Copy, PartialEq, Eq, Structural)]
pub struct Encoders {
    pub h264: bool,
    pub h265: bool,
}

/// One encoded access unit.
#[derive(Debug, Clone, PartialEq, Eq)]
pub struct EncodedUnit {
    pub data: Vec<u8>,
    pub key: bool,
    /// Presentation time in microseconds.
    pub pts_us: i64,
}

} // verus!
