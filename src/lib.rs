//! A verified bridge between a callback-driven video codec engine and a
//! pull-style stream of decoded frames, with the configuration records that
//! describe a session.

pub mod bridge;
pub mod chunk;
pub mod color;
pub mod config;
pub mod error;

pub use bridge::{BridgeState, OutputBridge, Pull};
pub use chunk::{chunk_type, ChunkType};
pub use color::VideoColorSpaceConfig;
pub use config::{HardwareAcceleration, NativeDecoderConfig, VideoDecoderConfig};
pub use web_sys::{VideoColorPrimaries, VideoMatrixCoefficients, VideoTransferCharacteristics};
pub use error::Error;
