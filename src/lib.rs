//! Core of a bot that posts the frames of a movie one at a time: the
//! resumable frame counter and the size-bounded JPEG recompression.

pub mod frame_info;
pub mod frame_store;
pub mod codec;
pub mod config;
pub mod error;
pub mod frame_processing;
pub mod posting;
