//! A speech-transcription engine: model catalog and status, download and
//! deletion decisions, a single-slot cache for the recognition context, WAV
//! decoding, and assembly of recognised text.

pub mod audio;
pub mod catalog;
pub mod engine;
pub mod error;
pub mod storage;
pub mod text;
