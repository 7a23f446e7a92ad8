use vstd::prelude::*;

verus! {

/// The kinds of failure that the engine reports.
#[derive(Clone, Copy, Debug, PartialEq, Eq, Structural)]
pub enum TranscribeError {
    /// A model tier identifier that names no tier.
    InvalidArgument,
    /// The model storage directory could not be made available.
    DirectoryError,
    /// The model download failed in transport or with a non-success status.
    NetworkError,
    /// A file could not be written, read or removed.
    IoError,
    /// The audio input is not a WAV stream the engine can decode.
    FormatError,
    /// The recognition backend rejected the model file.
    ModelLoadError,
    /// Transcription was asked for while no model is downloaded.
    NoModelError,
    /// The recognition backend failed while recognising.
    TranscriptionError,
}

} // verus!
