use vstd::prelude::*;

verus! {

/// The stage a transcription request failed at, stripped of diagnostic text.
///
/// Tests and callers that only care about which stage failed compare these
/// tags instead of whole [`Error`] values.
#[derive(Clone, Copy, Debug, PartialEq, Eq, Structural)]
pub enum ErrorKind {
    NotFound,
    LoadError,
    CrashError,
    PreprocessError,
    StateError,
    InferenceError,
    EmptyResultError,
    ExtractionError,
    DiarizeError,
    CleanupError,
}

/// A failure of one pipeline stage, carrying diagnostic detail.
///
/// Every stage failure aborts the rest of the pipeline and surfaces as
/// exactly one of these variants, so the caller can always identify the
/// stage that failed.
#[derive(Clone, Debug)]
pub enum Error {
    /// A model or audio path does not refer to an existing file; the detail
    /// holds the offending path.
    NotFound { detail: String },
    /// The engine rejected the model without crashing.
    LoadError { detail: String },
    /// A native-level fault was caught at a fault boundary and converted
    /// into this ordinary error instead of aborting the process.
    CrashError { detail: String },
    /// Audio normalization or waveform decoding failed.
    PreprocessError { detail: String },
    /// The context could not allocate a per-call inference state.
    StateError { detail: String },
    /// The engine's inference run returned a failure.
    InferenceError { detail: String },
    /// The engine produced zero segments; an empty result is a failure,
    /// never an empty transcript.
    EmptyResultError { detail: String },
    /// Reading a segment's fields failed, or the fields read do not form a
    /// well-formed chronological sequence.
    ExtractionError { detail: String },
    /// The speaker-diarization collaborator failed or returned malformed
    /// spans.
    DiarizeError { detail: String },
    /// Removing the temporary normalized-audio file failed after an
    /// otherwise successful run.
    CleanupError { detail: String },
}

impl Error {
    /// The stage tag of this error.
    pub open spec fn kind_spec(&self) -> ErrorKind {
        match self {
            Error::NotFound { .. } => ErrorKind::NotFound,
            Error::LoadError { .. } => ErrorKind::LoadError,
            Error::CrashError { .. } => ErrorKind::CrashError,
            Error::PreprocessError { .. } => ErrorKind::PreprocessError,
            Error::StateError { .. } => ErrorKind::StateError,
            Error::InferenceError { .. } => ErrorKind::InferenceError,
            Error::EmptyResultError { .. } => ErrorKind::EmptyResultError,
            Error::ExtractionError { .. } => ErrorKind::ExtractionError,
            Error::DiarizeError { .. } => ErrorKind::DiarizeError,
            Error::CleanupError { .. } => ErrorKind::CleanupError,
        }
    }

    /// The diagnostic detail carried by this error.
    pub open spec fn detail_spec(&self) -> Seq<char> {
        match self {
            Error::NotFound { detail } => detail@,
            Error::LoadError { detail } => detail@,
            Error::CrashError { detail } => detail@,
            Error::PreprocessError { detail } => detail@,
            Error::StateError { detail } => detail@,
            Error::InferenceError { detail } => detail@,
            Error::EmptyResultError { detail } => detail@,
            Error::ExtractionError { detail } => detail@,
            Error::DiarizeError { detail } => detail@,
            Error::CleanupError { detail } => detail@,
        }
    }

    pub fn kind(&self) -> (k: ErrorKind)
        ensures
            k == self.kind_spec(),
    {
        match self {
            Error::NotFound { .. } => ErrorKind::NotFound,
            Error::LoadError { .. } => ErrorKind::LoadError,
            Error::CrashError { .. } => ErrorKind::CrashError,
            Error::PreprocessError { .. } => ErrorKind::PreprocessError,
            Error::StateError { .. } => ErrorKind::StateError,
            Error::InferenceError { .. } => ErrorKind::InferenceError,
            Error::EmptyResultError { .. } => ErrorKind::EmptyResultError,
            Error::ExtractionError { .. } => ErrorKind::ExtractionError,
            Error::DiarizeError { .. } => ErrorKind::DiarizeError,
            Error::CleanupError { .. } => ErrorKind::CleanupError,
        }
    }

    pub fn detail(&self) -> (d: &String)
        ensures
            d@ == self.detail_spec(),
    {
        match self {
            Error::NotFound { detail } => detail,
            Error::LoadError { detail } => detail,
            Error::CrashError { detail } => detail,
            Error::PreprocessError { detail } => detail,
            Error::StateError { detail } => detail,
            Error::InferenceError { detail } => detail,
            Error::EmptyResultError { detail } => detail,
            Error::ExtractionError { detail } => detail,
            Error::DiarizeError { detail } => detail,
            Error::CleanupError { detail } => detail,
        }
    }
}

} // verus!
