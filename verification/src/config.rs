use vstd::prelude::*;

verus! {

/// User-facing configuration of one transcription request.
///
/// Only `path` is required; every other field, when absent, means "use the
/// engine's default". The sampling temperature travels as the bit pattern
/// of an IEEE 754 single-precision number: the core never interprets it,
/// it only hands it through to the engine unchanged.
#[derive(Clone, Debug)]
pub struct TranscribeOptions {
    /// Path of the input audio file; it must refer to an existing file.
    pub path: String,
    /// Target or source language code; absent means auto-detect.
    pub lang: Option<String>,
    /// Translate the recognized speech instead of transcribing it.
    pub translate: Option<bool>,
    /// Collect word-level timestamps and split segments on word boundaries.
    pub word_timestamps: Option<bool>,
    /// Maximum segment length in characters; read only when
    /// `word_timestamps` is enabled.
    pub max_sentence_len: Option<i32>,
    /// Sampling temperature, as the bit pattern of an IEEE 754
    /// single-precision number; passed through to the engine unchanged.
    pub temperature_bits: Option<u32>,
    /// Cap on the text context window the engine may keep.
    pub max_text_ctx: Option<i32>,
    /// Initial prompt that primes the decoder.
    pub init_prompt: Option<String>,
    /// Number of threads the engine may use for its own computation.
    pub n_threads: Option<i32>,
}

/// Paths of the two models the speaker-diarization collaborator needs;
/// both are required together or the whole value is omitted.
#[derive(Clone, Debug)]
pub struct DiarizeOptions {
    /// Path of the voice-activity-detection model.
    pub vad_model_path: String,
    /// Path of the speaker-embedding model.
    pub speaker_id_model_path: String,
}

} // verus!
