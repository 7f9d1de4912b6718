use vstd::prelude::*;
use crate::config::TranscribeOptions;

verus! {

/// The engine-level parameter set of one inference run, as plain values.
///
/// Each field mirrors one knob of the native engine's parameter block on
/// top of its default sampling strategy. An absent optional field means
/// the engine's own default is kept. The surrounding application applies
/// these values to the native parameter block verbatim.
#[derive(Clone, Debug)]
pub struct NativeParams {
    /// Collect token-level timestamps. Always enabled: downstream
    /// diarization alignment needs them whether or not the caller asked
    /// for word timestamps.
    pub token_timestamps: bool,
    /// Split segments on word boundaries.
    pub split_on_word: bool,
    /// Maximum segment length in characters; set only when word
    /// timestamps were requested.
    pub max_len: Option<i32>,
    /// Translate instead of transcribing.
    pub translate: bool,
    /// Language code; absent means auto-detect.
    pub language: Option<String>,
    /// Print special tokens on the engine's console. Always disabled.
    pub print_special: bool,
    /// Report progress to the progress-callback channel. Always enabled.
    pub print_progress: bool,
    /// Print realtime output on the engine's console. Always disabled.
    pub print_realtime: bool,
    /// Print timestamps on the engine's console. Always disabled.
    pub print_timestamps: bool,
    /// Suppress leading blank output. Always enabled.
    pub suppress_blank: bool,
    /// Sampling temperature as an IEEE 754 single-precision bit pattern,
    /// handed through unchanged.
    pub temperature_bits: Option<u32>,
    /// Cap on the engine's text context window.
    pub n_max_text_ctx: Option<i32>,
    /// Initial prompt that primes the decoder.
    pub initial_prompt: Option<String>,
    /// Number of threads the engine may use.
    pub n_threads: Option<i32>,
}

/// What [`build_params`] promises: `p` is exactly the parameter set the
/// configuration `o` translates to.
pub open spec fn params_match(p: NativeParams, o: TranscribeOptions) -> bool {
    &&& p.token_timestamps == true
    &&& p.split_on_word == (o.word_timestamps == Some(true))
    &&& (o.word_timestamps == Some(true) ==> p.max_len == Some(
        match o.max_sentence_len {
            Some(n) => n,
            None => 1i32,
        },
    ))
    &&& (o.word_timestamps != Some(true) ==> p.max_len is None)
    &&& p.translate == (o.translate == Some(true))
    &&& (p.language is Some <==> o.lang is Some)
    &&& (o.lang matches Some(l) ==> p.language matches Some(m) && m@ == l@)
    &&& p.print_special == false
    &&& p.print_progress == true
    &&& p.print_realtime == false
    &&& p.print_timestamps == false
    &&& p.suppress_blank == true
    &&& p.temperature_bits == o.temperature_bits
    &&& p.n_max_text_ctx == o.max_text_ctx
    &&& (p.initial_prompt is Some <==> o.init_prompt is Some)
    &&& (o.init_prompt matches Some(ip) ==> p.initial_prompt matches Some(bp) && bp@ == ip@)
    &&& p.n_threads == o.n_threads
}

/// Translates a user configuration into the engine's parameter set.
///
/// Pure and total: malformed combinations are defaulted, never rejected.
/// Every opt-in flag is layered onto the engine defaults; the console
/// printing flags and token timestamps are forced unconditionally.
pub fn build_params(options: &TranscribeOptions) -> (p: NativeParams)
    ensures
        params_match(p, *options),
{
    let word_timestamps = matches!(options.word_timestamps, Some(true));
    let max_len: Option<i32> = if word_timestamps {
        match options.max_sentence_len {
            Some(n) => Some(n),
            None => Some(1),
        }
    } else {
        None
    };
    let language: Option<String> = match &options.lang {
        Some(l) => Some(l.clone()),
        None => None,
    };
    let initial_prompt: Option<String> = match &options.init_prompt {
        Some(p) => Some(p.clone()),
        None => None,
    };
    NativeParams {
        token_timestamps: true,
        split_on_word: word_timestamps,
        max_len,
        translate: matches!(options.translate, Some(true)),
        language,
        print_special: false,
        print_progress: true,
        print_realtime: false,
        print_timestamps: false,
        suppress_blank: true,
        temperature_bits: options.temperature_bits,
        n_max_text_ctx: options.max_text_ctx,
        initial_prompt,
        n_threads: options.n_threads,
    }
}

} // verus!
