use vstd::prelude::*;
use crate::config::{DiarizeOptions, TranscribeOptions};
use crate::diarize::{DiarizeSegment, merge_post, merge_diarization, spans_wf, validate_spans};
use crate::error::Error;
use crate::params::{NativeParams, build_params, params_match};
use crate::transcript::{Segment, Transcript, assemble, segments_wf};

verus! {

/// How the fenced native inference call ended.
#[derive(Clone, Debug)]
pub enum InferenceOutcome {
    /// The engine finished; `elapsed_sec` is the wall-clock duration of
    /// the inference call alone, in whole seconds.
    Completed { elapsed_sec: u64 },
    /// The engine returned an ordinary failure.
    Failed { detail: String },
    /// The call faulted abruptly; the fault was caught at the boundary.
    Crashed { detail: String },
}

/// The outcome of one action, reported back to the state machine by the
/// surrounding application.
#[derive(Debug)]
pub enum Event {
    /// Whether the input audio path refers to an existing file.
    AudioProbed { exists: bool },
    /// Audio normalization produced the temporary file at the given
    /// path, or failed with the given detail.
    Normalized { result: Result<String, String> },
    /// The normalized audio file was parsed into samples (kept by the
    /// application), or parsing failed with the given detail.
    WaveformParsed { result: Result<(), String> },
    /// A per-call inference state was acquired (kept by the
    /// application), or allocation failed with the given detail.
    StateAcquired { result: Result<(), String> },
    /// The fenced inference call ended.
    InferenceFinished { outcome: InferenceOutcome },
    /// The segments the engine emitted, in emission order, or the detail
    /// of the per-segment read that failed.
    SegmentsExtracted { result: Result<Vec<Segment>, String> },
    /// The speaker spans the diarization collaborator computed, or the
    /// detail of its failure.
    DiarizationComputed { result: Result<Vec<DiarizeSegment>, String> },
    /// Whether removing the temporary normalized-audio file succeeded.
    TempFileRemoved { ok: bool },
}

/// The next piece of outside work the state machine asks the surrounding
/// application to perform.
#[derive(Clone, Debug)]
pub enum Action {
    /// Check whether the input audio file exists.
    ProbeAudioPath { path: String },
    /// Normalize the source audio into a fixed-format temporary file.
    Normalize { source: String },
    /// Parse the normalized audio file into samples.
    ParseWaveform { path: String },
    /// Acquire a fresh per-call inference state from the context.
    AcquireState,
    /// Run the fenced, blocking inference call with these parameters,
    /// timing the call itself.
    RunInference { params: NativeParams },
    /// Read every segment the engine emitted, in emission order.
    ExtractSegments,
    /// Ask the diarization collaborator for speaker spans of the
    /// normalized audio.
    ComputeDiarization {
        vad_model_path: String,
        speaker_id_model_path: String,
        audio_path: String,
    },
    /// Remove the temporary normalized-audio file.
    RemoveTempFile { path: String },
}

/// The stage a transcription run is in. Every failure moves the run
/// toward `Finished` with an error, through `CleaningUp` whenever the
/// temporary normalized-audio file exists.
#[derive(Debug)]
pub enum Phase {
    /// Checking that the input audio file exists; nothing created yet.
    CheckingAudio,
    /// Normalizing the audio into a temporary file; the file exists only
    /// once normalization reports success.
    Normalizing,
    /// Parsing the normalized file at `audio_path` into samples.
    Decoding { audio_path: String },
    /// Acquiring the per-call inference state.
    AcquiringState { audio_path: String },
    /// Blocking inside the fenced inference call.
    Running { audio_path: String },
    /// Reading the emitted segments; the inference call took
    /// `elapsed_sec` seconds.
    Collecting { audio_path: String, elapsed_sec: u64 },
    /// Waiting for the diarization collaborator's speaker spans.
    ComputingDiarization { audio_path: String, transcript: Transcript },
    /// Removing the temporary file; the run's outcome is already fixed
    /// except for a possible cleanup failure.
    CleaningUp { outcome: Result<Transcript, Error> },
    /// The run is over.
    Finished { outcome: Result<Transcript, Error> },
}

/// One transcription run: the request it serves and the stage it is in.
///
/// The machine owns every decision of the pipeline; the surrounding
/// application only performs the [`Action`]s it emits and reports each
/// outcome back as an [`Event`].
#[derive(Debug)]
pub struct Run {
    /// The request's configuration.
    pub options: TranscribeOptions,
    /// The request's diarization options, if speaker labels were asked
    /// for.
    pub diarize: Option<DiarizeOptions>,
    /// Whether the diarization capability is available in this build;
    /// when it is not, the merge step is skipped and segments keep no
    /// speaker label.
    pub diarize_capability: bool,
    /// The stage the run is in.
    pub phase: Phase,
}

/// The phases during which the temporary normalized-audio file exists
/// and has not yet been handed to a `RemoveTempFile` action.
pub open spec fn owns_artifact(p: Phase) -> bool {
    match p {
        Phase::Decoding { .. } => true,
        Phase::AcquiringState { .. } => true,
        Phase::Running { .. } => true,
        Phase::Collecting { .. } => true,
        Phase::ComputingDiarization { .. } => true,
        _ => false,
    }
}

/// The path of the temporary file a phase owns.
pub open spec fn artifact_path(p: Phase) -> Seq<char> {
    match p {
        Phase::Decoding { audio_path } => audio_path@,
        Phase::AcquiringState { audio_path } => audio_path@,
        Phase::Running { audio_path } => audio_path@,
        Phase::Collecting { audio_path, .. } => audio_path@,
        Phase::ComputingDiarization { audio_path, .. } => audio_path@,
        _ => Seq::<char>::empty(),
    }
}

impl Run {
    /// Every transcript the run carries or returns is well formed.
    pub open spec fn inv(&self) -> bool {
        match self.phase {
            Phase::ComputingDiarization { transcript, .. } => transcript.wf(),
            Phase::CleaningUp { outcome } => outcome matches Ok(t) ==> t.wf(),
            Phase::Finished { outcome } => outcome matches Ok(t) ==> t.wf(),
            _ => true,
        }
    }

    /// Whether `event` reports the outcome of the action the current
    /// phase is waiting for.
    pub open spec fn accepts(&self, event: Event) -> bool {
        match (self.phase, event) {
            (Phase::CheckingAudio, Event::AudioProbed { .. }) => true,
            (Phase::Normalizing, Event::Normalized { .. }) => true,
            (Phase::Decoding { .. }, Event::WaveformParsed { .. }) => true,
            (Phase::AcquiringState { .. }, Event::StateAcquired { .. }) => true,
            (Phase::Running { .. }, Event::InferenceFinished { .. }) => true,
            (Phase::Collecting { .. }, Event::SegmentsExtracted { .. }) => true,
            (Phase::ComputingDiarization { .. }, Event::DiarizationComputed { .. }) => true,
            (Phase::CleaningUp { .. }, Event::TempFileRemoved { .. }) => true,
            _ => false,
        }
    }
}

/// The machine's transition relation: what [`Run::step`] promises of the
/// run it returns and the action it emits, for every phase and event.
pub open spec fn step_post(pre: Run, event: Event, post: Run, action: Option<Action>) -> bool {
    &&& post.options == pre.options
    &&& post.diarize == pre.diarize
    &&& post.diarize_capability == pre.diarize_capability
    &&& match (pre.phase, event) {
        (Phase::CheckingAudio, Event::AudioProbed { exists }) => {
            if exists {
                &&& post.phase == Phase::Normalizing
                &&& action matches Some(Action::Normalize { source })
                    && source@ == pre.options.path@
            } else {
                &&& post.phase matches Phase::Finished { outcome }
                    && outcome matches Err(e)
                    && e matches Error::NotFound { detail }
                    && detail@ == pre.options.path@
                &&& action is None
            }
        },
        (Phase::Normalizing, Event::Normalized { result }) => {
            match result {
                Ok(path) => {
                    &&& post.phase == (Phase::Decoding { audio_path: path })
                    &&& action matches Some(Action::ParseWaveform { path: p }) && p@ == path@
                },
                Err(detail) => {
                    &&& post.phase == (Phase::Finished {
                        outcome: Err(Error::PreprocessError { detail }),
                    })
                    &&& action is None
                },
            }
        },
        (Phase::Decoding { audio_path }, Event::WaveformParsed { result }) => {
            match result {
                Ok(_) => {
                    &&& post.phase == (Phase::AcquiringState { audio_path })
                    &&& action == Some(Action::AcquireState)
                },
                Err(detail) => {
                    &&& post.phase == (Phase::CleaningUp {
                        outcome: Err(Error::PreprocessError { detail }),
                    })
                    &&& action == Some(Action::RemoveTempFile { path: audio_path })
                },
            }
        },
        (Phase::AcquiringState { audio_path }, Event::StateAcquired { result }) => {
            match result {
                Ok(_) => {
                    &&& post.phase == (Phase::Running { audio_path })
                    &&& action matches Some(Action::RunInference { params })
                        && params_match(params, pre.options)
                },
                Err(detail) => {
                    &&& post.phase == (Phase::CleaningUp {
                        outcome: Err(Error::StateError { detail }),
                    })
                    &&& action == Some(Action::RemoveTempFile { path: audio_path })
                },
            }
        },
        (Phase::Running { audio_path }, Event::InferenceFinished { outcome }) => {
            match outcome {
                InferenceOutcome::Completed { elapsed_sec } => {
                    &&& post.phase == (Phase::Collecting { audio_path, elapsed_sec })
                    &&& action == Some(Action::ExtractSegments)
                },
                InferenceOutcome::Failed { detail } => {
                    &&& post.phase == (Phase::CleaningUp {
                        outcome: Err(Error::InferenceError { detail }),
                    })
                    &&& action == Some(Action::RemoveTempFile { path: audio_path })
                },
                InferenceOutcome::Crashed { detail } => {
                    &&& post.phase == (Phase::CleaningUp {
                        outcome: Err(Error::CrashError { detail }),
                    })
                    &&& action == Some(Action::RemoveTempFile { path: audio_path })
                },
            }
        },
        (Phase::Collecting { audio_path, elapsed_sec }, Event::SegmentsExtracted { result }) => {
            match result {
                Ok(segments) => {
                    if segments@.len() == 0 {
                        &&& post.phase matches Phase::CleaningUp { outcome }
                            && outcome matches Err(e) && e is EmptyResultError
                        &&& action == Some(Action::RemoveTempFile { path: audio_path })
                    } else if !segments_wf(segments@) {
                        &&& post.phase matches Phase::CleaningUp { outcome }
                            && outcome matches Err(e) && e is ExtractionError
                        &&& action == Some(Action::RemoveTempFile { path: audio_path })
                    } else if pre.diarize_capability && pre.diarize is Some {
                        &&& post.phase matches Phase::ComputingDiarization {
                            audio_path: a,
                            transcript,
                        } && a == audio_path && transcript == (Transcript {
                            segments,
                            processing_time_sec: elapsed_sec,
                        })
                        &&& action matches Some(Action::ComputeDiarization {
                            vad_model_path,
                            speaker_id_model_path,
                            audio_path: ap,
                        }) && ap@ == audio_path@
                            && (pre.diarize matches Some(d) ==> vad_model_path@
                                == d.vad_model_path@
                                && speaker_id_model_path@ == d.speaker_id_model_path@)
                    } else {
                        &&& post.phase == (Phase::CleaningUp {
                            outcome: Ok(Transcript { segments, processing_time_sec: elapsed_sec }),
                        })
                        &&& action == Some(Action::RemoveTempFile { path: audio_path })
                    }
                },
                Err(detail) => {
                    &&& post.phase == (Phase::CleaningUp {
                        outcome: Err(Error::ExtractionError { detail }),
                    })
                    &&& action == Some(Action::RemoveTempFile { path: audio_path })
                },
            }
        },
        (
            Phase::ComputingDiarization { audio_path, transcript },
            Event::DiarizationComputed { result },
        ) => {
            match result {
                Ok(spans) => {
                    if spans_wf(spans@) {
                        &&& post.phase matches Phase::CleaningUp { outcome }
                            && outcome matches Ok(merged)
                            && merge_post(transcript, spans@, merged)
                        &&& action == Some(Action::RemoveTempFile { path: audio_path })
                    } else {
                        &&& post.phase matches Phase::CleaningUp { outcome }
                            && outcome matches Err(e) && e is DiarizeError
                        &&& action == Some(Action::RemoveTempFile { path: audio_path })
                    }
                },
                Err(detail) => {
                    &&& post.phase == (Phase::CleaningUp {
                        outcome: Err(Error::DiarizeError { detail }),
                    })
                    &&& action == Some(Action::RemoveTempFile { path: audio_path })
                },
            }
        },
        (Phase::CleaningUp { outcome }, Event::TempFileRemoved { ok }) => {
            if ok {
                &&& post.phase == (Phase::Finished { outcome })
                &&& action is None
            } else {
                match outcome {
                    Ok(_) => {
                        &&& post.phase matches Phase::Finished { outcome: o }
                            && o matches Err(e) && e is CleanupError
                        &&& action is None
                    },
                    Err(earlier) => {
                        &&& post.phase == (Phase::Finished { outcome: Err(earlier) })
                        &&& action is None
                    },
                }
            }
        },
        _ => true,
    }
}

impl Run {
    /// Begins a transcription run for one request.
    ///
    /// The first action is always to probe the input audio path: a
    /// missing file must fail before anything is created or any native
    /// call is made.
    pub fn start(
        options: TranscribeOptions,
        diarize: Option<DiarizeOptions>,
        diarize_capability: bool,
    ) -> (r: (Run, Action))
        ensures
            r.0.options == options,
            r.0.diarize == diarize,
            r.0.diarize_capability == diarize_capability,
            r.0.phase == Phase::CheckingAudio,
            r.0.inv(),
            r.1 matches Action::ProbeAudioPath { path } && path@ == options.path@,
    {
        let action = Action::ProbeAudioPath { path: options.path.clone() };
        (Run { options, diarize, diarize_capability, phase: Phase::CheckingAudio }, action)
    }

    /// Advances the run by one event and decides the next action; `None`
    /// means the run is finished.
    ///
    /// The full transition relation is [`step_post`]. In particular: a
    /// missing audio path finishes the run with `NotFound` at once; every
    /// failure after normalization passes through `CleaningUp`, so the
    /// temporary file is removed on success and failure paths alike; and
    /// zero extracted segments finish the run with `EmptyResultError`,
    /// never with an empty transcript.
    pub fn step(self, event: Event) -> (r: (Run, Option<Action>))
        requires
            self.inv(),
            self.accepts(event),
        ensures
            r.0.inv(),
            step_post(self, event, r.0, r.1),
    {
        let Run { options, diarize, diarize_capability, phase } = self;
        match (phase, event) {
            (Phase::CheckingAudio, Event::AudioProbed { exists }) => {
                if exists {
                    let action = Action::Normalize { source: options.path.clone() };
                    (
                        Run { options, diarize, diarize_capability, phase: Phase::Normalizing },
                        Some(action),
                    )
                } else {
                    let outcome = Err(Error::NotFound { detail: options.path.clone() });
                    (
                        Run {
                            options,
                            diarize,
                            diarize_capability,
                            phase: Phase::Finished { outcome },
                        },
                        None,
                    )
                }
            },
            (Phase::Normalizing, Event::Normalized { result }) => {
                match result {
                    Ok(path) => {
                        let action = Action::ParseWaveform { path: path.clone() };
                        (
                            Run {
                                options,
                                diarize,
                                diarize_capability,
                                phase: Phase::Decoding { audio_path: path },
                            },
                            Some(action),
                        )
                    },
                    Err(detail) => (
                        Run {
                            options,
                            diarize,
                            diarize_capability,
                            phase: Phase::Finished {
                                outcome: Err(Error::PreprocessError { detail }),
                            },
                        },
                        None,
                    ),
                }
            },
            (Phase::Decoding { audio_path }, Event::WaveformParsed { result }) => {
                match result {
                    Ok(_) => (
                        Run {
                            options,
                            diarize,
                            diarize_capability,
                            phase: Phase::AcquiringState { audio_path },
                        },
                        Some(Action::AcquireState),
                    ),
                    Err(detail) => (
                        Run {
                            options,
                            diarize,
                            diarize_capability,
                            phase: Phase::CleaningUp {
                                outcome: Err(Error::PreprocessError { detail }),
                            },
                        },
                        Some(Action::RemoveTempFile { path: audio_path }),
                    ),
                }
            },
            (Phase::AcquiringState { audio_path }, Event::StateAcquired { result }) => {
                match result {
                    Ok(_) => {
                        let params = build_params(&options);
                        (
                            Run {
                                options,
                                diarize,
                                diarize_capability,
                                phase: Phase::Running { audio_path },
                            },
                            Some(Action::RunInference { params }),
                        )
                    },
                    Err(detail) => (
                        Run {
                            options,
                            diarize,
                            diarize_capability,
                            phase: Phase::CleaningUp {
                                outcome: Err(Error::StateError { detail }),
                            },
                        },
                        Some(Action::RemoveTempFile { path: audio_path }),
                    ),
                }
            },
            (Phase::Running { audio_path }, Event::InferenceFinished { outcome }) => {
                match outcome {
                    InferenceOutcome::Completed { elapsed_sec } => (
                        Run {
                            options,
                            diarize,
                            diarize_capability,
                            phase: Phase::Collecting { audio_path, elapsed_sec },
                        },
                        Some(Action::ExtractSegments),
                    ),
                    InferenceOutcome::Failed { detail } => (
                        Run {
                            options,
                            diarize,
                            diarize_capability,
                            phase: Phase::CleaningUp {
                                outcome: Err(Error::InferenceError { detail }),
                            },
                        },
                        Some(Action::RemoveTempFile { path: audio_path }),
                    ),
                    InferenceOutcome::Crashed { detail } => (
                        Run {
                            options,
                            diarize,
                            diarize_capability,
                            phase: Phase::CleaningUp {
                                outcome: Err(Error::CrashError { detail }),
                            },
                        },
                        Some(Action::RemoveTempFile { path: audio_path }),
                    ),
                }
            },
            (
                Phase::Collecting { audio_path, elapsed_sec },
                Event::SegmentsExtracted { result },
            ) => {
                match result {
                    Ok(segments) => {
                        match assemble(segments, elapsed_sec) {
                            Ok(transcript) => {
                                match (diarize_capability, diarize) {
                                    (true, Some(d)) => {
                                        let action = Action::ComputeDiarization {
                                            vad_model_path: d.vad_model_path.clone(),
                                            speaker_id_model_path: d
                                                .speaker_id_model_path
                                                .clone(),
                                            audio_path: audio_path.clone(),
                                        };
                                        (
                                            Run {
                                                options,
                                                diarize: Some(d),
                                                diarize_capability,
                                                phase: Phase::ComputingDiarization {
                                                    audio_path,
                                                    transcript,
                                                },
                                            },
                                            Some(action),
                                        )
                                    },
                                    (cap, dia) => (
                                        Run {
                                            options,
                                            diarize: dia,
                                            diarize_capability: cap,
                                            phase: Phase::CleaningUp {
                                                outcome: Ok(transcript),
                                            },
                                        },
                                        Some(Action::RemoveTempFile { path: audio_path }),
                                    ),
                                }
                            },
                            Err(e) => (
                                Run {
                                    options,
                                    diarize,
                                    diarize_capability,
                                    phase: Phase::CleaningUp { outcome: Err(e) },
                                },
                                Some(Action::RemoveTempFile { path: audio_path }),
                            ),
                        }
                    },
                    Err(detail) => (
                        Run {
                            options,
                            diarize,
                            diarize_capability,
                            phase: Phase::CleaningUp {
                                outcome: Err(Error::ExtractionError { detail }),
                            },
                        },
                        Some(Action::RemoveTempFile { path: audio_path }),
                    ),
                }
            },
            (
                Phase::ComputingDiarization { audio_path, transcript },
                Event::DiarizationComputed { result },
            ) => {
                match result {
                    Ok(spans) => {
                        if validate_spans(&spans) {
                            let merged = merge_diarization(transcript, &spans);
                            (
                                Run {
                                    options,
                                    diarize,
                                    diarize_capability,
                                    phase: Phase::CleaningUp { outcome: Ok(merged) },
                                },
                                Some(Action::RemoveTempFile { path: audio_path }),
                            )
                        } else {
                            (
                                Run {
                                    options,
                                    diarize,
                                    diarize_capability,
                                    phase: Phase::CleaningUp {
                                        outcome: Err(Error::DiarizeError {
                                            detail: String::from_str(
                                                "diarization returned malformed spans",
                                            ),
                                        }),
                                    },
                                },
                                Some(Action::RemoveTempFile { path: audio_path }),
                            )
                        }
                    },
                    Err(detail) => (
                        Run {
                            options,
                            diarize,
                            diarize_capability,
                            phase: Phase::CleaningUp {
                                outcome: Err(Error::DiarizeError { detail }),
                            },
                        },
                        Some(Action::RemoveTempFile { path: audio_path }),
                    ),
                }
            },
            (Phase::CleaningUp { outcome }, Event::TempFileRemoved { ok }) => {
                if ok {
                    (
                        Run {
                            options,
                            diarize,
                            diarize_capability,
                            phase: Phase::Finished { outcome },
                        },
                        None,
                    )
                } else {
                    match outcome {
                        Ok(_) => (
                            Run {
                                options,
                                diarize,
                                diarize_capability,
                                phase: Phase::Finished {
                                    outcome: Err(Error::CleanupError {
                                        detail: String::from_str(
                                            "failed to remove the temporary audio file",
                                        ),
                                    }),
                                },
                            },
                            None,
                        ),
                        Err(earlier) => (
                            Run {
                                options,
                                diarize,
                                diarize_capability,
                                phase: Phase::Finished { outcome: Err(earlier) },
                            },
                            None,
                        ),
                    }
                }
            },
            (other, _) => (
                Run { options, diarize, diarize_capability, phase: other },
                None,
            ),
        }
    }

    /// Whether `event` answers the action the run is waiting on; an
    /// unverified driver can test this before calling [`Run::step`].
    pub fn accepts_event(&self, event: &Event) -> (b: bool)
        ensures
            b == self.accepts(*event),
    {
        match (&self.phase, event) {
            (Phase::CheckingAudio, Event::AudioProbed { .. }) => true,
            (Phase::Normalizing, Event::Normalized { .. }) => true,
            (Phase::Decoding { .. }, Event::WaveformParsed { .. }) => true,
            (Phase::AcquiringState { .. }, Event::StateAcquired { .. }) => true,
            (Phase::Running { .. }, Event::InferenceFinished { .. }) => true,
            (Phase::Collecting { .. }, Event::SegmentsExtracted { .. }) => true,
            (Phase::ComputingDiarization { .. }, Event::DiarizationComputed { .. }) => true,
            (Phase::CleaningUp { .. }, Event::TempFileRemoved { .. }) => true,
            _ => false,
        }
    }

    /// Whether the run is over.
    pub fn is_finished(&self) -> (b: bool)
        ensures
            b == (self.phase is Finished),
    {
        match self.phase {
            Phase::Finished { .. } => true,
            _ => false,
        }
    }

    /// Hands the finished run's outcome to the caller.
    pub fn finish(self) -> (r: Result<Transcript, Error>)
        requires
            self.inv(),
            self.phase is Finished,
        ensures
            self.phase == (Phase::Finished { outcome: r }),
            r matches Ok(t) ==> t.wf(),
    {
        match self.phase {
            Phase::Finished { outcome } => outcome,
            _ => vstd::pervasive::unreached(),
        }
    }
}

/// A missing audio path finishes the run with `NotFound` at once: no
/// temporary file has been created and no native call has been asked
/// for, since the probe is the run's very first action.
pub proof fn lemma_missing_audio_fails_before_any_work(
    pre: Run,
    event: Event,
    post: Run,
    action: Option<Action>,
)
    requires
        pre.phase == Phase::CheckingAudio,
        event matches Event::AudioProbed { exists } && !exists,
        step_post(pre, event, post, action),
    ensures
        post.phase matches Phase::Finished { outcome } && outcome matches Err(e)
            && e is NotFound,
        action is None,
        !owns_artifact(post.phase),
{
}

/// The temporary normalized-audio file is removed on success and failure
/// paths alike: once a phase owns the artifact, every transition either
/// keeps it owned under the same path or emits the `RemoveTempFile`
/// action for that path; a finished run never owns it; and the only ways
/// into `Finished` are through `CleaningUp` or from the two phases that
/// precede the artifact's creation.
pub proof fn lemma_artifact_removed_on_every_exit(
    pre: Run,
    event: Event,
    post: Run,
    action: Option<Action>,
)
    requires
        pre.accepts(event),
        step_post(pre, event, post, action),
    ensures
        owns_artifact(pre.phase) && !owns_artifact(post.phase) ==> (action matches Some(
            Action::RemoveTempFile { path },
        ) && path@ == artifact_path(pre.phase)),
        owns_artifact(pre.phase) && owns_artifact(post.phase) ==> artifact_path(post.phase)
            == artifact_path(pre.phase),
        !owns_artifact(pre.phase) && owns_artifact(post.phase) ==> pre.phase is Normalizing,
        post.phase is Finished ==> !owns_artifact(post.phase),
        post.phase is Finished ==> (pre.phase is CleaningUp || pre.phase is CheckingAudio
            || pre.phase is Normalizing),
{
}

/// A successful run always returns a well-formed transcript: at least
/// one segment, each with `start <= stop`, in non-decreasing start
/// order — and its processing time is a non-negative count of seconds.
pub proof fn lemma_success_is_well_formed(r: Run, t: Transcript)
    requires
        r.inv(),
        r.phase == (Phase::Finished { outcome: Ok(t) }),
    ensures
        t.segments@.len() >= 1,
        segments_wf(t.segments@),
        forall|i: int| 0 <= i < t.segments@.len() ==> (#[trigger] t.segments@[i]).start
            <= t.segments@[i].stop,
        t.processing_time_sec >= 0,
{
}

} // verus!
