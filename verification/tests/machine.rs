use transcribe_core::config::{DiarizeOptions, TranscribeOptions};
use transcribe_core::diarize::DiarizeSegment;
use transcribe_core::error::ErrorKind;
use transcribe_core::machine::{Action, Event, InferenceOutcome, Phase, Run};
use transcribe_core::transcript::Segment;

fn options(path: &str) -> TranscribeOptions {
    TranscribeOptions {
        path: String::from(path),
        lang: None,
        translate: None,
        word_timestamps: Some(true),
        max_sentence_len: None,
        temperature_bits: None,
        max_text_ctx: None,
        init_prompt: None,
        n_threads: None,
    }
}

fn seg(text: &str, start: i64, stop: i64) -> Segment {
    Segment { text: String::from(text), start, stop, speaker: None }
}

fn span(start: i64, stop: i64, speaker: &str) -> DiarizeSegment {
    DiarizeSegment { start, stop, speaker: String::from(speaker) }
}

/// Drives a run up to the point where the inference call has finished.
fn run_to_collecting(elapsed_sec: u64) -> Run {
    let (run, action) = Run::start(options("in.wav"), None, false);
    assert!(matches!(action, Action::ProbeAudioPath { ref path } if path == "in.wav"));
    let (run, action) = run.step(Event::AudioProbed { exists: true });
    assert!(matches!(action, Some(Action::Normalize { ref source }) if source == "in.wav"));
    let (run, action) = run.step(Event::Normalized { result: Ok(String::from("tmp.wav")) });
    assert!(matches!(action, Some(Action::ParseWaveform { ref path }) if path == "tmp.wav"));
    let (run, action) = run.step(Event::WaveformParsed { result: Ok(()) });
    assert!(matches!(action, Some(Action::AcquireState)));
    let (run, action) = run.step(Event::StateAcquired { result: Ok(()) });
    match action {
        Some(Action::RunInference { ref params }) => {
            // The run's configuration asked for word timestamps.
            assert!(params.token_timestamps);
            assert!(params.split_on_word);
            assert_eq!(params.max_len, Some(1));
        }
        other => panic!("expected an inference action, got {:?}", other),
    }
    let (run, action) = run.step(Event::InferenceFinished {
        outcome: InferenceOutcome::Completed { elapsed_sec },
    });
    assert!(matches!(action, Some(Action::ExtractSegments)));
    run
}

fn finish_ok(run: Run) -> transcribe_core::transcript::Transcript {
    run.finish().expect("the run should have succeeded")
}

#[test]
fn a_missing_audio_path_fails_not_found_before_any_work() {
    let (run, action) = Run::start(options("missing.wav"), None, false);
    assert!(matches!(action, Action::ProbeAudioPath { .. }));
    let (run, action) = run.step(Event::AudioProbed { exists: false });
    // The run is over at once: no normalization, no native call, no
    // temporary file, hence no cleanup action either.
    assert!(action.is_none());
    assert!(run.is_finished());
    let err = run.finish().unwrap_err();
    assert_eq!(err.kind(), ErrorKind::NotFound);
    assert_eq!(err.detail().as_str(), "missing.wav");
}

#[test]
fn a_successful_run_returns_the_extracted_segments_and_timing() {
    let run = run_to_collecting(7);
    let (run, action) = run.step(Event::SegmentsExtracted {
        result: Ok(vec![seg("hello", 0, 50), seg("world", 50, 120)]),
    });
    assert!(matches!(action, Some(Action::RemoveTempFile { ref path }) if path == "tmp.wav"));
    let (run, action) = run.step(Event::TempFileRemoved { ok: true });
    assert!(action.is_none());
    let t = finish_ok(run);
    assert_eq!(t.processing_time_sec, 7);
    assert_eq!(t.segments.len(), 2);
    assert_eq!(t.segments[0].text, "hello");
    assert_eq!(t.segments[1].text, "world");
    assert!(t.segments.iter().all(|s| s.speaker.is_none()));
}

#[test]
fn a_normalization_failure_is_a_preprocess_error_with_nothing_to_clean() {
    let (run, _) = Run::start(options("in.wav"), None, false);
    let (run, _) = run.step(Event::AudioProbed { exists: true });
    let (run, action) = run.step(Event::Normalized {
        result: Err(String::from("unsupported codec")),
    });
    // Normalization failed, so no temporary file was created: the run
    // finishes without a cleanup action.
    assert!(action.is_none());
    let err = run.finish().unwrap_err();
    assert_eq!(err.kind(), ErrorKind::PreprocessError);
    assert_eq!(err.detail().as_str(), "unsupported codec");
}

#[test]
fn a_decoding_failure_cleans_up_and_reports_preprocess_error() {
    let (run, _) = Run::start(options("in.wav"), None, false);
    let (run, _) = run.step(Event::AudioProbed { exists: true });
    let (run, _) = run.step(Event::Normalized { result: Ok(String::from("tmp.wav")) });
    let (run, action) = run.step(Event::WaveformParsed {
        result: Err(String::from("bad wav header")),
    });
    assert!(matches!(action, Some(Action::RemoveTempFile { ref path }) if path == "tmp.wav"));
    let (run, _) = run.step(Event::TempFileRemoved { ok: true });
    assert_eq!(run.finish().unwrap_err().kind(), ErrorKind::PreprocessError);
}

#[test]
fn a_state_allocation_failure_cleans_up_and_reports_state_error() {
    let (run, _) = Run::start(options("in.wav"), None, false);
    let (run, _) = run.step(Event::AudioProbed { exists: true });
    let (run, _) = run.step(Event::Normalized { result: Ok(String::from("tmp.wav")) });
    let (run, _) = run.step(Event::WaveformParsed { result: Ok(()) });
    let (run, action) = run.step(Event::StateAcquired {
        result: Err(String::from("out of memory")),
    });
    assert!(matches!(action, Some(Action::RemoveTempFile { .. })));
    let (run, _) = run.step(Event::TempFileRemoved { ok: true });
    assert_eq!(run.finish().unwrap_err().kind(), ErrorKind::StateError);
}

#[test]
fn an_ordinary_inference_failure_cleans_up_and_reports_inference_error() {
    let (run, _) = Run::start(options("in.wav"), None, false);
    let (run, _) = run.step(Event::AudioProbed { exists: true });
    let (run, _) = run.step(Event::Normalized { result: Ok(String::from("tmp.wav")) });
    let (run, _) = run.step(Event::WaveformParsed { result: Ok(()) });
    let (run, _) = run.step(Event::StateAcquired { result: Ok(()) });
    let (run, action) = run.step(Event::InferenceFinished {
        outcome: InferenceOutcome::Failed { detail: String::from("decode failed") },
    });
    assert!(matches!(action, Some(Action::RemoveTempFile { .. })));
    let (run, _) = run.step(Event::TempFileRemoved { ok: true });
    let err = run.finish().unwrap_err();
    assert_eq!(err.kind(), ErrorKind::InferenceError);
    assert_eq!(err.detail().as_str(), "decode failed");
}

#[test]
fn a_caught_native_fault_becomes_a_crash_error_and_still_cleans_up() {
    let (run, _) = Run::start(options("in.wav"), None, false);
    let (run, _) = run.step(Event::AudioProbed { exists: true });
    let (run, _) = run.step(Event::Normalized { result: Ok(String::from("tmp.wav")) });
    let (run, _) = run.step(Event::WaveformParsed { result: Ok(()) });
    let (run, _) = run.step(Event::StateAcquired { result: Ok(()) });
    let (run, action) = run.step(Event::InferenceFinished {
        outcome: InferenceOutcome::Crashed { detail: String::from("signal 11") },
    });
    assert!(matches!(action, Some(Action::RemoveTempFile { .. })));
    let (run, _) = run.step(Event::TempFileRemoved { ok: true });
    let err = run.finish().unwrap_err();
    assert_eq!(err.kind(), ErrorKind::CrashError);
    assert_eq!(err.detail().as_str(), "signal 11");
}

#[test]
fn zero_segments_clean_up_and_report_empty_result() {
    let run = run_to_collecting(1);
    let (run, action) = run.step(Event::SegmentsExtracted { result: Ok(Vec::new()) });
    assert!(matches!(action, Some(Action::RemoveTempFile { .. })));
    let (run, _) = run.step(Event::TempFileRemoved { ok: true });
    assert_eq!(run.finish().unwrap_err().kind(), ErrorKind::EmptyResultError);
}

#[test]
fn a_failed_segment_read_cleans_up_and_reports_extraction_error() {
    let run = run_to_collecting(1);
    let (run, action) = run.step(Event::SegmentsExtracted {
        result: Err(String::from("segment 3 unreadable")),
    });
    assert!(matches!(action, Some(Action::RemoveTempFile { .. })));
    let (run, _) = run.step(Event::TempFileRemoved { ok: true });
    assert_eq!(run.finish().unwrap_err().kind(), ErrorKind::ExtractionError);
}

#[test]
fn out_of_order_segments_clean_up_and_report_extraction_error() {
    let run = run_to_collecting(1);
    let (run, _) = run.step(Event::SegmentsExtracted {
        result: Ok(vec![seg("b", 50, 60), seg("a", 0, 10)]),
    });
    let (run, _) = run.step(Event::TempFileRemoved { ok: true });
    assert_eq!(run.finish().unwrap_err().kind(), ErrorKind::ExtractionError);
}

#[test]
fn a_cleanup_failure_after_success_is_reported_as_cleanup_error() {
    let run = run_to_collecting(1);
    let (run, _) = run.step(Event::SegmentsExtracted { result: Ok(vec![seg("a", 0, 10)]) });
    let (run, action) = run.step(Event::TempFileRemoved { ok: false });
    assert!(action.is_none());
    assert_eq!(run.finish().unwrap_err().kind(), ErrorKind::CleanupError);
}

#[test]
fn a_cleanup_failure_never_hides_an_earlier_error() {
    let run = run_to_collecting(1);
    let (run, _) = run.step(Event::SegmentsExtracted { result: Ok(Vec::new()) });
    let (run, _) = run.step(Event::TempFileRemoved { ok: false });
    // The empty-result error came first; the cleanup failure must not
    // replace it.
    assert_eq!(run.finish().unwrap_err().kind(), ErrorKind::EmptyResultError);
}

fn diarize_options() -> DiarizeOptions {
    DiarizeOptions {
        vad_model_path: String::from("vad.onnx"),
        speaker_id_model_path: String::from("spk.onnx"),
    }
}

fn run_to_collecting_with_diarize(capability: bool) -> Run {
    let (run, _) = Run::start(options("in.wav"), Some(diarize_options()), capability);
    let (run, _) = run.step(Event::AudioProbed { exists: true });
    let (run, _) = run.step(Event::Normalized { result: Ok(String::from("tmp.wav")) });
    let (run, _) = run.step(Event::WaveformParsed { result: Ok(()) });
    let (run, _) = run.step(Event::StateAcquired { result: Ok(()) });
    let (run, _) = run.step(Event::InferenceFinished {
        outcome: InferenceOutcome::Completed { elapsed_sec: 2 },
    });
    run
}

#[test]
fn diarization_labels_segments_by_maximal_overlap() {
    let run = run_to_collecting_with_diarize(true);
    let (run, action) = run.step(Event::SegmentsExtracted {
        result: Ok(vec![seg("hello", 200, 400)]),
    });
    match action {
        Some(Action::ComputeDiarization { vad_model_path, speaker_id_model_path, audio_path }) => {
            assert_eq!(vad_model_path, "vad.onnx");
            assert_eq!(speaker_id_model_path, "spk.onnx");
            assert_eq!(audio_path, "tmp.wav");
        }
        other => panic!("expected a diarization action, got {:?}", other),
    }
    let (run, action) = run.step(Event::DiarizationComputed {
        result: Ok(vec![span(0, 300, "A"), span(300, 600, "B")]),
    });
    assert!(matches!(action, Some(Action::RemoveTempFile { ref path }) if path == "tmp.wav"));
    let (run, _) = run.step(Event::TempFileRemoved { ok: true });
    let t = finish_ok(run);
    // Both spans overlap the segment by 100 time units: the tie goes to
    // the earliest span.
    assert_eq!(t.segments[0].speaker.as_deref(), Some("A"));
}

#[test]
fn diarization_is_skipped_when_the_capability_is_absent() {
    let run = run_to_collecting_with_diarize(false);
    let (run, action) = run.step(Event::SegmentsExtracted {
        result: Ok(vec![seg("hello", 200, 400)]),
    });
    // No diarization action: the run goes straight to cleanup.
    assert!(matches!(action, Some(Action::RemoveTempFile { .. })));
    let (run, _) = run.step(Event::TempFileRemoved { ok: true });
    let t = finish_ok(run);
    assert_eq!(t.segments[0].speaker, None);
}

#[test]
fn a_diarization_failure_cleans_up_and_reports_diarize_error() {
    let run = run_to_collecting_with_diarize(true);
    let (run, _) = run.step(Event::SegmentsExtracted { result: Ok(vec![seg("a", 0, 10)]) });
    let (run, action) = run.step(Event::DiarizationComputed {
        result: Err(String::from("vad model not loadable")),
    });
    assert!(matches!(action, Some(Action::RemoveTempFile { .. })));
    let (run, _) = run.step(Event::TempFileRemoved { ok: true });
    assert_eq!(run.finish().unwrap_err().kind(), ErrorKind::DiarizeError);
}

#[test]
fn malformed_diarization_spans_are_a_diarize_error() {
    let run = run_to_collecting_with_diarize(true);
    let (run, _) = run.step(Event::SegmentsExtracted { result: Ok(vec![seg("a", 0, 10)]) });
    let (run, _) = run.step(Event::DiarizationComputed {
        result: Ok(vec![span(9, 5, "A")]),
    });
    let (run, _) = run.step(Event::TempFileRemoved { ok: true });
    assert_eq!(run.finish().unwrap_err().kind(), ErrorKind::DiarizeError);
}

#[test]
fn the_run_reports_its_phase_until_finished() {
    let (run, _) = Run::start(options("in.wav"), None, false);
    assert!(!run.is_finished());
    assert!(matches!(run.phase, Phase::CheckingAudio));
    let (run, _) = run.step(Event::AudioProbed { exists: false });
    assert!(run.is_finished());
}
