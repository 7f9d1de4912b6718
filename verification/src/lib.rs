//! Transcription-orchestration core.
//!
//! This library holds the decision logic of a transcription pipeline that
//! sits between an application and a native speech-inference engine: it
//! translates a user configuration into the engine's parameter set, decides
//! each step of a single transcription run as a state machine, classifies
//! every failure by the stage it arose in, assembles the engine's raw
//! segments into a transcript, and merges externally computed speaker
//! spans into it. The surrounding application performs the actions the
//! state machine requests (file probes, audio normalization, the native
//! inference call) and feeds the outcomes back as events.

pub mod config;
pub mod context;
pub mod diarize;
pub mod error;
pub mod machine;
pub mod params;
pub mod progress;
pub mod transcript;
