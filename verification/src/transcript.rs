use vstd::prelude::*;
use crate::error::Error;

verus! {

/// One contiguous span of recognized speech.
///
/// `start` and `stop` are timestamps in engine time units, measured as
/// non-negative offsets from the start of the audio. `speaker` is set
/// only by the diarization merge; the engine itself emits `None`.
#[derive(Clone, Debug)]
pub struct Segment {
    /// Recognized text, lossily decoded.
    pub text: String,
    /// Start timestamp, in engine time units.
    pub start: i64,
    /// Stop timestamp, in engine time units; never before `start`.
    pub stop: i64,
    /// Speaker label, populated only by the diarization merge.
    pub speaker: Option<String>,
}

/// The result of one successful transcription run.
#[derive(Clone, Debug)]
pub struct Transcript {
    /// Segments in the exact order the engine emitted them; never empty.
    pub segments: Vec<Segment>,
    /// Wall-clock duration of the inference call alone, in whole seconds;
    /// audio normalization is not counted.
    pub processing_time_sec: u64,
}

impl Segment {
    /// A segment's timestamps are non-negative offsets with `start <= stop`.
    pub open spec fn wf(&self) -> bool {
        0 <= self.start <= self.stop
    }
}

/// Segments are chronological: each one starts no earlier than the one
/// before it.
pub open spec fn segments_ordered(segments: Seq<Segment>) -> bool {
    forall|i: int, j: int|
        0 <= i <= j < segments.len() ==> #[trigger] segments[i].start <= #[trigger] segments[j].start
}

/// Every segment is well formed and the whole sequence is chronological.
pub open spec fn segments_wf(segments: Seq<Segment>) -> bool {
    &&& forall|i: int| 0 <= i < segments.len() ==> (#[trigger] segments[i]).wf()
    &&& segments_ordered(segments)
}

impl Transcript {
    /// A transcript holds at least one segment, each well formed, in
    /// chronological order.
    pub open spec fn wf(&self) -> bool {
        &&& self.segments@.len() >= 1
        &&& segments_wf(self.segments@)
    }
}

/// Wraps the segments the engine emitted, in emission order, into a
/// transcript — or reports why they do not form one.
///
/// Zero segments are a hard failure, never an empty transcript. Segments
/// whose timestamps are not well formed (a negative offset, `stop`
/// before `start`, or a start earlier than the previous segment's) are
/// treated as a failed extraction: a returned transcript always
/// satisfies the chronological invariant.
pub fn assemble(segments: Vec<Segment>, processing_time_sec: u64) -> (r: Result<Transcript, Error>)
    ensures
        r is Ok <==> segments@.len() >= 1 && segments_wf(segments@),
        r matches Ok(t) ==> t.segments == segments && t.processing_time_sec == processing_time_sec
            && t.wf(),
        segments@.len() == 0 ==> (r matches Err(e) && e is EmptyResultError),
        segments@.len() >= 1 && !segments_wf(segments@) ==> (r matches Err(e)
            && e is ExtractionError),
{
    if segments.len() == 0 {
        return Err(Error::EmptyResultError { detail: String::from_str("no segments found") });
    }
    let n = segments.len();
    let mut i: usize = 0;
    while i < n
        invariant
            n == segments@.len(),
            0 <= i <= n,
            forall|k: int| 0 <= k < i ==> (#[trigger] segments@[k]).wf(),
            forall|k: int, l: int|
                0 <= k <= l < i ==> #[trigger] segments@[k].start <= #[trigger] segments@[l].start,
        decreases n - i,
    {
        let s = &segments[i];
        if !(0 <= s.start && s.start <= s.stop) {
            return Err(Error::ExtractionError {
                detail: String::from_str("segment timestamps are malformed"),
            });
        }
        if i > 0 && segments[i - 1].start > s.start {
            return Err(Error::ExtractionError {
                detail: String::from_str("segments are out of chronological order"),
            });
        }
        i = i + 1;
    }
    Ok(Transcript { segments, processing_time_sec })
}

} // verus!
