use vstd::prelude::*;
use crate::transcript::{Segment, Transcript, segments_wf};

verus! {

/// One speaker-labeled time span computed by the external diarization
/// collaborator, in the same engine time units as transcript segments.
#[derive(Clone, Debug)]
pub struct DiarizeSegment {
    /// Start of the span, in engine time units.
    pub start: i64,
    /// End of the span, in engine time units; never before `start`.
    pub stop: i64,
    /// Identifier of the speaker this span belongs to.
    pub speaker: String,
}

impl DiarizeSegment {
    /// A span's endpoints are non-negative offsets with `start <= stop`.
    pub open spec fn wf(&self) -> bool {
        0 <= self.start <= self.stop
    }
}

/// Every span is well formed.
pub open spec fn spans_wf(spans: Seq<DiarizeSegment>) -> bool {
    forall|i: int| 0 <= i < spans.len() ==> (#[trigger] spans[i]).wf()
}

/// Length of the temporal overlap between a transcript segment and a
/// diarization span; zero when they do not intersect.
pub open spec fn overlap(seg: Segment, span: DiarizeSegment) -> int {
    let lo = if seg.start >= span.start { seg.start as int } else { span.start as int };
    let hi = if seg.stop <= span.stop { seg.stop as int } else { span.stop as int };
    if hi > lo {
        hi - lo
    } else {
        0
    }
}

/// Index of the span assigned to `seg` among the first `n` spans: the
/// span with the greatest positive overlap, the earliest-listed one on a
/// tie; `None` when no span overlaps the segment at all.
pub open spec fn best_span_upto(seg: Segment, spans: Seq<DiarizeSegment>, n: int) -> Option<int>
    decreases n,
{
    if n <= 0 {
        None
    } else {
        let ov = overlap(seg, spans[n - 1]);
        match best_span_upto(seg, spans, n - 1) {
            None => if ov > 0 {
                Some(n - 1)
            } else {
                None
            },
            Some(j) => if ov > overlap(seg, spans[j]) {
                Some(n - 1)
            } else {
                Some(j)
            },
        }
    }
}

/// Index of the span assigned to `seg`, over the whole span list.
pub open spec fn best_span(seg: Segment, spans: Seq<DiarizeSegment>) -> Option<int> {
    best_span_upto(seg, spans, spans.len() as int)
}

/// What the merge does to one segment: text and timestamps are kept, and
/// the speaker label comes from the assigned span — or is kept unchanged
/// when no span overlaps the segment.
pub open spec fn merged_segment(orig: Segment, spans: Seq<DiarizeSegment>, out: Segment) -> bool {
    &&& out.text@ == orig.text@
    &&& out.start == orig.start
    &&& out.stop == orig.stop
    &&& match best_span(orig, spans) {
        None => {
            &&& (out.speaker is Some <==> orig.speaker is Some)
            &&& (orig.speaker matches Some(s) ==> out.speaker matches Some(o) && o@ == s@)
        },
        Some(j) => out.speaker matches Some(o) && o@ == spans[j].speaker@,
    }
}

/// What [`merge_diarization`] promises: same timing, same text, same
/// order, and each segment labeled with its assigned span's speaker.
pub open spec fn merge_post(t: Transcript, spans: Seq<DiarizeSegment>, r: Transcript) -> bool {
    &&& r.processing_time_sec == t.processing_time_sec
    &&& r.segments@.len() == t.segments@.len()
    &&& forall|i: int|
        0 <= i < t.segments@.len() ==> merged_segment(
            t.segments@[i],
            spans,
            #[trigger] r.segments@[i],
        )
}

/// Checks that every span the diarization collaborator returned is well
/// formed; malformed spans make the whole diarization output unusable.
pub fn validate_spans(spans: &Vec<DiarizeSegment>) -> (ok: bool)
    ensures
        ok == spans_wf(spans@),
{
    let n = spans.len();
    let mut i: usize = 0;
    while i < n
        invariant
            n == spans@.len(),
            0 <= i <= n,
            forall|k: int| 0 <= k < i ==> (#[trigger] spans@[k]).wf(),
        decreases n - i,
    {
        let s = &spans[i];
        if !(0 <= s.start && s.start <= s.stop) {
            return false;
        }
        i = i + 1;
    }
    true
}

/// Assigns each transcript segment the speaker of the diarization span
/// with the greatest temporal overlap.
///
/// Tie-break: when two spans overlap a segment equally, the
/// earliest-listed span wins; with spans ordered by start time, that is
/// the span that starts first. A segment no span overlaps keeps its
/// speaker label unchanged.
pub fn merge_diarization(transcript: Transcript, spans: &Vec<DiarizeSegment>) -> (r: Transcript)
    requires
        segments_wf(transcript.segments@),
        spans_wf(spans@),
    ensures
        merge_post(transcript, spans@, r),
        segments_wf(r.segments@),
        transcript.wf() ==> r.wf(),
{
    let n = transcript.segments.len();
    let n_spans = spans.len();
    let mut out: Vec<Segment> = Vec::new();
    let mut i: usize = 0;
    while i < n
        invariant
            n == transcript.segments@.len(),
            n_spans == spans@.len(),
            segments_wf(transcript.segments@),
            spans_wf(spans@),
            0 <= i <= n,
            out@.len() == i,
            forall|k: int|
                0 <= k < i ==> merged_segment(transcript.segments@[k], spans@, #[trigger] out@[k]),
        decreases n - i,
    {
        let seg = &transcript.segments[i];
        let mut best: Option<usize> = None;
        let mut best_ov: i64 = 0;
        let mut j: usize = 0;
        while j < n_spans
            invariant
                n_spans == spans@.len(),
                n == transcript.segments@.len(),
                segments_wf(transcript.segments@),
                spans_wf(spans@),
                0 <= i < n,
                seg == &transcript.segments@[i as int],
                0 <= j <= n_spans,
                best is None ==> best_span_upto(*seg, spans@, j as int) is None && best_ov == 0,
                best matches Some(b) ==> best_span_upto(*seg, spans@, j as int) == Some(b as int)
                    && b < j && best_ov == overlap(*seg, spans@[b as int]),
            decreases n_spans - j,
        {
            let span = &spans[j];
            let lo: i64 = if seg.start >= span.start {
                seg.start
            } else {
                span.start
            };
            let hi: i64 = if seg.stop <= span.stop {
                seg.stop
            } else {
                span.stop
            };
            let ov: i64 = if hi > lo {
                hi - lo
            } else {
                0
            };
            assert(ov == overlap(*seg, spans@[j as int]));
            if ov > best_ov {
                best = Some(j);
                best_ov = ov;
            }
            j = j + 1;
        }
        let speaker: Option<String> = match best {
            Some(b) => Some(spans[b].speaker.clone()),
            None => match &seg.speaker {
                Some(s) => Some(s.clone()),
                None => None,
            },
        };
        out.push(
            Segment { text: seg.text.clone(), start: seg.start, stop: seg.stop, speaker },
        );
        i = i + 1;
    }
    let r = Transcript { segments: out, processing_time_sec: transcript.processing_time_sec };
    assert forall|k: int, l: int|
        0 <= k <= l < r.segments@.len() implies #[trigger] r.segments@[k].start
        <= #[trigger] r.segments@[l].start by {
        assert(merged_segment(transcript.segments@[k], spans@, r.segments@[k]));
        assert(merged_segment(transcript.segments@[l], spans@, r.segments@[l]));
    }
    assert forall|k: int| 0 <= k < r.segments@.len() implies (#[trigger] r.segments@[k]).wf() by {
        assert(merged_segment(transcript.segments@[k], spans@, r.segments@[k]));
        assert(transcript.segments@[k].wf());
    }
    r
}

} // verus!
