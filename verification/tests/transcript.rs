use transcribe_core::error::ErrorKind;
use transcribe_core::transcript::{Segment, assemble};

fn seg(text: &str, start: i64, stop: i64) -> Segment {
    Segment { text: String::from(text), start, stop, speaker: None }
}

#[test]
fn zero_segments_are_a_failure_not_an_empty_transcript() {
    let r = assemble(Vec::new(), 3);
    assert_eq!(r.unwrap_err().kind(), ErrorKind::EmptyResultError);
}

#[test]
fn a_successful_assembly_keeps_order_text_and_timing() {
    let t = assemble(vec![seg("a", 0, 10), seg("b", 10, 25), seg("c", 25, 25)], 7).unwrap();
    assert_eq!(t.processing_time_sec, 7);
    assert_eq!(t.segments.len(), 3);
    assert_eq!(t.segments[0].text, "a");
    assert_eq!(t.segments[1].text, "b");
    assert_eq!(t.segments[2].text, "c");
    assert!(t.segments.len() >= 1);
    for s in &t.segments {
        assert!(s.start <= s.stop);
        assert!(s.speaker.is_none());
    }
    for w in t.segments.windows(2) {
        assert!(w[0].start <= w[1].start);
    }
}

#[test]
fn one_segment_is_enough() {
    let t = assemble(vec![seg("only", 5, 5)], 0).unwrap();
    assert_eq!(t.segments.len(), 1);
    assert_eq!(t.processing_time_sec, 0);
}

#[test]
fn a_segment_ending_before_it_starts_is_an_extraction_failure() {
    let r = assemble(vec![seg("a", 10, 4)], 0);
    assert_eq!(r.unwrap_err().kind(), ErrorKind::ExtractionError);
}

#[test]
fn a_negative_start_offset_is_an_extraction_failure() {
    let r = assemble(vec![seg("a", -1, 4)], 0);
    assert_eq!(r.unwrap_err().kind(), ErrorKind::ExtractionError);
}

#[test]
fn segments_out_of_chronological_order_are_an_extraction_failure() {
    let r = assemble(vec![seg("b", 10, 20), seg("a", 0, 10)], 0);
    assert_eq!(r.unwrap_err().kind(), ErrorKind::ExtractionError);
}

#[test]
fn equal_starts_are_in_order() {
    let t = assemble(vec![seg("a", 4, 8), seg("b", 4, 9)], 1).unwrap();
    assert_eq!(t.segments.len(), 2);
}
