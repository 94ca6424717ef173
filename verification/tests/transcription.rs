use ext_whisper::error::ExceptionClass;
use ext_whisper::transcription::{RawSegment, Segment, Transcription};

fn seg(start_cs: i64, end_cs: i64, text: &str) -> Segment {
    Segment { start_cs, end_cs, text: text.to_string() }
}

#[test]
fn text_joins_trimmed_segments_with_single_spaces() {
    let t = Transcription::from_segments(vec![
        seg(0, 150, "  And so my fellow Americans, "),
        seg(150, 300, "   "),
        seg(300, 420, "\task not\n"),
    ]);
    assert_eq!(t.text(), "And so my fellow Americans, ask not");
    assert_eq!(t.count(), 3);
    assert_eq!(t.duration_cs(), 420);
}

#[test]
fn empty_transcription_has_no_text_and_zero_duration() {
    let t = Transcription::from_segments(vec![]);
    assert_eq!(t.text(), "");
    assert_eq!(t.count(), 0);
    assert_eq!(t.duration_cs(), 0);
}

#[test]
fn unicode_whitespace_is_trimmed() {
    let t = Transcription::from_segments(vec![seg(0, 10, "\u{3000}hello\u{a0}"), seg(10, 20, "\u{2003}world")]);
    assert_eq!(t.text(), "hello world");
}

#[test]
fn transcript_matches_segments_modulo_whitespace() {
    let parts = [" a b", "", "  c ", "d\t"];
    let t = Transcription::from_segments(
        parts.iter().enumerate().map(|(i, p)| seg(i as i64, i as i64 + 1, p)).collect(),
    );
    let strip = |s: &str| s.chars().filter(|c| !c.is_whitespace()).collect::<String>();
    assert_eq!(strip(&t.text()), strip(&parts.concat()));
    assert_eq!(t.text(), t.text().trim());
}

#[test]
fn segments_keep_their_offsets_and_order() {
    let t = Transcription::from_segments(vec![seg(0, 110, "one"), seg(110, 237, " two")]);
    let rows: Vec<(i64, i64, String)> =
        t.segments().iter().map(|s| (s.start_cs, s.end_cs, s.text.clone())).collect();
    assert_eq!(rows, vec![(0, 110, "one".to_string()), (110, 237, " two".to_string())]);
}

#[test]
fn whisper_segments_build_the_transcription() {
    let raw = vec![RawSegment::Read(seg(0, 100, " hi")), RawSegment::Read(seg(100, 250, " there "))];
    let t = Transcription::from_whisper_segments(&raw).unwrap();
    assert_eq!(t.text(), "hi there");
    assert_eq!(t.count(), 2);
    assert_eq!(t.duration_cs(), 250);
}

#[test]
fn vanished_segment_fails_with_its_index() {
    let raw = vec![
        RawSegment::Read(seg(0, 100, "hi")),
        RawSegment::Read(seg(100, 200, "x")),
        RawSegment::Missing,
        RawSegment::TextUnreadable("bad utf8".to_string()),
    ];
    let err = Transcription::from_whisper_segments(&raw).unwrap_err();
    assert_eq!(err.message(), "transcription failed: segment 2 vanished mid-read");
    assert_eq!(err.exception_class(), ExceptionClass::TranscriptionException);
}

#[test]
fn unreadable_segment_text_fails_with_reason() {
    let mut raw: Vec<RawSegment> = (0..12).map(|i| RawSegment::Read(seg(i, i + 1, "w"))).collect();
    raw.push(RawSegment::TextUnreadable("invalid utf-8".to_string()));
    let err = Transcription::from_whisper_segments(&raw).unwrap_err();
    assert_eq!(err.message(), "transcription failed: segment 12 text read failed: invalid utf-8");
}

#[test]
fn direct_construction_is_refused() {
    let err = Transcription::__construct().err().unwrap();
    assert_eq!(
        err.message(),
        "Displace\\Whisper\\Transcription is produced by Model::transcribe(); do not instantiate directly"
    );
    assert_eq!(err.exception_class(), ExceptionClass::WhisperException);
}
