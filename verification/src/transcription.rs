//! The result of a transcription run: the full transcript plus whisper's
//! time-aligned segments, timestamps in whisper's native centiseconds.
use vstd::prelude::*;

use crate::error::{WhisperError, WhisperErrorView};
use crate::text::{
    decimal, decimal_string, is_white_space, lemma_strip_concat, lemma_strip_one, lemma_strip_trim,
    lemma_trim_edges, lemma_trim_of_trimmed, strip_white_space, trim, trim_str,
};

verus! {

/// One time-aligned segment.
#[derive(Debug)]
pub struct Segment {
    /// Start offset, in centiseconds.
    pub start_cs: i64,
    /// End offset, in centiseconds.
    pub end_cs: i64,
    /// The segment's text, as whisper produced it.
    pub text: String,
}

/// The mathematical value of a [`Segment`].
pub struct SegmentView {
    pub start_cs: i64,
    pub end_cs: i64,
    pub text: Seq<char>,
}

impl View for Segment {
    type V = SegmentView;

    open spec fn view(&self) -> SegmentView {
        SegmentView { start_cs: self.start_cs, end_cs: self.end_cs, text: self.text@ }
    }
}

/// The views of `segments`.
pub open spec fn segment_views(segments: Seq<Segment>) -> Seq<SegmentView> {
    segments.map_values(|s: Segment| s@)
}

/// The texts of `segments`, in order.
pub open spec fn texts(segments: Seq<SegmentView>) -> Seq<Seq<char>> {
    segments.map_values(|s: SegmentView| s.text)
}

/// The texts of `ts`, trimmed, without those that trim to nothing.
pub open spec fn kept(ts: Seq<Seq<char>>) -> Seq<Seq<char>>
    decreases ts.len(),
{
    if ts.len() == 0 {
        Seq::empty()
    } else {
        let k = kept(ts.drop_last());
        if trim(ts.last()).len() > 0 {
            k.push(trim(ts.last()))
        } else {
            k
        }
    }
}

/// `parts` joined with single spaces.
pub open spec fn join_words(parts: Seq<Seq<char>>) -> Seq<char>
    decreases parts.len(),
{
    if parts.len() == 0 {
        Seq::empty()
    } else if parts.len() == 1 {
        parts[0]
    } else {
        join_words(parts.drop_last()) + " "@ + parts.last()
    }
}

/// The transcript of segments with texts `ts`: each text trimmed, the empty
/// ones dropped, the rest joined in order with single spaces.
pub open spec fn transcript_text(ts: Seq<Seq<char>>) -> Seq<char> {
    join_words(kept(ts))
}

/// The texts `ts` concatenated as they are.
pub open spec fn concat_all(ts: Seq<Seq<char>>) -> Seq<char>
    decreases ts.len(),
{
    if ts.len() == 0 {
        Seq::empty()
    } else {
        concat_all(ts.drop_last()) + ts.last()
    }
}

/// The texts `ts` concatenated, each with its whitespace removed.
spec fn stripped_concat(ts: Seq<Seq<char>>) -> Seq<char>
    decreases ts.len(),
{
    if ts.len() == 0 {
        Seq::empty()
    } else {
        stripped_concat(ts.drop_last()) + strip_white_space(ts.last())
    }
}

proof fn lemma_strip_join(parts: Seq<Seq<char>>)
    ensures
        strip_white_space(join_words(parts)) == stripped_concat(parts),
    decreases parts.len(),
{
    if parts.len() == 1 {
        assert(parts.drop_last() =~= Seq::<Seq<char>>::empty());
        assert(parts.last() == parts[0]);
        assert(stripped_concat(parts.drop_last()) == Seq::<char>::empty());
        assert(Seq::<char>::empty() + strip_white_space(parts[0]) =~= strip_white_space(parts[0]));
    } else if parts.len() > 1 {
        lemma_strip_join(parts.drop_last());
        let j = join_words(parts.drop_last());
        lemma_strip_concat(j + " "@, parts.last());
        lemma_strip_concat(j, " "@);
        assert(strip_white_space(" "@) == Seq::<char>::empty()) by {
            reveal_strlit(" ");
            assert(" "@ =~= seq![' ']);
            lemma_strip_one(' ');
        }
        assert(strip_white_space(j) + Seq::<char>::empty() =~= strip_white_space(j));
    }
}

proof fn lemma_stripped_kept(ts: Seq<Seq<char>>)
    ensures
        stripped_concat(kept(ts)) == strip_white_space(concat_all(ts)),
    decreases ts.len(),
{
    if ts.len() > 0 {
        let init = ts.drop_last();
        lemma_stripped_kept(init);
        lemma_strip_concat(concat_all(init), ts.last());
        lemma_strip_trim(ts.last());
        let k = kept(init);
        if trim(ts.last()).len() > 0 {
            assert(k.push(trim(ts.last())).drop_last() =~= k);
        } else {
            assert(trim(ts.last()) =~= Seq::<char>::empty());
            assert(strip_white_space(trim(ts.last())) == Seq::<char>::empty());
            assert(stripped_concat(k) + Seq::<char>::empty() =~= stripped_concat(k));
        }
    } else {
        assert(strip_white_space(Seq::<char>::empty()) == Seq::<char>::empty());
    }
}

/// The transcript equals the segments' texts concatenated, modulo
/// whitespace: removing all whitespace from both gives the same characters.
pub proof fn lemma_transcript_is_segments_modulo_white_space(ts: Seq<Seq<char>>)
    ensures
        strip_white_space(transcript_text(ts)) == strip_white_space(concat_all(ts)),
{
    lemma_strip_join(kept(ts));
    lemma_stripped_kept(ts);
}

/// Every part `kept` gives is nonempty and neither starts nor ends with
/// whitespace.
proof fn lemma_kept_parts(ts: Seq<Seq<char>>)
    ensures
        forall|i: int|
            0 <= i < kept(ts).len() ==> {
                &&& #[trigger] kept(ts)[i].len() > 0
                &&& !is_white_space(kept(ts)[i][0])
                &&& !is_white_space(kept(ts)[i].last())
            },
    decreases ts.len(),
{
    if ts.len() > 0 {
        lemma_kept_parts(ts.drop_last());
        lemma_trim_edges(ts.last());
        let k = kept(ts.drop_last());
        if trim(ts.last()).len() > 0 {
            assert forall|i: int| 0 <= i < kept(ts).len() implies {
                &&& #[trigger] kept(ts)[i].len() > 0
                &&& !is_white_space(kept(ts)[i][0])
                &&& !is_white_space(kept(ts)[i].last())
            } by {
                if i < k.len() {
                    assert(kept(ts)[i] == k[i]);
                } else {
                    assert(kept(ts)[i] == trim(ts.last()));
                }
            }
        }
    }
}

proof fn lemma_join_edges(parts: Seq<Seq<char>>)
    requires
        forall|i: int|
            0 <= i < parts.len() ==> {
                &&& #[trigger] parts[i].len() > 0
                &&& !is_white_space(parts[i][0])
                &&& !is_white_space(parts[i].last())
            },
    ensures
        parts.len() == 0 ==> join_words(parts).len() == 0,
        parts.len() > 0 ==> join_words(parts).len() > 0 && !is_white_space(join_words(parts)[0])
            && !is_white_space(join_words(parts).last()),
    decreases parts.len(),
{
    if parts.len() > 1 {
        let init = parts.drop_last();
        assert forall|i: int| 0 <= i < init.len() implies {
            &&& #[trigger] init[i].len() > 0
            &&& !is_white_space(init[i][0])
            &&& !is_white_space(init[i].last())
        } by {
            assert(init[i] == parts[i]);
        }
        lemma_join_edges(init);
        let j = join_words(init);
        let l = parts.last();
        assert(parts[parts.len() - 1] == l);
        assert((j + " "@ + l)[0] == j[0]);
        assert((j + " "@ + l).last() == l.last());
    } else if parts.len() == 1 {
        assert(parts[0].len() > 0);
    }
}

/// The transcript neither starts nor ends with whitespace: it is its own
/// trim.
pub proof fn lemma_transcript_is_trimmed(ts: Seq<Seq<char>>)
    ensures
        trim(transcript_text(ts)) == transcript_text(ts),
{
    lemma_kept_parts(ts);
    lemma_join_edges(kept(ts));
    lemma_trim_of_trimmed(transcript_text(ts));
}

/// Appending a segment to a transcription extends its transcript: a
/// segment that trims to nothing leaves it as it was; otherwise its trimmed
/// text becomes the whole transcript when there was none, and is added after
/// exactly one space when there was one. So kept parts `p0 .. pk` give
/// `p0 + " " + p1 + " " + ... + " " + pk`.
pub proof fn lemma_transcript_push(ts: Seq<Seq<char>>, t: Seq<char>)
    ensures
        trim(t).len() == 0 ==> transcript_text(ts.push(t)) == transcript_text(ts),
        trim(t).len() > 0 && transcript_text(ts).len() == 0 ==> transcript_text(ts.push(t)) == trim(
            t,
        ),
        trim(t).len() > 0 && transcript_text(ts).len() > 0 ==> transcript_text(ts.push(t))
            == transcript_text(ts) + seq![' '] + trim(t),
{
    let u = ts.push(t);
    assert(u.drop_last() =~= ts);
    assert(u.last() == t);
    let k = kept(ts);
    lemma_kept_parts(ts);
    lemma_join_edges(k);
    if trim(t).len() > 0 {
        assert(kept(u) == k.push(trim(t)));
        assert(k.push(trim(t)).drop_last() =~= k);
        if k.len() == 0 {
            assert(k.push(trim(t))[0] == trim(t));
        } else {
            assert(" "@ =~= seq![' ']) by {
                reveal_strlit(" ");
            }
        }
    }
}

/// A transcription without segments has an empty transcript.
pub proof fn lemma_transcript_empty()
    ensures
        transcript_text(Seq::<Seq<char>>::empty()) == Seq::<char>::empty(),
{
}

/// Result of a transcription run. Read-only; its text is always the
/// transcript of its segments.
#[derive(Debug)]
pub struct Transcription {
    text: String,
    segments: Vec<Segment>,
}

impl View for Transcription {
    type V = Seq<SegmentView>;

    closed spec fn view(&self) -> Seq<SegmentView> {
        segment_views(self.segments@)
    }
}

impl Transcription {
    #[verifier::type_invariant]
    closed spec fn text_matches(self) -> bool {
        self.text@ == transcript_text(texts(segment_views(self.segments@)))
    }

    /// Refuses direct construction: a transcription is only ever the result
    /// of a run.
    pub fn __construct() -> (res: Result<Self, WhisperError>)
        ensures
            res matches Err(e) && e@ == WhisperErrorView::InvalidConstruction(
                "Displace\\Whisper\\Transcription is produced by Model::transcribe(); do not instantiate directly"@,
            ),
    {
        Err(
            WhisperError::InvalidConstruction(
                String::from_str(
                    "Displace\\Whisper\\Transcription is produced by Model::transcribe(); do not instantiate directly",
                ),
            ),
        )
    }

    /// Builds the transcription of `segments`, in order.
    pub fn from_segments(segments: Vec<Segment>) -> (t: Self)
        ensures
            t@ == segment_views(segments@),
    {
        let ghost ts = texts(segment_views(segments@));
        let mut text = String::new();
        let mut any = false;
        let n = segments.len();
        for i in 0..n
            invariant
                n == segments@.len(),
                ts == texts(segment_views(segments@)),
                text@ == join_words(kept(ts.take(i as int))),
                any == (kept(ts.take(i as int)).len() > 0),
        {
            let t = trim_str(segments[i].text.as_str());
            proof {
                assert(ts.take(i + 1).drop_last() =~= ts.take(i as int));
                assert(ts.take(i + 1).last() == segments@[i as int].text@);
            }
            if t.as_str().unicode_len() > 0 {
                let ghost k = kept(ts.take(i as int));
                proof {
                    assert(kept(ts.take(i + 1)) == k.push(t@));
                    assert(k.push(t@).drop_last() =~= k);
                }
                if any {
                    text.append(" ");
                } else {
                    assert(text@ =~= Seq::<char>::empty());
                    assert(text@ + t@ =~= t@);
                }
                text.append(t.as_str());
                any = true;
            }
        }
        proof {
            assert(ts.take(n as int) =~= ts);
        }
        Transcription { text, segments }
    }

    /// The full transcript: the segments' texts trimmed, empty ones dropped,
    /// joined in order with single spaces.
    pub fn text(&self) -> (t: String)
        ensures
            t@ == transcript_text(texts(self@)),
    {
        proof {
            use_type_invariant(self);
        }
        self.text.clone()
    }

    /// The time-aligned segments, in order.
    pub fn segments(&self) -> (s: &Vec<Segment>)
        ensures
            segment_views(s@) == self@,
    {
        &self.segments
    }

    /// Number of segments.
    pub fn count(&self) -> (n: usize)
        ensures
            n == self@.len(),
    {
        self.segments.len()
    }

    /// End offset of the last segment, in centiseconds: the transcribed
    /// duration; 0 without segments.
    pub fn duration_cs(&self) -> (d: i64)
        ensures
            d == (if self@.len() == 0 {
                0
            } else {
                self@.last().end_cs
            }),
    {
        let n = self.segments.len();
        if n == 0 {
            0
        } else {
            self.segments[n - 1].end_cs
        }
    }

    /// Builds the transcription from what reading whisper's segments back
    /// gave, index by index; the first segment that could not be read makes
    /// the run fail, naming its index.
    pub fn from_whisper_segments(raw: &Vec<RawSegment>) -> (res: Result<Self, WhisperError>)
        ensures
            transcription_view(res) == collect_segments(raw_views(raw@), 0),
    {
        let n = raw.len();
        let mut segments: Vec<Segment> = Vec::new();
        for i in 0..n
            invariant
                n == raw@.len(),
                prefix_segments(segment_views(segments@), collect_segments(raw_views(raw@), i as nat))
                    == collect_segments(raw_views(raw@), 0),
        {
            proof {
                assert(raw_views(raw@)[i as int] == raw@[i as int]@);
            }
            match &raw[i] {
                RawSegment::Missing => {
                    let mut m = String::from_str("segment ");
                    let d = decimal_string(i as u64);
                    m.append(d.as_str());
                    m.append(" vanished mid-read");
                    return Err(WhisperError::Transcription(m));
                },
                RawSegment::TextUnreadable(reason) => {
                    let mut m = String::from_str("segment ");
                    let d = decimal_string(i as u64);
                    m.append(d.as_str());
                    m.append(" text read failed: ");
                    m.append(reason.as_str());
                    return Err(WhisperError::Transcription(m));
                },
                RawSegment::Read(s) => {
                    let seg = Segment { start_cs: s.start_cs, end_cs: s.end_cs, text: s.text.clone() };
                    proof {
                        let before = segment_views(segments@);
                        match collect_segments(raw_views(raw@), (i + 1) as nat) {
                            Ok(rest) => {
                                assert(before + (seq![seg@] + rest) =~= before.push(seg@) + rest);
                            },
                            Err(_) => {},
                        }
                    }
                    let ghost before = segments@;
                    segments.push(seg);
                    proof {
                        assert(segment_views(segments@) =~= segment_views(before).push(seg@));
                    }
                },
            }
        }
        proof {
            assert(segment_views(segments@) + Seq::<SegmentView>::empty() =~= segment_views(segments@));
        }
        Ok(Transcription::from_segments(segments))
    }
}

/// What reading one of whisper's segments back gave.
#[derive(Debug)]
pub enum RawSegment {
    /// whisper reported no segment at the index.
    Missing,
    /// The segment's text could not be read; the reason.
    TextUnreadable(String),
    /// The segment.
    Read(Segment),
}

/// The mathematical value of a [`RawSegment`].
pub enum RawSegmentView {
    Missing,
    TextUnreadable(Seq<char>),
    Read(SegmentView),
}

impl View for RawSegment {
    type V = RawSegmentView;

    open spec fn view(&self) -> RawSegmentView {
        match self {
            RawSegment::Missing => RawSegmentView::Missing,
            RawSegment::TextUnreadable(r) => RawSegmentView::TextUnreadable(r@),
            RawSegment::Read(s) => RawSegmentView::Read(s@),
        }
    }
}

/// The views of `raw`.
pub open spec fn raw_views(raw: Seq<RawSegment>) -> Seq<RawSegmentView> {
    raw.map_values(|r: RawSegment| r@)
}

/// The segments read from index `i` on, or the failure at the first index
/// from `i` on whose segment could not be read.
pub open spec fn collect_segments(raw: Seq<RawSegmentView>, i: nat) -> Result<
    Seq<SegmentView>,
    WhisperErrorView,
>
    decreases raw.len() - i,
{
    if i >= raw.len() {
        Ok(Seq::empty())
    } else {
        match raw[i as int] {
            RawSegmentView::Missing => Err(
                WhisperErrorView::Transcription("segment "@ + decimal(i) + " vanished mid-read"@),
            ),
            RawSegmentView::TextUnreadable(r) => Err(
                WhisperErrorView::Transcription(
                    "segment "@ + decimal(i) + " text read failed: "@ + r,
                ),
            ),
            RawSegmentView::Read(s) => match collect_segments(raw, i + 1) {
                Ok(rest) => Ok(seq![s] + rest),
                Err(e) => Err(e),
            },
        }
    }
}

/// When every segment from index `i` on reads back, the result is exactly
/// those segments, in whisper's order.
pub proof fn lemma_readable_segments_kept_in_order(raw: Seq<RawSegmentView>, i: nat)
    requires
        i <= raw.len(),
        forall|k: int| i <= k < raw.len() ==> #[trigger] raw[k] is Read,
    ensures
        collect_segments(raw, i) == Ok::<Seq<SegmentView>, WhisperErrorView>(
            raw.subrange(i as int, raw.len() as int).map_values(|r: RawSegmentView| r->Read_0),
        ),
    decreases raw.len() - i,
{
    let all = raw.subrange(i as int, raw.len() as int).map_values(|r: RawSegmentView| r->Read_0);
    if i < raw.len() {
        lemma_readable_segments_kept_in_order(raw, (i + 1) as nat);
        let rest = raw.subrange(i + 1int, raw.len() as int).map_values(|r: RawSegmentView| r->Read_0);
        assert(raw[i as int] is Read);
        assert(all =~= seq![raw[i as int]->Read_0] + rest);
    } else {
        assert(all =~= Seq::<SegmentView>::empty());
    }
}

/// The failure of the first segment that could not be read, at index `k`,
/// is the outcome, whatever follows it: it names that index in decimal,
/// and for an unreadable text also the reason.
pub proof fn lemma_first_unreadable_segment_fails(raw: Seq<RawSegmentView>, i: nat, k: nat)
    requires
        i <= k < raw.len(),
        forall|j: int| i <= j < k ==> #[trigger] raw[j] is Read,
        !(raw[k as int] is Read),
    ensures
        collect_segments(raw, i) == Err::<Seq<SegmentView>, WhisperErrorView>(
            match raw[k as int] {
                RawSegmentView::TextUnreadable(r) => WhisperErrorView::Transcription(
                    "segment "@ + decimal(k) + " text read failed: "@ + r,
                ),
                _ => WhisperErrorView::Transcription(
                    "segment "@ + decimal(k) + " vanished mid-read"@,
                ),
            },
        ),
    decreases k - i,
{
    if i < k {
        assert(raw[i as int] is Read);
        lemma_first_unreadable_segment_fails(raw, (i + 1) as nat, k);
    }
}

/// `done` followed by the segments of `rest`, or the failure of `rest`.
pub open spec fn prefix_segments(
    done: Seq<SegmentView>,
    rest: Result<Seq<SegmentView>, WhisperErrorView>,
) -> Result<Seq<SegmentView>, WhisperErrorView> {
    match rest {
        Ok(ss) => Ok(done + ss),
        Err(e) => Err(e),
    }
}

/// A result with the transcription and the error by view.
pub open spec fn transcription_view(r: Result<Transcription, WhisperError>) -> Result<
    Seq<SegmentView>,
    WhisperErrorView,
> {
    match r {
        Ok(t) => Ok(t@),
        Err(e) => Err(e@),
    }
}

} // verus!
