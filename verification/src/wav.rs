//! Strict WAV ingestion: 16kHz, mono, 16-bit PCM, exactly what
//! whisper.cpp's encoder consumes, nothing else.
//!
//! Accepting one shape only is deliberate: every accepted-but-resampled
//! format hides a quality decision the caller should own. The error messages
//! carry the exact ffmpeg invocation that produces a conforming file.
//!
//! The RIFF/WAVE container is read by `hound`; this module decides what is
//! accepted and what each refusal says.
use vstd::prelude::*;

use crate::error::{WhisperError, WhisperErrorView};
use crate::text::{decimal, decimal_string};

verus! {

#[verifier::external_type_specification]
#[verifier::external_body]
#[verifier::reject_recursive_types(R)]
pub struct ExWavReader<R>(hound::WavReader<R>);

/// Whether the stored samples are integers or IEEE floats.
#[derive(Debug, Clone, Copy, PartialEq, Eq, Structural)]
pub enum SampleFormat {
    Float,
    Int,
}

/// The properties of a WAV stream's audio data, as its `fmt ` chunk gives
/// them.
#[derive(Debug, Clone, Copy, PartialEq, Eq, Structural)]
pub struct WavSpec {
    pub channels: u16,
    pub sample_rate: u32,
    pub bits_per_sample: u16,
    pub sample_format: SampleFormat,
}

impl WavSpec {
    /// The header as a tuple: channels, sample rate, bits per sample, and
    /// whether the samples are floats.
    pub open spec fn header(self) -> (u16, u32, u16, bool) {
        (self.channels, self.sample_rate, self.bits_per_sample, self.sample_format == SampleFormat::Float)
    }
}

/// What hound makes of `bytes`: either the message of the error
/// `hound::WavReader::new` returns, or the header of the stream it opens
/// together with the results, in order, that the reader's sample iterator
/// (`WavReader::samples::<i16>`, `Iterator::next`) yields one by one until it
/// is exhausted (a sample, or the message of the error that reading it gave).
/// Two hound functions stand behind this one name: opening the stream, and
/// the run of sample reads over it.
pub uninterp spec fn wav_decode_i16(bytes: Seq<u8>) -> Result<
    ((u16, u32, u16, bool), Seq<Result<i16, Seq<char>>>),
    Seq<char>,
>;

/// The header a `hound::WavReader` over in-memory bytes reports.
pub uninterp spec fn wav_reader_header(reader: hound::WavReader<&[u8]>) -> (u16, u32, u16, bool);

/// The results a `hound::WavReader` over in-memory bytes has yet to yield
/// when its samples are read as `i16`, in order.
pub uninterp spec fn wav_reader_pending(reader: hound::WavReader<&[u8]>) -> Seq<
    Result<i16, Seq<char>>,
>;

/// A read result with its error message as characters.
pub open spec fn read_view(r: Result<i16, String>) -> Result<i16, Seq<char>> {
    match r {
        Ok(v) => Ok(v),
        Err(e) => Err(e@),
    }
}

/// Opens a WAV stream held in memory with `hound::WavReader::new`, which
/// reads the RIFF header and the chunks up to the data chunk. Claimed: the
/// outcome is `wav_decode_i16` of the bytes; on success the reader reports
/// that header and has that sequence of sample reads ahead of it; an error
/// is rendered with its `Display`.
#[verifier::external_body]
fn wav_open<'a>(bytes: &'a [u8]) -> (res: Result<hound::WavReader<&'a [u8]>, String>)
    ensures
        match wav_decode_i16(bytes@) {
            Err(m) => res matches Err(e) && e@ == m,
            Ok((header, reads)) => res matches Ok(r) && wav_reader_header(r) == header
                && wav_reader_pending(r) == reads,
        },
{
    match hound::WavReader::new(bytes) {
        Ok(r) => Ok(r),
        Err(e) => Err(e.to_string()),
    }
}

/// The header of the stream, from `hound::WavReader::spec`. Claimed: it is
/// the header the reader reports, field by field.
#[verifier::external_body]
fn wav_header(reader: &hound::WavReader<&[u8]>) -> (format: WavSpec)
    ensures
        format.header() == wav_reader_header(*reader),
{
    let s = reader.spec();
    WavSpec {
        channels: s.channels,
        sample_rate: s.sample_rate,
        bits_per_sample: s.bits_per_sample,
        sample_format: match s.sample_format {
            hound::SampleFormat::Float => SampleFormat::Float,
            hound::SampleFormat::Int => SampleFormat::Int,
        },
    }
}

/// Reads the next sample as `i16` through `hound::WavReader::samples` (the
/// iterator continues where the previous one stopped). Claimed: with no read
/// left it yields `None` and changes nothing; otherwise it yields the first
/// pending result (an error by its `Display`) and drops it from the pending
/// ones; the header never changes.
#[verifier::external_body]
fn wav_next_sample(reader: &mut hound::WavReader<&[u8]>) -> (res: Option<Result<i16, String>>)
    ensures
        wav_reader_header(*final(reader)) == wav_reader_header(*old(reader)),
        wav_reader_pending(*old(reader)).len() == 0 ==> res is None && wav_reader_pending(
            *final(reader),
        ) == wav_reader_pending(*old(reader)),
        wav_reader_pending(*old(reader)).len() > 0 ==> res is Some && read_view(res->Some_0)
            == wav_reader_pending(*old(reader))[0] && wav_reader_pending(*final(reader))
            == wav_reader_pending(*old(reader)).drop_first(),
{
    match reader.samples::<i16>().next() {
        None => None,
        Some(Ok(v)) => Some(Ok(v)),
        Some(Err(e)) => Some(Err(e.to_string())),
    }
}

/// What a caller found at the audio path.
pub enum FileContents {
    /// The path is not a regular file.
    NotAFile,
    /// The file exists but could not be read; the reason.
    Unreadable(String),
    /// The bytes of the file.
    Bytes(Vec<u8>),
}

/// The mathematical value of [`FileContents`].
pub enum FileContentsView {
    NotAFile,
    Unreadable(Seq<char>),
    Bytes(Seq<u8>),
}

impl View for FileContents {
    type V = FileContentsView;

    open spec fn view(&self) -> FileContentsView {
        match self {
            FileContents::NotAFile => FileContentsView::NotAFile,
            FileContents::Unreadable(r) => FileContentsView::Unreadable(r@),
            FileContents::Bytes(b) => FileContentsView::Bytes(b@),
        }
    }
}

/// The ffmpeg one-liner embedded in every audio refusal.
pub const FFMPEG_HINT: &'static str = "convert with: ffmpeg -i input.ext -ar 16000 -ac 1 -c:a pcm_s16le out.wav";

/// `m` followed by the ffmpeg one-liner that produces a conforming file.
pub open spec fn with_hint(m: Seq<char>) -> Seq<char> {
    m + " \u{2014} "@ + FFMPEG_HINT@
}

/// The message of the format error of a stream with header `h` at `path`,
/// if its header is not 16kHz mono 16-bit integer PCM. Channels are checked
/// first, then the rate, then the sample encoding.
pub open spec fn format_error(path: Seq<char>, h: (u16, u32, u16, bool)) -> Option<Seq<char>> {
    if h.0 != 1 {
        Some(with_hint(path + ": expected mono audio, got "@ + decimal(h.0 as nat) + " channels"@))
    } else if h.1 != 16000 {
        Some(
            with_hint(
                path + ": expected a 16000Hz sample rate, got "@ + decimal(h.1 as nat) + "Hz"@,
            ),
        )
    } else if h.3 || h.2 != 16 {
        Some(
            with_hint(
                path + ": expected 16-bit PCM samples, got "@ + decimal(h.2 as nat) + "-bit "@ + (
                if h.3 {
                    "float"@
                } else {
                    "integer"@
                }),
            ),
        )
    } else {
        None
    }
}

/// The samples of a sequence of reads, or the first read error.
pub open spec fn decode_all(reads: Seq<Result<i16, Seq<char>>>) -> Result<Seq<i16>, Seq<char>>
    decreases reads.len(),
{
    if reads.len() == 0 {
        Ok(Seq::empty())
    } else {
        match reads[0] {
            Err(e) => Err(e),
            Ok(v) => match decode_all(reads.drop_first()) {
                Ok(vs) => Ok(seq![v] + vs),
                Err(e) => Err(e),
            },
        }
    }
}

/// `done` followed by the samples of `rest`, or the error of `rest`.
pub open spec fn prefix_then(done: Seq<i16>, rest: Result<Seq<i16>, Seq<char>>) -> Result<
    Seq<i16>,
    Seq<char>,
> {
    match rest {
        Ok(vs) => Ok(done + vs),
        Err(e) => Err(e),
    }
}

/// The message for a file that could not be opened as WAV.
pub open spec fn unreadable_message(path: Seq<char>, reason: Seq<char>) -> Seq<char> {
    with_hint(path + ": not a readable WAV file ("@ + reason + ")"@)
}

/// The outcome of an opened stream at `path` with header `header` whose
/// sample reads gave `reads`: the format refusal, the first read error, the
/// refusal of an empty stream, or the samples.
pub open spec fn stream_outcome(
    path: Seq<char>,
    header: (u16, u32, u16, bool),
    reads: Seq<Result<i16, Seq<char>>>,
) -> Result<Seq<i16>, WhisperErrorView> {
    match format_error(path, header) {
        Some(m) => Err(WhisperErrorView::Audio(m)),
        None => match decode_all(reads) {
            Err(e) => Err(
                WhisperErrorView::Audio(
                    with_hint(path + ": truncated or corrupt WAV data ("@ + e + ")"@),
                ),
            ),
            Ok(samples) => if samples.len() == 0 {
                Err(WhisperErrorView::Audio(with_hint(path + ": WAV file contains no samples"@)))
            } else {
                Ok(samples)
            },
        },
    }
}

/// The outcome of reading `file`, found at `path`, as 16kHz mono 16-bit PCM
/// WAV: its samples, or the audio error and its message.
pub open spec fn read_16khz_mono_spec(path: Seq<char>, file: FileContentsView) -> Result<
    Seq<i16>,
    WhisperErrorView,
> {
    match file {
        FileContentsView::NotAFile => Err(
            WhisperErrorView::Audio(with_hint("no such file: "@ + path)),
        ),
        FileContentsView::Unreadable(reason) => Err(
            WhisperErrorView::Audio(unreadable_message(path, reason)),
        ),
        FileContentsView::Bytes(bytes) => match wav_decode_i16(bytes) {
            Err(reason) => Err(WhisperErrorView::Audio(unreadable_message(path, reason))),
            Ok((header, reads)) => stream_outcome(path, header, reads),
        },
    }
}

/// A result with its error by view.
pub open spec fn samples_view(r: Result<Vec<i16>, WhisperError>) -> Result<
    Seq<i16>,
    WhisperErrorView,
> {
    match r {
        Ok(v) => Ok(v@),
        Err(e) => Err(e@),
    }
}

/// The views of read results.
pub open spec fn read_views(reads: Seq<Result<i16, String>>) -> Seq<Result<i16, Seq<char>>> {
    reads.map_values(|r: Result<i16, String>| read_view(r))
}

/// `a` followed by `b`, `c` and `d`.
fn concat4(a: &str, b: &str, c: &str, d: &str) -> (s: String)
    ensures
        s@ == a@ + b@ + c@ + d@,
{
    let mut s = String::from_str(a);
    s.append(b);
    s.append(c);
    s.append(d);
    s
}

/// `m` followed by the ffmpeg one-liner.
fn hinted(mut m: String) -> (s: String)
    ensures
        s@ == with_hint(m@),
{
    m.append(" \u{2014} ");
    m.append(FFMPEG_HINT);
    m
}

/// The audio refusal with message `m`, followed by the ffmpeg one-liner.
fn refusal(m: String) -> (e: WhisperError)
    ensures
        e@ == WhisperErrorView::Audio(with_hint(m@)),
{
    WhisperError::Audio(hinted(m))
}

/// Checks that a stream's header is 16kHz mono 16-bit integer PCM; the
/// refusal names what was found and carries the ffmpeg hint.
pub fn check_format(path: &str, format: &WavSpec) -> (res: Result<(), WhisperError>)
    ensures
        match format_error(path@, format.header()) {
            Some(m) => res matches Err(e) && e@ == WhisperErrorView::Audio(m),
            None => res is Ok,
        },
{
    if format.channels != 1 {
        let n = decimal_string(format.channels as u64);
        return Err(refusal(concat4(path, ": expected mono audio, got ", n.as_str(), " channels")));
    }
    if format.sample_rate != 16000 {
        let n = decimal_string(format.sample_rate as u64);
        return Err(
            refusal(concat4(path, ": expected a 16000Hz sample rate, got ", n.as_str(), "Hz")),
        );
    }
    let is_float = match format.sample_format {
        SampleFormat::Float => true,
        SampleFormat::Int => false,
    };
    if is_float || format.bits_per_sample != 16 {
        let n = decimal_string(format.bits_per_sample as u64);
        let kind = if is_float {
            "float"
        } else {
            "integer"
        };
        let mut m = concat4(path, ": expected 16-bit PCM samples, got ", n.as_str(), "-bit ");
        m.append(kind);
        return Err(refusal(m));
    }
    Ok(())
}

/// Decides on an opened stream at `path` with header `format` whose sample
/// reads gave `reads`, in order: refuses a header that is not 16kHz mono
/// 16-bit integer PCM, then sample data that is truncated or corrupt (the
/// first failed read), then a stream without samples; otherwise returns the
/// samples.
pub fn accept_stream(path: &str, format: &WavSpec, reads: &Vec<Result<i16, String>>) -> (res:
    Result<Vec<i16>, WhisperError>)
    ensures
        samples_view(res) == stream_outcome(path@, format.header(), read_views(reads@)),
{
    match check_format(path, format) {
        Err(e) => {
            return Err(e);
        },
        Ok(()) => {},
    }
    let ghost all = read_views(reads@);
    let n = reads.len();
    let mut samples: Vec<i16> = Vec::new();
    proof {
        assert(all.subrange(0, n as int) =~= all);
        if let Ok(vs) = decode_all(all) {
            assert(samples@ + vs =~= vs);
        }
    }
    for i in 0..n
        invariant
            n == reads@.len(),
            all == read_views(reads@),
            format_error(path@, format.header()) is None,
            prefix_then(samples@, decode_all(all.subrange(i as int, n as int))) == decode_all(all),
    {
        let ghost rest = all.subrange(i as int, n as int);
        proof {
            assert(rest[0] == read_view(reads@[i as int]));
            assert(rest.drop_first() =~= all.subrange(i + 1, n as int));
        }
        match &reads[i] {
            Ok(v) => {
                proof {
                    match decode_all(rest.drop_first()) {
                        Ok(vs) => {
                            assert(samples@ + (seq![*v] + vs) =~= samples@.push(*v) + vs);
                        },
                        Err(_) => {},
                    }
                }
                samples.push(*v);
            },
            Err(e) => {
                assert(decode_all(rest) == Err::<Seq<i16>, Seq<char>>(e@));
                return Err(refusal(concat4(path, ": truncated or corrupt WAV data (", e.as_str(), ")")));
            },
        }
    }
    proof {
        assert(all.subrange(n as int, n as int) =~= Seq::<Result<i16, Seq<char>>>::empty());
        assert(samples@ + Seq::<i16>::empty() =~= samples@);
    }
    if samples.len() == 0 {
        let mut m = String::from_str(path);
        m.append(": WAV file contains no samples");
        return Err(refusal(m));
    }
    Ok(samples)
}

/// Reads `file`, found at `path`, as 16kHz mono 16-bit PCM WAV and returns
/// its samples in order. Refuses a missing or unreadable file, a stream
/// hound cannot open, a header of another shape, a stream whose sample data
/// is truncated or corrupt, and a stream without samples; every refusal
/// carries the ffmpeg one-liner that produces a conforming file.
pub fn read_16khz_mono(path: &str, file: &FileContents) -> (res: Result<Vec<i16>, WhisperError>)
    ensures
        samples_view(res) == read_16khz_mono_spec(path@, file@),
{
    let bytes = match file {
        FileContents::NotAFile => {
            let mut m = String::from_str("no such file: ");
            m.append(path);
            return Err(refusal(m));
        },
        FileContents::Unreadable(reason) => {
            return Err(refusal(concat4(path, ": not a readable WAV file (", reason.as_str(), ")")));
        },
        FileContents::Bytes(bytes) => bytes,
    };
    let mut reader = match wav_open(bytes.as_slice()) {
        Err(reason) => {
            return Err(refusal(concat4(path, ": not a readable WAV file (", reason.as_str(), ")")));
        },
        Ok(r) => r,
    };
    let format = wav_header(&reader);
    match check_format(path, &format) {
        Err(e) => {
            return Err(e);
        },
        Ok(()) => {},
    }
    let ghost all = wav_reader_pending(reader);
    let mut reads: Vec<Result<i16, String>> = Vec::new();
    loop
        invariant_except_break
            read_views(reads@) + wav_reader_pending(reader) == all,
            forall|k: int| 0 <= k < reads@.len() ==> #[trigger] read_views(reads@)[k] is Ok,
        ensures
            decode_all(read_views(reads@)) == decode_all(all),
        decreases wav_reader_pending(reader).len(),
    {
        let ghost before = wav_reader_pending(reader);
        let ghost got = reads@;
        match wav_next_sample(&mut reader) {
            None => {
                assert(read_views(reads@) + Seq::<Result<i16, Seq<char>>>::empty() =~= read_views(reads@));
                break ;
            },
            Some(r) => {
                let failed = r.is_err();
                reads.push(r);
                proof {
                    assert(read_views(reads@) =~= read_views(got).push(before[0]));
                    assert(read_views(got).push(before[0]) + before.drop_first() =~= read_views(got)
                        + before);
                }
                if failed {
                    proof {
                        let v = read_views(reads@);
                        lemma_first_read_error(v, got.len() as int);
                        lemma_first_read_error(all, got.len() as int);
                    }
                    break ;
                }
            },
        }
    }
    accept_stream(path, &format, &reads)
}

/// Reads that succeed up to index `k`, where one fails, decode to that
/// failure, whatever follows it.
proof fn lemma_first_read_error(reads: Seq<Result<i16, Seq<char>>>, k: int)
    requires
        0 <= k < reads.len(),
        forall|i: int| 0 <= i < k ==> #[trigger] reads[i] is Ok,
        reads[k] is Err,
    ensures
        decode_all(reads) == Err::<Seq<i16>, Seq<char>>(reads[k]->Err_0),
    decreases k,
{
    if k > 0 {
        let t = reads.drop_first();
        assert forall|i: int| 0 <= i < k - 1 implies #[trigger] t[i] is Ok by {
            assert(t[i] == reads[i + 1]);
        }
        assert(reads[0] is Ok);
        lemma_first_read_error(t, k - 1);
    }
}

/// Reads that all succeed decode to their samples, in order.
proof fn lemma_all_reads_ok(reads: Seq<Result<i16, Seq<char>>>)
    requires
        forall|i: int| 0 <= i < reads.len() ==> #[trigger] reads[i] is Ok,
    ensures
        decode_all(reads) == Ok::<Seq<i16>, Seq<char>>(
            Seq::new(reads.len(), |i: int| reads[i]->Ok_0),
        ),
    decreases reads.len(),
{
    if reads.len() > 0 {
        let t = reads.drop_first();
        assert forall|i: int| 0 <= i < t.len() implies #[trigger] t[i] is Ok by {
            assert(t[i] == reads[i + 1]);
        }
        lemma_all_reads_ok(t);
        assert(reads[0] is Ok);
        assert(seq![reads[0]->Ok_0] + Seq::new(t.len(), |i: int| t[i]->Ok_0) =~= Seq::new(
            reads.len(),
            |i: int| reads[i]->Ok_0,
        ));
    } else {
        assert(Seq::new(reads.len(), |i: int| reads[i]->Ok_0) =~= Seq::<i16>::empty());
    }
}

/// A header is accepted exactly when it is 16kHz mono 16-bit integer PCM.
pub proof fn lemma_format_accepted_iff_conforming(path: Seq<char>, h: (u16, u32, u16, bool))
    ensures
        format_error(path, h) is None <==> h == (1u16, 16000u32, 16u16, false),
{
}

/// A conforming stream is accepted in full: with a 16kHz mono 16-bit
/// integer PCM header and at least one read, all of them successful, the
/// outcome is exactly the samples read, in order, whatever their number.
pub proof fn lemma_conforming_stream_accepted(path: Seq<char>, reads: Seq<Result<i16, Seq<char>>>)
    requires
        reads.len() > 0,
        forall|i: int| 0 <= i < reads.len() ==> #[trigger] reads[i] is Ok,
    ensures
        stream_outcome(path, (1u16, 16000u32, 16u16, false), reads) == Ok::<
            Seq<i16>,
            WhisperErrorView,
        >(Seq::new(reads.len(), |i: int| reads[i]->Ok_0)),
{
    lemma_all_reads_ok(reads);
}

/// A conforming file is read in full: when hound opens its bytes with a
/// 16kHz mono 16-bit integer PCM header and every one of its (at least one)
/// sample reads succeeds, the result is exactly those samples, in order.
pub proof fn lemma_conforming_audio_accepted(
    path: Seq<char>,
    bytes: Seq<u8>,
    reads: Seq<Result<i16, Seq<char>>>,
)
    requires
        wav_decode_i16(bytes) == Ok::<_, Seq<char>>(((1u16, 16000u32, 16u16, false), reads)),
        reads.len() > 0,
        forall|i: int| 0 <= i < reads.len() ==> #[trigger] reads[i] is Ok,
    ensures
        read_16khz_mono_spec(path, FileContentsView::Bytes(bytes)) == Ok::<
            Seq<i16>,
            WhisperErrorView,
        >(Seq::new(reads.len(), |i: int| reads[i]->Ok_0)),
{
    lemma_conforming_stream_accepted(path, reads);
}

/// A stream with a failed sample read is refused, naming that read's
/// error, when every read before it succeeded.
pub proof fn lemma_failed_read_refused(
    path: Seq<char>,
    reads: Seq<Result<i16, Seq<char>>>,
    k: int,
)
    requires
        0 <= k < reads.len(),
        forall|i: int| 0 <= i < k ==> #[trigger] reads[i] is Ok,
        reads[k] is Err,
    ensures
        stream_outcome(path, (1u16, 16000u32, 16u16, false), reads) == Err::<
            Seq<i16>,
            WhisperErrorView,
        >(
            WhisperErrorView::Audio(
                with_hint(path + ": truncated or corrupt WAV data ("@ + reads[k]->Err_0 + ")"@),
            ),
        ),
{
    lemma_first_read_error(reads, k);
}

/// Every refusal of audio is an audio error, surfacing as an audio
/// exception, and its message ends with the ffmpeg one-liner that produces a
/// conforming file.
pub proof fn lemma_audio_refusals_carry_hint(path: Seq<char>, file: FileContentsView)
    ensures
        read_16khz_mono_spec(path, file) matches Err(e) ==> {
            &&& e matches WhisperErrorView::Audio(m)
            &&& e.class() == crate::error::ExceptionClass::AudioException
            &&& m.len() >= FFMPEG_HINT@.len()
            &&& m.subrange(m.len() - FFMPEG_HINT@.len(), m.len() as int) == FFMPEG_HINT@
        },
{
    if let Err(WhisperErrorView::Audio(m)) = read_16khz_mono_spec(path, file) {
        let b = choose|b: Seq<char>| m == with_hint(b);
        lemma_hint_ends(b);
    }
}

/// A hinted message ends with the ffmpeg one-liner.
proof fn lemma_hint_ends(b: Seq<char>)
    ensures
        with_hint(b).len() >= FFMPEG_HINT@.len(),
        with_hint(b).subrange(
            with_hint(b).len() - FFMPEG_HINT@.len(),
            with_hint(b).len() as int,
        ) == FFMPEG_HINT@,
{
    let m = with_hint(b);
    let k = m.len() - FFMPEG_HINT@.len();
    assert(m.subrange(k, m.len() as int) =~= FFMPEG_HINT@);
}

/// Audio is accepted only from a stream that hound opens with a 16kHz mono
/// 16-bit integer PCM header and whose every sample reads back; what is
/// returned is those samples, in order, and there is at least one.
pub proof fn lemma_accepted_audio_conforms(path: Seq<char>, file: FileContentsView)
    ensures
        read_16khz_mono_spec(path, file) matches Ok(samples) ==> {
            &&& samples.len() > 0
            &&& file matches FileContentsView::Bytes(bytes)
            &&& wav_decode_i16(bytes) matches Ok((header, reads))
            &&& header == (1u16, 16000u32, 16u16, false)
            &&& decode_all(reads) == Ok::<Seq<i16>, Seq<char>>(samples)
        },
{
}

} // verus!
