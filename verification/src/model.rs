//! The loaded-model handle and the decisions of its two entry points.
//!
//! A [`Model`] owns the in-memory weights (`C`) until it is closed. Loading
//! and transcribing are whisper.cpp's work; what stands here is everything
//! decided around it: which options are valid, what audio is accepted, in
//! what order failures are reported, and what each failure says.
use vstd::prelude::*;

use crate::error::{ExceptionClass, WhisperError, WhisperErrorView};
use crate::options::{
    bool_option, get_bool, get_string, get_uint, n_threads, string_option, thread_count,
    uint_option, OptionValue,
};
use crate::wav::{read_16khz_mono, read_16khz_mono_spec, FileContents, FileContentsView};

verus! {

/// Handle to a loaded whisper model; `close` releases the weights.
pub struct Model<C> {
    inner: Option<C>,
}

impl<C> View for Model<C> {
    type V = Option<C>;

    /// The loaded weights, or `None` once closed.
    closed spec fn view(&self) -> Option<C> {
        self.inner
    }
}

impl<C> Default for Model<C> {
    /// A closed handle.
    fn default() -> (m: Self)
        ensures
            m@ is None,
    {
        Model { inner: None }
    }
}

/// The options of a transcription run, once their types have been checked.
pub struct TranscribeOptions {
    /// ISO 639-1 language hint; `None` lets whisper detect it.
    pub language: Option<String>,
    /// Whether to translate the result to English (default off).
    pub translate: bool,
    /// Decoder thread count as given; its range is checked after the audio.
    pub threads: Option<u32>,
}

/// The mathematical value of [`TranscribeOptions`].
pub struct TranscribeOptionsView {
    pub language: Option<Seq<char>>,
    pub translate: bool,
    pub threads: Option<u32>,
}

impl View for TranscribeOptions {
    type V = TranscribeOptionsView;

    open spec fn view(&self) -> TranscribeOptionsView {
        TranscribeOptionsView {
            language: match self.language {
                Some(l) => Some(l@),
                None => None,
            },
            translate: self.translate,
            threads: self.threads,
        }
    }
}

/// What a transcription run is handed, once every check has passed.
pub struct TranscribeRequest {
    /// ISO 639-1 language hint; `None` lets whisper detect it.
    pub language: Option<String>,
    /// Whether to translate the result to English.
    pub translate: bool,
    /// Decoder thread count; `None` leaves whisper.cpp's default.
    pub threads: Option<i32>,
    /// The audio, 16kHz mono 16-bit samples.
    pub samples: Vec<i16>,
}

/// The mathematical value of a [`TranscribeRequest`].
pub struct TranscribeRequestView {
    pub language: Option<Seq<char>>,
    pub translate: bool,
    pub threads: Option<i32>,
    pub samples: Seq<i16>,
}

impl View for TranscribeRequest {
    type V = TranscribeRequestView;

    open spec fn view(&self) -> TranscribeRequestView {
        TranscribeRequestView {
            language: match self.language {
                Some(l) => Some(l@),
                None => None,
            },
            translate: self.translate,
            threads: self.threads,
            samples: self.samples@,
        }
    }
}

/// The stage of a whisper run that failed.
#[derive(Debug, Clone, Copy, PartialEq, Eq, Structural)]
pub enum WhisperStage {
    /// Creating the per-run decoder state.
    CreateState,
    /// The full encoder/decoder pass.
    Full,
}

/// The outcome of the option checks before a transcription run: a closed
/// handle first, then the types of `language`, `translate` and `threads`.
pub open spec fn options_plan(
    open: bool,
    language: OptionValue<String>,
    translate: OptionValue<bool>,
    threads: OptionValue<i64>,
) -> Result<TranscribeOptionsView, WhisperErrorView> {
    if !open {
        Err(WhisperErrorView::Closed)
    } else {
        match string_option("language"@, language) {
            Err(e) => Err(e),
            Ok(l) => match bool_option("translate"@, translate) {
                Err(e) => Err(e),
                Ok(t) => match uint_option("threads"@, threads) {
                    Err(e) => Err(e),
                    Ok(n) => Ok(
                        TranscribeOptionsView {
                            language: l,
                            translate: match t {
                                Some(b) => b,
                                None => false,
                            },
                            threads: n,
                        },
                    ),
                },
            },
        }
    }
}

/// The outcome of the checks after the options: the audio, then the thread
/// count's range.
pub open spec fn request_plan(
    options: TranscribeOptionsView,
    wav_path: Seq<char>,
    audio: FileContentsView,
) -> Result<TranscribeRequestView, WhisperErrorView> {
    match read_16khz_mono_spec(wav_path, audio) {
        Err(e) => Err(e),
        Ok(samples) => match thread_count(options.threads) {
            Err(e) => Err(e),
            Ok(k) => Ok(
                TranscribeRequestView {
                    language: options.language,
                    translate: options.translate,
                    threads: k,
                    samples,
                },
            ),
        },
    }
}

/// The outcome of the checks before a transcription run: a closed handle
/// first, then the options `language`, `translate` and `threads` (types),
/// then the audio, then the thread count's range.
pub open spec fn transcribe_plan(
    open: bool,
    wav_path: Seq<char>,
    language: OptionValue<String>,
    translate: OptionValue<bool>,
    threads: OptionValue<i64>,
    audio: FileContentsView,
) -> Result<TranscribeRequestView, WhisperErrorView> {
    match options_plan(open, language, translate, threads) {
        Err(e) => Err(e),
        Ok(o) => request_plan(o, wav_path, audio),
    }
}

/// The outcome of the checks before loading a model: the `use_gpu` option
/// (default off), then whether the path is a file.
pub open spec fn load_plan(path: Seq<char>, use_gpu: OptionValue<bool>, path_is_file: bool) -> Result<
    bool,
    WhisperErrorView,
> {
    match bool_option("use_gpu"@, use_gpu) {
        Err(e) => Err(e),
        Ok(g) => if !path_is_file {
            Err(WhisperErrorView::ModelLoad("no such file: "@ + path))
        } else {
            Ok(
                match g {
                    Some(b) => b,
                    None => false,
                },
            )
        },
    }
}

impl<C> Model<C> {
    /// Refuses direct construction: a model is only ever loaded.
    pub fn __construct() -> (res: Result<Self, WhisperError>)
        ensures
            res matches Err(e) && e@ == WhisperErrorView::InvalidConstruction(
                "use Displace\\Whisper\\Model::load() to construct a Model"@,
            ),
    {
        Err(
            WhisperError::InvalidConstruction(
                String::from_str("use Displace\\Whisper\\Model::load() to construct a Model"),
            ),
        )
    }

    /// An open handle to the loaded weights `context`.
    pub fn from_context(context: C) -> (m: Self)
        ensures
            m@ == Some(context),
    {
        Model { inner: Some(context) }
    }

    /// Releases the weights. Closing a closed handle changes nothing.
    pub fn close(&mut self)
        ensures
            final(self)@ is None,
            old(self)@ is None ==> final(self)@ == old(self)@,
    {
        self.inner = None;
    }

    /// The loaded weights, or the error for a closed handle.
    pub fn context(&self) -> (res: Result<&C, WhisperError>)
        ensures
            match self@ {
                Some(c) => res matches Ok(r) && *r == c,
                None => res matches Err(e) && e@ == WhisperErrorView::Closed,
            },
    {
        match &self.inner {
            Some(c) => Ok(c),
            None => Err(WhisperError::Closed),
        }
    }

    /// Whether to load the model at `path` on the GPU, after the checks that
    /// precede loading it.
    pub fn load_use_gpu(path: &str, use_gpu: OptionValue<bool>, path_is_file: bool) -> (res: Result<
        bool,
        WhisperError,
    >)
        ensures
            match load_plan(path@, use_gpu, path_is_file) {
                Ok(g) => res matches Ok(v) && v == g,
                Err(e) => res matches Err(x) && x@ == e,
            },
    {
        let g = match get_bool("use_gpu", use_gpu) {
            Err(e) => {
                return Err(e);
            },
            Ok(g) => g,
        };
        if !path_is_file {
            let mut m = String::from_str("no such file: ");
            m.append(path);
            return Err(WhisperError::ModelLoad(m));
        }
        match g {
            Some(b) => Ok(b),
            None => Ok(false),
        }
    }

    /// The error for a model file at `path` that whisper.cpp could not load,
    /// for the given reason.
    pub fn load_failed(path: &str, reason: &str) -> (e: WhisperError)
        ensures
            e@ == WhisperErrorView::ModelLoad(path@ + ": "@ + reason@),
    {
        let mut m = String::from_str(path);
        m.append(": ");
        m.append(reason);
        WhisperError::ModelLoad(m)
    }

    /// The option checks before a transcription run: the handle must be
    /// open, and each option absent or of its type. On success the weights
    /// and the options, a missing `translate` taken as off.
    pub fn transcribe_options(
        &self,
        language: OptionValue<String>,
        translate: OptionValue<bool>,
        threads: OptionValue<i64>,
    ) -> (res: Result<(&C, TranscribeOptions), WhisperError>)
        ensures
            match options_plan(self@ is Some, language, translate, threads) {
                Ok(o) => res matches Ok((c, q)) && q@ == o && self@ == Some(*c),
                Err(e) => res matches Err(x) && x@ == e,
            },
    {
        let context = match self.context() {
            Err(e) => {
                return Err(e);
            },
            Ok(c) => c,
        };
        let language = match get_string("language", language) {
            Err(e) => {
                return Err(e);
            },
            Ok(l) => l,
        };
        let translate = match get_bool("translate", translate) {
            Err(e) => {
                return Err(e);
            },
            Ok(t) => t,
        };
        let threads = match get_uint("threads", threads) {
            Err(e) => {
                return Err(e);
            },
            Ok(n) => n,
        };
        let translate = match translate {
            Some(b) => b,
            None => false,
        };
        Ok((context, TranscribeOptions { language, translate, threads }))
    }

    /// The checks before transcribing `audio`, found at `wav_path`, with the
    /// given options; on success the weights and what the run is handed.
    pub fn prepare_transcription(
        &self,
        wav_path: &str,
        language: OptionValue<String>,
        translate: OptionValue<bool>,
        threads: OptionValue<i64>,
        audio: &FileContents,
    ) -> (res: Result<(&C, TranscribeRequest), WhisperError>)
        ensures
            match transcribe_plan(self@ is Some, wav_path@, language, translate, threads, audio@) {
                Ok(r) => res matches Ok((c, q)) && q@ == r && self@ == Some(*c),
                Err(e) => res matches Err(x) && x@ == e,
            },
    {
        let (context, options) = match self.transcribe_options(language, translate, threads) {
            Err(e) => {
                return Err(e);
            },
            Ok(p) => p,
        };
        match options.into_request(wav_path, audio) {
            Err(e) => Err(e),
            Ok(q) => Ok((context, q)),
        }
    }

    /// The error for a whisper run that failed at `stage`, for the given
    /// reason.
    pub fn transcription_failed(stage: WhisperStage, reason: &str) -> (e: WhisperError)
        ensures
            e@ == WhisperErrorView::Transcription(
                match stage {
                    WhisperStage::CreateState => "state creation failed: "@,
                    WhisperStage::Full => "whisper_full failed: "@,
                } + reason@,
            ),
    {
        let mut m = match stage {
            WhisperStage::CreateState => String::from_str("state creation failed: "),
            WhisperStage::Full => String::from_str("whisper_full failed: "),
        };
        m.append(reason);
        WhisperError::Transcription(m)
    }
}

impl TranscribeOptions {
    /// The checks after the options: reads `audio`, found at `wav_path`, as
    /// 16kHz mono 16-bit PCM WAV, then checks the thread count's range; on
    /// success what the run is handed.
    pub fn into_request(self, wav_path: &str, audio: &FileContents) -> (res: Result<
        TranscribeRequest,
        WhisperError,
    >)
        ensures
            match request_plan(self@, wav_path@, audio@) {
                Ok(r) => res matches Ok(q) && q@ == r,
                Err(e) => res matches Err(x) && x@ == e,
            },
    {
        let samples = match read_16khz_mono(wav_path, audio) {
            Err(e) => {
                return Err(e);
            },
            Ok(s) => s,
        };
        let threads = match n_threads(self.threads) {
            Err(e) => {
                return Err(e);
            },
            Ok(k) => k,
        };
        Ok(TranscribeRequest { language: self.language, translate: self.translate, threads, samples })
    }
}

/// An absent `translate` option and `translate = false` give the same
/// outcome of the checks before a run, whatever the other inputs.
pub proof fn lemma_translate_absent_is_false(
    open: bool,
    wav_path: Seq<char>,
    language: OptionValue<String>,
    threads: OptionValue<i64>,
    audio: FileContentsView,
)
    ensures
        transcribe_plan(open, wav_path, language, OptionValue::Missing, threads, audio)
            == transcribe_plan(open, wav_path, language, OptionValue::Found(false), threads, audio),
{
}

/// An absent `use_gpu` option and `use_gpu = false` give the same outcome
/// of the checks before loading a model.
pub proof fn lemma_use_gpu_absent_is_false(path: Seq<char>, path_is_file: bool)
    ensures
        load_plan(path, OptionValue::Missing, path_is_file) == load_plan(
            path,
            OptionValue::Found(false),
            path_is_file,
        ),
{
}

/// On an open handle, an accepted run is handed the options as given: the
/// translate flag as given (whatever the language option), the language
/// hint as given, the thread count as given, and the samples the audio
/// reads to. The value of the translate flag never decides whether a run is
/// accepted.
pub proof fn lemma_request_carries_options(
    wav_path: Seq<char>,
    language: OptionValue<String>,
    b: bool,
    threads: OptionValue<i64>,
    audio: FileContentsView,
)
    ensures
        transcribe_plan(true, wav_path, language, OptionValue::Found(b), threads, audio) matches Ok(
            r,
        ) ==> {
            &&& r.translate == b
            &&& r.language == match language {
                OptionValue::Found(s) => Some(s@),
                _ => None::<Seq<char>>,
            }
            &&& r.threads == match threads {
                OptionValue::Found(n) => Some(n as i32),
                _ => None::<i32>,
            }
            &&& read_16khz_mono_spec(wav_path, audio) == Ok::<Seq<i16>, WhisperErrorView>(
                r.samples,
            )
        },
        transcribe_plan(true, wav_path, language, OptionValue::Found(b), threads, audio) is Ok
            <==> transcribe_plan(
            true,
            wav_path,
            language,
            OptionValue::Found(!b),
            threads,
            audio,
        ) is Ok,
{
}

/// A file to load is loaded on the GPU exactly as `use_gpu` asks, whatever
/// its path; whether a load is accepted and how never depends on the path's
/// text, only on whether it names a file.
pub proof fn lemma_use_gpu_as_given(p: Seq<char>, q: Seq<char>, b: bool, use_gpu: OptionValue<bool>)
    ensures
        load_plan(p, OptionValue::Found(b), true) == Ok::<bool, WhisperErrorView>(b),
        load_plan(p, use_gpu, true) == load_plan(q, use_gpu, true),
{
}

/// On an open handle, failures are reported in a fixed order, each
/// whatever the later inputs: a malformed `language`, then `translate`,
/// then `threads` (its type or `u32` range), then the audio; the thread
/// count's `i32` range only after the audio has been accepted.
pub proof fn lemma_failure_order(
    wav_path: Seq<char>,
    language: OptionValue<String>,
    translate: OptionValue<bool>,
    threads: OptionValue<i64>,
    audio: FileContentsView,
)
    ensures
        string_option("language"@, language) matches Err(e) ==> transcribe_plan(
            true,
            wav_path,
            language,
            translate,
            threads,
            audio,
        ) == Err::<TranscribeRequestView, WhisperErrorView>(e),
        string_option("language"@, language) is Ok ==> (bool_option("translate"@, translate) matches Err(e)
            ==> transcribe_plan(true, wav_path, language, translate, threads, audio) == Err::<
            TranscribeRequestView,
            WhisperErrorView,
        >(e)),
        string_option("language"@, language) is Ok && bool_option("translate"@, translate) is Ok
            ==> (uint_option("threads"@, threads) matches Err(e) ==> transcribe_plan(
            true,
            wav_path,
            language,
            translate,
            threads,
            audio,
        ) == Err::<TranscribeRequestView, WhisperErrorView>(e)),
        string_option("language"@, language) is Ok && bool_option("translate"@, translate) is Ok
            && uint_option("threads"@, threads) is Ok ==> (read_16khz_mono_spec(wav_path, audio) matches Err(e)
            ==> transcribe_plan(true, wav_path, language, translate, threads, audio) == Err::<
            TranscribeRequestView,
            WhisperErrorView,
        >(e)),
{
}

/// A closed handle refuses every transcription with the closed-handle
/// error, which surfaces as a transcription exception, whatever the options
/// and the audio.
pub proof fn lemma_closed_model_refuses(
    wav_path: Seq<char>,
    language: OptionValue<String>,
    translate: OptionValue<bool>,
    threads: OptionValue<i64>,
    audio: FileContentsView,
)
    ensures
        transcribe_plan(false, wav_path, language, translate, threads, audio) == Err::<
            TranscribeRequestView,
            WhisperErrorView,
        >(WhisperErrorView::Closed),
        WhisperErrorView::Closed.class() == ExceptionClass::TranscriptionException,
{
}

/// On an open handle, options that are absent take their defaults: no
/// language hint, no translation, whisper.cpp's thread count; the run is
/// then handed exactly the samples of the audio, or refused as the audio is.
pub proof fn lemma_defaults_when_options_absent(wav_path: Seq<char>, audio: FileContentsView)
    ensures
        match read_16khz_mono_spec(wav_path, audio) {
            Ok(samples) => transcribe_plan(
                true,
                wav_path,
                OptionValue::Missing,
                OptionValue::Missing,
                OptionValue::Missing,
                audio,
            ) == Ok::<TranscribeRequestView, WhisperErrorView>(
                TranscribeRequestView { language: None, translate: false, threads: None, samples },
            ),
            Err(e) => transcribe_plan(
                true,
                wav_path,
                OptionValue::Missing,
                OptionValue::Missing,
                OptionValue::Missing,
                audio,
            ) == Err::<TranscribeRequestView, WhisperErrorView>(e),
        },
{
}

} // verus!
