//! The library's error model. Every fallible operation returns a
//! [`WhisperError`]; each variant belongs to one of the four exception
//! classes a host surfaces (`ExceptionClass`), and renders to one message.
use vstd::prelude::*;

verus! {

/// Error of a fallible operation.
#[derive(Debug)]
pub enum WhisperError {
    /// Failed to load a whisper model from disk.
    ModelLoad(String),
    /// The audio input is unreadable or has the wrong format. The message
    /// says what was wrong and carries the ffmpeg one-liner that produces a
    /// conforming file.
    Audio(String),
    /// whisper.cpp failed mid-transcription.
    Transcription(String),
    /// The model handle has already been closed.
    Closed,
    /// A caller-supplied option was malformed (wrong type, out of range).
    InvalidOption {
        /// The option key as supplied by the caller.
        name: String,
        /// Human-readable explanation of what was wrong.
        reason: String,
    },
    /// Direct construction of a handle type is not supported.
    InvalidConstruction(String),
}

/// The mathematical value of a [`WhisperError`]: the same variants, with
/// texts as character sequences.
pub enum WhisperErrorView {
    ModelLoad(Seq<char>),
    Audio(Seq<char>),
    Transcription(Seq<char>),
    Closed,
    InvalidOption { name: Seq<char>, reason: Seq<char> },
    InvalidConstruction(Seq<char>),
}

/// The exception class an error surfaces as. The last three extend the
/// first.
#[derive(Debug, Clone, Copy, PartialEq, Eq, Structural)]
pub enum ExceptionClass {
    WhisperException,
    ModelLoadException,
    AudioException,
    TranscriptionException,
}

impl View for WhisperError {
    type V = WhisperErrorView;

    open spec fn view(&self) -> WhisperErrorView {
        match self {
            WhisperError::ModelLoad(m) => WhisperErrorView::ModelLoad(m@),
            WhisperError::Audio(m) => WhisperErrorView::Audio(m@),
            WhisperError::Transcription(m) => WhisperErrorView::Transcription(m@),
            WhisperError::Closed => WhisperErrorView::Closed,
            WhisperError::InvalidOption { name, reason } => WhisperErrorView::InvalidOption {
                name: name@,
                reason: reason@,
            },
            WhisperError::InvalidConstruction(m) => WhisperErrorView::InvalidConstruction(m@),
        }
    }
}

impl WhisperErrorView {
    /// The rendered message of the error.
    pub open spec fn message(self) -> Seq<char> {
        match self {
            WhisperErrorView::ModelLoad(m) => "failed to load model: "@ + m,
            WhisperErrorView::Audio(m) => "invalid audio input: "@ + m,
            WhisperErrorView::Transcription(m) => "transcription failed: "@ + m,
            WhisperErrorView::Closed => "model has been closed"@,
            WhisperErrorView::InvalidOption { name, reason } => "invalid option "@ + name + ": "@
                + reason,
            WhisperErrorView::InvalidConstruction(m) => m,
        }
    }

    /// The exception class the error surfaces as: a load failure as a
    /// model-load exception, bad audio as an audio exception, a failed run or
    /// a closed handle as a transcription exception, and a bad option or a
    /// refused construction as the base exception.
    pub open spec fn class(self) -> ExceptionClass {
        match self {
            WhisperErrorView::ModelLoad(_) => ExceptionClass::ModelLoadException,
            WhisperErrorView::Audio(_) => ExceptionClass::AudioException,
            WhisperErrorView::Transcription(_) => ExceptionClass::TranscriptionException,
            WhisperErrorView::Closed => ExceptionClass::TranscriptionException,
            WhisperErrorView::InvalidOption { .. } => ExceptionClass::WhisperException,
            WhisperErrorView::InvalidConstruction(_) => ExceptionClass::WhisperException,
        }
    }
}

/// `prefix` followed by `rest`.
fn prefixed(prefix: &str, rest: &str) -> (s: String)
    ensures
        s@ == prefix@ + rest@,
{
    let mut s = String::from_str(prefix);
    s.append(rest);
    s
}

impl WhisperError {
    /// The message of the error, as the host shows it.
    pub fn message(&self) -> (m: String)
        ensures
            m@ == self@.message(),
    {
        match self {
            WhisperError::ModelLoad(m) => prefixed("failed to load model: ", m.as_str()),
            WhisperError::Audio(m) => prefixed("invalid audio input: ", m.as_str()),
            WhisperError::Transcription(m) => prefixed("transcription failed: ", m.as_str()),
            WhisperError::Closed => String::from_str("model has been closed"),
            WhisperError::InvalidOption { name, reason } => {
                let mut s = prefixed("invalid option ", name.as_str());
                s.append(": ");
                s.append(reason.as_str());
                s
            },
            WhisperError::InvalidConstruction(m) => String::from_str(m.as_str()),
        }
    }

    /// The exception class the error surfaces as.
    pub fn exception_class(&self) -> (c: ExceptionClass)
        ensures
            c == self@.class(),
    {
        match self {
            WhisperError::ModelLoad(_) => ExceptionClass::ModelLoadException,
            WhisperError::Audio(_) => ExceptionClass::AudioException,
            WhisperError::Transcription(_) => ExceptionClass::TranscriptionException,
            WhisperError::Closed => ExceptionClass::TranscriptionException,
            WhisperError::InvalidOption { .. } => ExceptionClass::WhisperException,
            WhisperError::InvalidConstruction(_) => ExceptionClass::WhisperException,
        }
    }
}

} // verus!
