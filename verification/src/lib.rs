//! In-process speech-to-text plumbing around whisper.cpp: the strict WAV
//! reader, the option rules, the error model and the transcript builder.
pub mod error;
pub mod options;
pub mod text;
pub mod wav;
pub mod transcription;
pub mod model;
