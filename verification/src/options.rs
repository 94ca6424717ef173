//! Caller-supplied options. A missing options array or a missing key means
//! "not given"; a key present with a value of the wrong type or out of range
//! is a hard error that names the key, never a silent default.
use vstd::prelude::*;

use crate::error::{WhisperError, WhisperErrorView};

verus! {

/// What looking a key up in the caller's options gave.
pub enum OptionValue<T> {
    /// No options, or no such key.
    Missing,
    /// The key is present but its value does not convert to `T`.
    Unconvertible,
    /// The key's value.
    Found(T),
}

/// The error for option `key` with the given reason.
pub open spec fn option_error(key: Seq<char>, reason: Seq<char>) -> WhisperErrorView {
    WhisperErrorView::InvalidOption { name: key, reason }
}

/// An `InvalidOption` error for `key`.
fn invalid_option(key: &str, reason: &str) -> (e: WhisperError)
    ensures
        e@ == option_error(key@, reason@),
{
    WhisperError::InvalidOption { name: String::from_str(key), reason: String::from_str(reason) }
}

/// The outcome of a boolean option given as `found`.
pub open spec fn bool_option(key: Seq<char>, found: OptionValue<bool>) -> Result<
    Option<bool>,
    WhisperErrorView,
> {
    match found {
        OptionValue::Missing => Ok(None),
        OptionValue::Unconvertible => Err(option_error(key, "expected bool"@)),
        OptionValue::Found(b) => Ok(Some(b)),
    }
}

/// The outcome of a string option given as `found`.
pub open spec fn string_option(key: Seq<char>, found: OptionValue<String>) -> Result<
    Option<Seq<char>>,
    WhisperErrorView,
> {
    match found {
        OptionValue::Missing => Ok(None),
        OptionValue::Unconvertible => Err(option_error(key, "expected string"@)),
        OptionValue::Found(s) => Ok(Some(s@)),
    }
}

/// A result with its error by view.
pub open spec fn bool_view(r: Result<Option<bool>, WhisperError>) -> Result<
    Option<bool>,
    WhisperErrorView,
> {
    match r {
        Ok(v) => Ok(v),
        Err(e) => Err(e@),
    }
}

/// A result with the string and the error by view.
pub open spec fn string_view(r: Result<Option<String>, WhisperError>) -> Result<
    Option<Seq<char>>,
    WhisperErrorView,
> {
    match r {
        Ok(Some(s)) => Ok(Some(s@)),
        Ok(None) => Ok(None),
        Err(e) => Err(e@),
    }
}

/// A boolean option: `None` when not given.
pub fn get_bool(key: &str, found: OptionValue<bool>) -> (res: Result<Option<bool>, WhisperError>)
    ensures
        bool_view(res) == bool_option(key@, found),
{
    match found {
        OptionValue::Missing => Ok(None),
        OptionValue::Unconvertible => Err(invalid_option(key, "expected bool")),
        OptionValue::Found(b) => Ok(Some(b)),
    }
}

/// A string option: `None` when not given.
pub fn get_string(key: &str, found: OptionValue<String>) -> (res: Result<Option<String>, WhisperError>)
    ensures
        string_view(res) == string_option(key@, found),
{
    match found {
        OptionValue::Missing => Ok(None),
        OptionValue::Unconvertible => Err(invalid_option(key, "expected string")),
        OptionValue::Found(s) => Ok(Some(s)),
    }
}

/// The outcome of an unsigned integer option given as `found`.
pub open spec fn uint_option(key: Seq<char>, found: OptionValue<i64>) -> Result<
    Option<u32>,
    WhisperErrorView,
> {
    match found {
        OptionValue::Missing => Ok(None),
        OptionValue::Unconvertible => Err(option_error(key, "expected integer"@)),
        OptionValue::Found(n) => if n < 0 {
            Err(option_error(key, "must be non-negative"@))
        } else if n > u32::MAX {
            Err(option_error(key, "exceeds u32 range"@))
        } else {
            Ok(Some(n as u32))
        },
    }
}

/// A result with its error by view.
pub open spec fn uint_view(r: Result<Option<u32>, WhisperError>) -> Result<
    Option<u32>,
    WhisperErrorView,
> {
    match r {
        Ok(v) => Ok(v),
        Err(e) => Err(e@),
    }
}

/// An unsigned 32-bit integer option: `None` when not given; a negative or
/// too large integer is refused.
pub fn get_uint(key: &str, found: OptionValue<i64>) -> (res: Result<Option<u32>, WhisperError>)
    ensures
        uint_view(res) == uint_option(key@, found),
{
    match found {
        OptionValue::Missing => Ok(None),
        OptionValue::Unconvertible => Err(invalid_option(key, "expected integer")),
        OptionValue::Found(n) => {
            if n < 0 {
                Err(invalid_option(key, "must be non-negative"))
            } else if n > 4294967295 {
                Err(invalid_option(key, "exceeds u32 range"))
            } else {
                Ok(Some(n as u32))
            }
        },
    }
}

/// The outcome of the decoder thread count `threads`.
pub open spec fn thread_count(threads: Option<u32>) -> Result<Option<i32>, WhisperErrorView> {
    match threads {
        None => Ok(None),
        Some(n) => if n == 0 {
            Err(
                option_error(
                    "threads"@,
                    "must be at least 1 (omit the key for whisper.cpp's default)"@,
                ),
            )
        } else if n > i32::MAX {
            Err(option_error("threads"@, "exceeds i32 range"@))
        } else {
            Ok(Some(n as i32))
        },
    }
}

/// A result with its error by view.
pub open spec fn threads_view(r: Result<Option<i32>, WhisperError>) -> Result<
    Option<i32>,
    WhisperErrorView,
> {
    match r {
        Ok(v) => Ok(v),
        Err(e) => Err(e@),
    }
}

/// The decoder thread count to hand whisper.cpp: `None` leaves its default;
/// zero and counts beyond `i32` are refused.
pub fn n_threads(threads: Option<u32>) -> (res: Result<Option<i32>, WhisperError>)
    ensures
        threads_view(res) == thread_count(threads),
{
    match threads {
        None => Ok(None),
        Some(n) => {
            if n == 0 {
                Err(
                    invalid_option(
                        "threads",
                        "must be at least 1 (omit the key for whisper.cpp's default)",
                    ),
                )
            } else if n > 2147483647 {
                Err(invalid_option("threads", "exceeds i32 range"))
            } else {
                Ok(Some(n as i32))
            }
        },
    }
}

/// Options of the right type pass through unchanged: a boolean as given, a
/// string as given, and an integer within `0..=u32::MAX` as that number.
pub proof fn lemma_options_pass_through(key: Seq<char>, b: bool, s: String, n: i64)
    ensures
        bool_option(key, OptionValue::Found(b)) == Ok::<Option<bool>, WhisperErrorView>(Some(b)),
        string_option(key, OptionValue::Found(s)) == Ok::<Option<Seq<char>>, WhisperErrorView>(
            Some(s@),
        ),
        0 <= n <= u32::MAX ==> (uint_option(key, OptionValue::Found(n)) matches Ok(Some(k)) && k
            == n),
{
}

/// Every thread count from 1 to `i32::MAX` reaches whisper.cpp unchanged;
/// all others are refused.
pub proof fn lemma_thread_count_passes_through(n: u32)
    ensures
        1 <= n <= i32::MAX ==> (thread_count(Some(n)) matches Ok(Some(k)) && k == n),
        !(1 <= n <= i32::MAX) ==> thread_count(Some(n)) is Err,
{
}

} // verus!
