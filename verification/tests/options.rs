use ext_whisper::error::ExceptionClass;
use ext_whisper::options::{get_bool, get_string, get_uint, n_threads, OptionValue};

#[test]
fn missing_options_are_not_given() {
    assert_eq!(get_bool("translate", OptionValue::Missing).unwrap(), None);
    assert_eq!(get_string("language", OptionValue::Missing).unwrap(), None);
    assert_eq!(get_uint("threads", OptionValue::Missing).unwrap(), None);
}

#[test]
fn present_options_pass_through() {
    assert_eq!(get_bool("translate", OptionValue::Found(true)).unwrap(), Some(true));
    assert_eq!(
        get_string("language", OptionValue::Found("de".to_string())).unwrap(),
        Some("de".to_string())
    );
    assert_eq!(get_uint("threads", OptionValue::Found(4)).unwrap(), Some(4));
    assert_eq!(get_uint("threads", OptionValue::Found(4_294_967_295)).unwrap(), Some(u32::MAX));
}

#[test]
fn wrong_types_name_the_key() {
    let e = get_bool("use_gpu", OptionValue::Unconvertible).unwrap_err();
    assert_eq!(e.message(), "invalid option use_gpu: expected bool");
    assert_eq!(e.exception_class(), ExceptionClass::WhisperException);
    let e = get_string("language", OptionValue::Unconvertible).unwrap_err();
    assert_eq!(e.message(), "invalid option language: expected string");
    let e = get_uint("threads", OptionValue::Unconvertible).unwrap_err();
    assert_eq!(e.message(), "invalid option threads: expected integer");
}

#[test]
fn integers_out_of_range_are_refused() {
    let e = get_uint("threads", OptionValue::Found(-1)).unwrap_err();
    assert_eq!(e.message(), "invalid option threads: must be non-negative");
    let e = get_uint("threads", OptionValue::Found(4_294_967_296)).unwrap_err();
    assert_eq!(e.message(), "invalid option threads: exceeds u32 range");
}

#[test]
fn thread_counts() {
    assert_eq!(n_threads(None).unwrap(), None);
    assert_eq!(n_threads(Some(1)).unwrap(), Some(1));
    assert_eq!(n_threads(Some(2_147_483_647)).unwrap(), Some(i32::MAX));
    assert_eq!(
        n_threads(Some(0)).unwrap_err().message(),
        "invalid option threads: must be at least 1 (omit the key for whisper.cpp's default)"
    );
    assert_eq!(
        n_threads(Some(2_147_483_648)).unwrap_err().message(),
        "invalid option threads: exceeds i32 range"
    );
}
