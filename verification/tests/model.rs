use ext_whisper::error::{ExceptionClass, WhisperError};
use ext_whisper::model::{Model, WhisperStage};
use ext_whisper::options::OptionValue;
use ext_whisper::wav::FileContents;

fn wav_bytes(samples: &[i16]) -> Vec<u8> {
    let spec = hound::WavSpec {
        channels: 1,
        sample_rate: 16_000,
        bits_per_sample: 16,
        sample_format: hound::SampleFormat::Int,
    };
    let mut cursor = std::io::Cursor::new(Vec::new());
    {
        let mut writer = hound::WavWriter::new(&mut cursor, spec).unwrap();
        for &s in samples {
            writer.write_sample(s).unwrap();
        }
        writer.finalize().unwrap();
    }
    cursor.into_inner()
}

fn message(e: WhisperError) -> String {
    e.message()
}

#[test]
fn model_construction_is_refused() {
    let e = Model::<u8>::__construct().err().unwrap();
    assert_eq!(e.message(), "use Displace\\Whisper\\Model::load() to construct a Model");
    assert_eq!(e.exception_class(), ExceptionClass::WhisperException);
}

#[test]
fn close_is_idempotent_and_refuses_later_runs() {
    let mut m = Model::from_context(7u8);
    assert_eq!(*m.context().unwrap(), 7);
    m.close();
    m.close();
    let e = m.context().unwrap_err();
    assert_eq!(e.message(), "model has been closed");
    assert_eq!(e.exception_class(), ExceptionClass::TranscriptionException);
    let e = m
        .prepare_transcription(
            "clip.wav",
            OptionValue::Unconvertible,
            OptionValue::Missing,
            OptionValue::Missing,
            &FileContents::NotAFile,
        )
        .err()
        .unwrap();
    assert_eq!(message(e), "model has been closed");
}

#[test]
fn default_handle_is_closed() {
    let m: Model<u8> = Model::default();
    assert!(m.context().is_err());
}

#[test]
fn prepare_applies_defaults() {
    let m = Model::from_context(1u8);
    let audio = FileContents::Bytes(wav_bytes(&[5, -5, 9]));
    let (c, req) = m
        .prepare_transcription("clip.wav", OptionValue::Missing, OptionValue::Missing, OptionValue::Missing, &audio)
        .ok()
        .unwrap();
    assert_eq!(*c, 1);
    assert_eq!(req.language, None);
    assert!(!req.translate);
    assert_eq!(req.threads, None);
    assert_eq!(req.samples, vec![5, -5, 9]);
}

#[test]
fn prepare_passes_options() {
    let m = Model::from_context(1u8);
    let audio = FileContents::Bytes(wav_bytes(&[1]));
    let (_, req) = m
        .prepare_transcription(
            "clip.wav",
            OptionValue::Found("de".to_string()),
            OptionValue::Found(true),
            OptionValue::Found(3),
            &audio,
        )
        .ok()
        .unwrap();
    assert_eq!(req.language, Some("de".to_string()));
    assert!(req.translate);
    assert_eq!(req.threads, Some(3));
}

#[test]
fn option_errors_come_before_audio_errors_and_thread_range_after() {
    let m = Model::from_context(1u8);
    let e = m
        .prepare_transcription("x.wav", OptionValue::Missing, OptionValue::Unconvertible, OptionValue::Missing, &FileContents::NotAFile)
        .err()
        .unwrap();
    assert_eq!(e.message(), "invalid option translate: expected bool");

    let e = m
        .prepare_transcription("x.wav", OptionValue::Missing, OptionValue::Missing, OptionValue::Found(0), &FileContents::NotAFile)
        .err()
        .unwrap();
    assert_eq!(
        e.message(),
        "invalid audio input: no such file: x.wav \u{2014} \
         convert with: ffmpeg -i input.ext -ar 16000 -ac 1 -c:a pcm_s16le out.wav"
    );

    let audio = FileContents::Bytes(wav_bytes(&[1]));
    let e = m
        .prepare_transcription("x.wav", OptionValue::Missing, OptionValue::Missing, OptionValue::Found(0), &audio)
        .err()
        .unwrap();
    assert_eq!(
        e.message(),
        "invalid option threads: must be at least 1 (omit the key for whisper.cpp's default)"
    );
}

#[test]
fn load_checks() {
    assert!(!Model::<u8>::load_use_gpu("m.bin", OptionValue::Missing, true).unwrap());
    assert!(Model::<u8>::load_use_gpu("m.bin", OptionValue::Found(true), true).unwrap());
    let e = Model::<u8>::load_use_gpu("m.bin", OptionValue::Missing, false).unwrap_err();
    assert_eq!(e.message(), "failed to load model: no such file: m.bin");
    assert_eq!(e.exception_class(), ExceptionClass::ModelLoadException);
    let e = Model::<u8>::load_use_gpu("m.bin", OptionValue::Unconvertible, false).unwrap_err();
    assert_eq!(e.message(), "invalid option use_gpu: expected bool");
    let e = Model::<u8>::load_failed("m.bin", "bad magic");
    assert_eq!(e.message(), "failed to load model: m.bin: bad magic");
}

#[test]
fn whisper_failures() {
    let e = Model::<u8>::transcription_failed(WhisperStage::CreateState, "oom");
    assert_eq!(e.message(), "transcription failed: state creation failed: oom");
    let e = Model::<u8>::transcription_failed(WhisperStage::Full, "-1");
    assert_eq!(e.message(), "transcription failed: whisper_full failed: -1");
    assert_eq!(e.exception_class(), ExceptionClass::TranscriptionException);
}

#[test]
fn options_then_request_in_two_steps() {
    let m = Model::from_context(9u8);
    let (c, opts) = m
        .transcribe_options(OptionValue::Missing, OptionValue::Found(false), OptionValue::Found(0))
        .ok()
        .unwrap();
    assert_eq!(*c, 9);
    assert_eq!(opts.language, None);
    assert!(!opts.translate);
    assert_eq!(opts.threads, Some(0));
    let e = opts.into_request("x.wav", &FileContents::Bytes(wav_bytes(&[1]))).err().unwrap();
    assert_eq!(
        e.message(),
        "invalid option threads: must be at least 1 (omit the key for whisper.cpp's default)"
    );

    let e = m
        .transcribe_options(OptionValue::Missing, OptionValue::Missing, OptionValue::Found(-3))
        .err()
        .unwrap();
    assert_eq!(e.message(), "invalid option threads: must be non-negative");
}

#[test]
fn absent_translate_is_false() {
    let m = Model::from_context(1u8);
    let audio = FileContents::Bytes(wav_bytes(&[4, 2]));
    let (_, a) = m
        .prepare_transcription("c.wav", OptionValue::Missing, OptionValue::Missing, OptionValue::Missing, &audio)
        .ok()
        .unwrap();
    let (_, b) = m
        .prepare_transcription("c.wav", OptionValue::Missing, OptionValue::Found(false), OptionValue::Missing, &audio)
        .ok()
        .unwrap();
    assert_eq!((a.language, a.translate, a.threads, a.samples), (b.language, b.translate, b.threads, b.samples));
    assert_eq!(
        Model::<u8>::load_use_gpu("m.bin", OptionValue::Missing, true).unwrap(),
        Model::<u8>::load_use_gpu("m.bin", OptionValue::Found(false), true).unwrap()
    );
}
