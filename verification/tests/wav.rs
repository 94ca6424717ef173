use ext_whisper::wav::{accept_stream, read_16khz_mono, FileContents, SampleFormat, WavSpec};

fn write_wav(spec: hound::WavSpec, samples: &[i16]) -> Vec<u8> {
    let mut cursor = std::io::Cursor::new(Vec::new());
    {
        let mut writer = hound::WavWriter::new(&mut cursor, spec).expect("writer");
        for &s in samples {
            writer.write_sample(s).expect("sample");
        }
        writer.finalize().expect("finalize");
    }
    cursor.into_inner()
}

fn spec(channels: u16, sample_rate: u32, bits: u16) -> hound::WavSpec {
    hound::WavSpec {
        channels,
        sample_rate,
        bits_per_sample: bits,
        sample_format: hound::SampleFormat::Int,
    }
}

fn read(bytes: Vec<u8>) -> Result<Vec<i16>, ext_whisper::error::WhisperError> {
    read_16khz_mono("clip.wav", &FileContents::Bytes(bytes))
}

#[test]
fn reads_conforming_wav_and_normalizes() {
    let bytes = write_wav(spec(1, 16_000, 16), &[0, 16_384, -32_768, 32_767]);

    let raw = read(bytes).expect("should read");
    assert_eq!(raw, vec![0, 16_384, -32_768, 32_767]);
    // The host hands whisper the samples scaled into [-1.0, 1.0].
    let samples: Vec<f32> = raw.iter().map(|&v| f32::from(v) / 32_768.0).collect();

    assert_eq!(samples.len(), 4);
    assert_eq!(samples[0], 0.0);
    assert!((samples[1] - 0.5).abs() < 1e-6);
    assert_eq!(samples[2], -1.0);
    assert!((samples[3] - 0.99997).abs() < 1e-4);
}

#[test]
fn rejects_stereo_with_ffmpeg_hint() {
    let bytes = write_wav(spec(2, 16_000, 16), &[0, 0, 0, 0]);

    let err = read(bytes).unwrap_err();
    let message = err.message();

    assert!(message.contains("2 channels"), "got: {message}");
    assert!(message.contains("ffmpeg -i"), "got: {message}");
}

#[test]
fn rejects_wrong_sample_rate() {
    let bytes = write_wav(spec(1, 44_100, 16), &[0, 0]);

    let message = read(bytes).unwrap_err().message();

    assert!(message.contains("44100Hz"), "got: {message}");
}

#[test]
fn rejects_non_16_bit_samples() {
    let spec = hound::WavSpec {
        channels: 1,
        sample_rate: 16_000,
        bits_per_sample: 32,
        sample_format: hound::SampleFormat::Float,
    };
    let mut cursor = std::io::Cursor::new(Vec::new());
    {
        let mut writer = hound::WavWriter::new(&mut cursor, spec).unwrap();
        writer.write_sample(0.0f32).unwrap();
        writer.finalize().unwrap();
    }

    let message = read(cursor.into_inner()).unwrap_err().message();

    assert!(message.contains("32-bit float"), "got: {message}");
}

#[test]
fn rejects_missing_file() {
    let message = read_16khz_mono("/no/such/file.wav", &FileContents::NotAFile)
        .unwrap_err()
        .message();

    assert!(message.contains("no such file"), "got: {message}");
}

#[test]
fn rejects_non_wav_bytes() {
    let message = read(b"definitely not RIFF data".to_vec())
        .unwrap_err()
        .message();

    assert!(message.contains("not a readable WAV"), "got: {message}");
}

#[test]
fn rejects_empty_wav() {
    let bytes = write_wav(spec(1, 16_000, 16), &[]);

    let message = read(bytes).unwrap_err().message();

    assert!(message.contains("no samples"), "got: {message}");
}

#[test]
fn format_errors_carry_full_messages() {
    let stereo = read(write_wav(spec(2, 16_000, 16), &[0, 0])).unwrap_err().message();
    assert_eq!(
        stereo,
        "invalid audio input: clip.wav: expected mono audio, got 2 channels \u{2014} \
         convert with: ffmpeg -i input.ext -ar 16000 -ac 1 -c:a pcm_s16le out.wav"
    );

    let rate = read(write_wav(spec(1, 8_000, 16), &[0])).unwrap_err().message();
    assert_eq!(
        rate,
        "invalid audio input: clip.wav: expected a 16000Hz sample rate, got 8000Hz \u{2014} \
         convert with: ffmpeg -i input.ext -ar 16000 -ac 1 -c:a pcm_s16le out.wav"
    );

    let bits = read(write_wav(spec(1, 16_000, 8), &[0])).unwrap_err().message();
    assert_eq!(
        bits,
        "invalid audio input: clip.wav: expected 16-bit PCM samples, got 8-bit integer \u{2014} \
         convert with: ffmpeg -i input.ext -ar 16000 -ac 1 -c:a pcm_s16le out.wav"
    );
}

#[test]
fn channels_are_checked_before_rate() {
    let message = read(write_wav(spec(2, 44_100, 16), &[0, 0])).unwrap_err().message();
    assert!(message.contains("2 channels"), "got: {message}");
    assert!(!message.contains("44100Hz"), "got: {message}");
}

#[test]
fn unreadable_file_reports_reason() {
    let err = read_16khz_mono("a.wav", &FileContents::Unreadable("permission denied".to_string()))
        .unwrap_err();
    assert_eq!(
        err.message(),
        "invalid audio input: a.wav: not a readable WAV file (permission denied) \u{2014} \
         convert with: ffmpeg -i input.ext -ar 16000 -ac 1 -c:a pcm_s16le out.wav"
    );
    assert_eq!(err.exception_class(), ext_whisper::error::ExceptionClass::AudioException);
}

#[test]
fn truncated_data_is_refused() {
    let mut bytes = write_wav(spec(1, 16_000, 16), &[1, 2, 3, 4]);
    bytes.truncate(bytes.len() - 1);
    let message = read(bytes).unwrap_err().message();
    assert!(message.starts_with("invalid audio input: clip.wav: truncated or corrupt WAV data ("), "got: {message}");
}

#[test]
fn samples_come_back_in_order() {
    let samples: Vec<i16> = (0..100).map(|i| (i * 37 - 1800) as i16).collect();
    let bytes = write_wav(spec(1, 16_000, 16), &samples);
    assert_eq!(read(bytes).unwrap(), samples);
}

#[test]
fn every_refusal_carries_the_ffmpeg_hint() {
    const HINT: &str = "convert with: ffmpeg -i input.ext -ar 16000 -ac 1 -c:a pcm_s16le out.wav";
    let missing = read_16khz_mono("gone.wav", &FileContents::NotAFile).unwrap_err().message();
    assert_eq!(missing, format!("invalid audio input: no such file: gone.wav \u{2014} {HINT}"));

    let not_wav = read(b"definitely not RIFF data".to_vec()).unwrap_err().message();
    assert!(not_wav.starts_with("invalid audio input: clip.wav: not a readable WAV file ("), "got: {not_wav}");
    assert!(not_wav.ends_with(HINT), "got: {not_wav}");

    let empty = read(write_wav(spec(1, 16_000, 16), &[])).unwrap_err().message();
    assert_eq!(empty, format!("invalid audio input: clip.wav: WAV file contains no samples \u{2014} {HINT}"));

    let mut bytes = write_wav(spec(1, 16_000, 16), &[1, 2, 3, 4]);
    bytes.truncate(bytes.len() - 1);
    let truncated = read(bytes).unwrap_err().message();
    assert!(truncated.ends_with(HINT), "got: {truncated}");
}

#[test]
fn accept_stream_decides_on_given_reads() {
    let ok = WavSpec { channels: 1, sample_rate: 16_000, bits_per_sample: 16, sample_format: SampleFormat::Int };
    let reads: Vec<Result<i16, String>> = vec![Ok(3), Ok(-4)];
    assert_eq!(accept_stream("s.wav", &ok, &reads).unwrap(), vec![3, -4]);

    let reads: Vec<Result<i16, String>> = vec![Ok(3), Err("eof".to_string()), Err("later".to_string())];
    assert!(accept_stream("s.wav", &ok, &reads)
        .unwrap_err()
        .message()
        .starts_with("invalid audio input: s.wav: truncated or corrupt WAV data (eof) \u{2014} "));

    let empty: Vec<Result<i16, String>> = vec![];
    assert!(accept_stream("s.wav", &ok, &empty).unwrap_err().message().contains("no samples"));

    let stereo = WavSpec { channels: 2, ..ok };
    assert!(accept_stream("s.wav", &stereo, &reads).unwrap_err().message().contains("2 channels"));
}
