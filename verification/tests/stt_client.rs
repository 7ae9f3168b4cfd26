use std::io::Cursor;

use handy::stt::{
    build_prompt, build_transcription_request, check_transcription_status, transcript_text,
    transcriptions_url, CloudSttError, CloudSttSettings, PostProcessProvider,
};
use handy::wav::{encode_wav, WHISPER_SAMPLE_RATE};

/// The float-to-PCM step that precedes encoding: clamp to [-1, 1], then
/// scale to the 16-bit range.
fn pcm16(audio: &[f32]) -> Vec<i16> {
    audio
        .iter()
        .map(|sample| (sample.clamp(-1.0, 1.0) * i16::MAX as f32) as i16)
        .collect()
}

fn hound_wav(samples: &[i16]) -> Vec<u8> {
    let spec = hound::WavSpec {
        channels: 1,
        sample_rate: WHISPER_SAMPLE_RATE,
        bits_per_sample: 16,
        sample_format: hound::SampleFormat::Int,
    };
    let mut buffer = Cursor::new(Vec::new());
    {
        let mut writer = hound::WavWriter::new(&mut buffer, spec).unwrap();
        for s in samples {
            writer.write_sample(*s).unwrap();
        }
        writer.finalize().unwrap();
    }
    buffer.into_inner()
}

#[test]
fn encodes_a_wav_with_a_riff_header() {
    let wav = encode_wav(&pcm16(&[0.0, 0.5, -0.5]));
    assert_eq!(&wav[0..4], b"RIFF");
    assert_eq!(&wav[8..12], b"WAVE");
}

#[test]
fn clamps_out_of_range_samples_instead_of_wrapping() {
    let wav = encode_wav(&pcm16(&[2.0, -2.0]));
    let mut reader = hound::WavReader::new(Cursor::new(wav)).expect("readable wav");
    let samples: Vec<i16> = reader.samples::<i16>().map(|s| s.unwrap()).collect();
    assert_eq!(samples, vec![i16::MAX, -i16::MAX]);
}

#[test]
fn encoded_wav_matches_hound_byte_for_byte() {
    for samples in [
        vec![],
        vec![0i16],
        vec![1, -1, i16::MAX, i16::MIN, 256, -256, 12345],
        pcm16(&[0.0, 0.5, -0.5, 1.0, -1.0]),
    ] {
        assert_eq!(encode_wav(&samples), hound_wav(&samples));
    }
}

#[test]
fn encoded_wav_has_exact_header_fields() {
    let wav = encode_wav(&[1, -2, 3]);
    assert_eq!(wav.len(), 44 + 6);
    assert_eq!(&wav[4..8], &(36u32 + 6).to_le_bytes());
    assert_eq!(&wav[12..16], b"fmt ");
    assert_eq!(&wav[24..28], &16000u32.to_le_bytes());
    assert_eq!(&wav[36..40], b"data");
    assert_eq!(&wav[40..44], &6u32.to_le_bytes());
    assert_eq!(&wav[44..], &[1, 0, 0xfe, 0xff, 3, 0]);
}

#[test]
fn builds_the_transcriptions_url_without_doubling_slashes() {
    assert_eq!(
        transcriptions_url("https://openrouter.ai/api/v1/"),
        "https://openrouter.ai/api/v1/audio/transcriptions"
    );
    assert_eq!(
        transcriptions_url("https://api.openai.com/v1"),
        "https://api.openai.com/v1/audio/transcriptions"
    );
}

#[test]
fn url_drops_every_trailing_slash() {
    assert_eq!(
        transcriptions_url("http://localhost:8000///"),
        "http://localhost:8000/audio/transcriptions"
    );
    assert_eq!(transcriptions_url(""), "/audio/transcriptions");
}

#[test]
fn prompt_joins_trimmed_words_and_drops_empty_ones() {
    let words = vec![
        "  Verus ".to_string(),
        "".to_string(),
        "\t\n".to_string(),
        "Handy".to_string(),
        " OpenRouter\u{3000}".to_string(),
    ];
    assert_eq!(build_prompt(&words), "Verus, Handy, OpenRouter");
    assert_eq!(build_prompt(&vec![]), "");
    assert_eq!(build_prompt(&vec!["  ".to_string()]), "");
}

fn provider(id: &str, label: &str, base_url: &str) -> PostProcessProvider {
    PostProcessProvider {
        id: id.to_string(),
        label: label.to_string(),
        base_url: base_url.to_string(),
    }
}

fn settings() -> CloudSttSettings {
    CloudSttSettings {
        cloud_stt_provider_id: " openai ".to_string(),
        cloud_stt_model: " whisper-1 ".to_string(),
        post_process_providers: vec![
            provider("apple", "Apple", "apple-intelligence://local"),
            provider("openai", "OpenAI", "https://api.openai.com/v1/"),
        ],
        post_process_api_keys: vec![
            ("apple".to_string(), "".to_string()),
            ("openai".to_string(), "  sk-test  ".to_string()),
        ],
        custom_words: vec!["Verus".to_string(), " ".to_string(), "Tauri".to_string()],
    }
}

fn error_of(settings: &CloudSttSettings) -> CloudSttError {
    match build_transcription_request(settings, &[0, 1], None) {
        Ok(_) => panic!("expected an error"),
        Err(e) => e,
    }
}

#[test]
fn request_carries_url_model_key_audio_and_hint() {
    let request = build_transcription_request(&settings(), &[0, 1, -1], Some("de")).unwrap();
    assert_eq!(request.url, "https://api.openai.com/v1/audio/transcriptions");
    assert_eq!(request.model, "whisper-1");
    assert_eq!(request.authorization, "Bearer sk-test");
    assert_eq!(request.wav, encode_wav(&[0, 1, -1]));
    assert_eq!(request.language.as_deref(), Some("de"));
    assert_eq!(request.prompt.as_deref(), Some("Verus, Tauri"));
}

#[test]
fn auto_or_empty_language_is_left_to_the_provider() {
    for language in [None, Some("auto"), Some("")] {
        let request = build_transcription_request(&settings(), &[], language).unwrap();
        assert_eq!(request.language, None);
    }
}

#[test]
fn empty_hint_is_not_sent() {
    let mut s = settings();
    s.custom_words = vec!["   ".to_string()];
    let request = build_transcription_request(&s, &[], None).unwrap();
    assert_eq!(request.prompt, None);
}

#[test]
fn missing_provider_is_refused() {
    let mut s = settings();
    s.cloud_stt_provider_id = "   ".to_string();
    let e = error_of(&s);
    assert!(matches!(e, CloudSttError::NoProviderSelected));
    assert_eq!(e.message(), "Cloud transcription is enabled but no provider is selected");
}

#[test]
fn unknown_provider_is_refused() {
    let mut s = settings();
    s.cloud_stt_provider_id = " groq ".to_string();
    let e = error_of(&s);
    assert_eq!(e.message(), "Unknown cloud transcription provider 'groq'");
}

#[test]
fn provider_without_http_endpoint_is_refused() {
    let mut s = settings();
    s.cloud_stt_provider_id = "apple".to_string();
    let e = error_of(&s);
    assert_eq!(
        e.message(),
        "Provider 'apple' has no HTTP endpoint and cannot be used for transcription"
    );
}

#[test]
fn missing_model_is_refused() {
    let mut s = settings();
    s.cloud_stt_model = " \t".to_string();
    let e = error_of(&s);
    assert_eq!(e.message(), "Cloud transcription is enabled but no model is set");
}

#[test]
fn missing_api_key_is_refused() {
    let mut s = settings();
    s.post_process_api_keys = vec![("openai".to_string(), "   ".to_string())];
    assert_eq!(error_of(&s).message(), "No API key configured for 'OpenAI'");
    s.post_process_api_keys = vec![];
    assert_eq!(error_of(&s).message(), "No API key configured for 'OpenAI'");
}

#[test]
fn api_key_with_control_characters_is_refused() {
    let mut s = settings();
    s.post_process_api_keys = vec![("openai".to_string(), "sk-\u{7}bell".to_string())];
    let e = error_of(&s);
    assert!(matches!(e, CloudSttError::InvalidApiKey));
    assert_eq!(e.message(), "API key contains characters that cannot be sent in a header");
}

#[test]
fn api_key_beyond_ascii_is_accepted() {
    let mut s = settings();
    s.post_process_api_keys = vec![("openai".to_string(), "clé\tx".to_string())];
    let request = build_transcription_request(&s, &[], None).unwrap();
    assert_eq!(request.authorization, "Bearer clé\tx");
}

#[test]
fn failed_reply_is_cut_to_three_hundred_characters() {
    assert_eq!(check_transcription_status(true, "200 OK", "ignored"), Ok(()));
    let body = "é".repeat(400);
    let err = check_transcription_status(false, "402 Payment Required", &body).unwrap_err();
    assert_eq!(err, format!("Transcription failed (402 Payment Required): {}", "é".repeat(300)));
    let err = check_transcription_status(false, "404 Not Found", "no model").unwrap_err();
    assert_eq!(err, "Transcription failed (404 Not Found): no model");
}

#[test]
fn transcript_is_trimmed_and_defaults_to_empty() {
    assert_eq!(transcript_text(Some("  hello world \n".to_string())), "hello world");
    assert_eq!(transcript_text(None), "");
}

#[test]
fn audio_too_long_error_text() {
    assert_eq!(
        CloudSttError::AudioTooLong.message(),
        "Failed to encode audio sample: the recording is too long for a WAV file"
    );
}
