use moss_weights::mode::{classify_mode, parse_mode, previews_chunks, ModeError, SynthesisMode};
use moss_weights::text::{starts_with, str_eq, str_greater};
use moss_weights::wav::{has_audio, interleave, waveform_layout, wav_channels};

#[test]
fn mode_names_are_case_insensitive() {
    assert_eq!(parse_mode("Voice_Clone", true), Ok(SynthesisMode::VoiceClone));
    assert_eq!(parse_mode("CONTINUATION", false), Ok(SynthesisMode::Continuation));
    assert_eq!(parse_mode("continuation", true), Ok(SynthesisMode::Continuation));
}

#[test]
fn voice_clone_needs_prompt_audio() {
    assert_eq!(parse_mode("voice_clone", false), Err(ModeError::MissingPromptAudio));
    assert_eq!(classify_mode("voice_clone", true), Ok(SynthesisMode::VoiceClone));
}

#[test]
fn unknown_modes_are_refused() {
    assert_eq!(parse_mode("tts", true), Err(ModeError::Unsupported));
    assert_eq!(parse_mode("voice-clone", true), Err(ModeError::Unsupported));
    assert_eq!(parse_mode("", false), Err(ModeError::Unsupported));
    assert_eq!(classify_mode("Continuation", false), Err(ModeError::Unsupported));
}

#[test]
fn chunk_preview_only_in_voice_clone() {
    assert!(previews_chunks(true, SynthesisMode::VoiceClone));
    assert!(!previews_chunks(true, SynthesisMode::Continuation));
    assert!(!previews_chunks(false, SynthesisMode::VoiceClone));
}

#[test]
fn waveform_shapes() {
    assert_eq!(waveform_layout(&[2, 48000]), (2, 48000));
    assert_eq!(waveform_layout(&[48000]), (1, 48000));
    assert_eq!(waveform_layout(&[1, 2, 3]), (1, 1));
    assert!(has_audio(1));
    assert!(!has_audio(0));
}

#[test]
fn wav_channel_count_is_a_u16() {
    assert_eq!(wav_channels(2), 2);
    assert_eq!(wav_channels(65535), 65535);
    assert_eq!(wav_channels(65537), 1);
}

#[test]
fn stereo_is_interleaved_left_first() {
    let l = [1.0f32, 2.0, 3.0];
    let r = [-1.0f32, -2.0, -3.0, -4.0];
    assert_eq!(interleave(&l, &r, 3), vec![1.0, -1.0, 2.0, -2.0, 3.0, -3.0]);
    assert_eq!(interleave(&l, &r, 1), vec![1.0, -1.0]);
    assert!(interleave(&l, &r, 0).is_empty());
}

#[test]
fn string_helpers() {
    assert!(str_eq("héllo", "héllo"));
    assert!(!str_eq("hello", "hellO"));
    assert!(!str_eq("hell", "hello"));
    assert!(starts_with("models_backup_1", "models_backup_"));
    assert!(!starts_with("models_backu", "models_backup_"));
    assert!(starts_with("abc", ""));
    assert!(str_greater("b", "abc"));
    assert!(str_greater("abc", "ab"));
    assert!(!str_greater("ab", "ab"));
    assert!(!str_greater("ab", "abc"));
    assert!(str_greater("é", "z"));
}
