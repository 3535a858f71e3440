//! Saved recordings: audio files and the notes about them.

use dl_voice_typing::config::{AppConfig, Language, WhisperModel};
use dl_voice_typing::data_saving::{
    classic_metadata, set_segment_result, set_transcription_result, RecordingMetadata, SaveConfig,
};
use dl_voice_typing::speech::Segment;
use dl_voice_typing::wav::{read_wav_samples, write_wav, HEADER_SIZE};

#[test]
fn test_wav_header_format() {
    let pcm = vec![0i16; 100];
    let bytes = write_wav(&pcm, 16000);
    assert_eq!(&bytes[0..4], b"RIFF");
    let file_size = u32::from_le_bytes([bytes[4], bytes[5], bytes[6], bytes[7]]);
    assert_eq!(file_size, 236);
    assert_eq!(&bytes[8..12], b"WAVE");
    assert_eq!(&bytes[12..16], b"fmt ");
    let audio_format = u16::from_le_bytes([bytes[20], bytes[21]]);
    assert_eq!(audio_format, 1);
    let channels = u16::from_le_bytes([bytes[22], bytes[23]]);
    assert_eq!(channels, 1);
    let sample_rate = u32::from_le_bytes([bytes[24], bytes[25], bytes[26], bytes[27]]);
    assert_eq!(sample_rate, 16000);
    let bits = u16::from_le_bytes([bytes[34], bytes[35]]);
    assert_eq!(bits, 16);
    assert_eq!(&bytes[36..40], b"data");
    let data_size = u32::from_le_bytes([bytes[40], bytes[41], bytes[42], bytes[43]]);
    assert_eq!(data_size, 200);
    assert_eq!(bytes.len(), HEADER_SIZE + 200);
}

#[test]
fn test_read_wav_samples_valid() {
    let bytes = write_wav(&vec![0x4000i16; 16000], 16_000);
    let (samples, duration_ms) = read_wav_samples(&bytes).ok().unwrap();
    assert_eq!(samples.len(), 16000);
    assert_eq!(duration_ms, 1000);
}

#[test]
fn test_read_wav_samples_rejects_bad_magic() {
    assert!(read_wav_samples(&vec![0u8; 100]).is_err());
}

#[test]
fn test_read_wav_samples_rejects_too_small() {
    assert!(read_wav_samples(&vec![0u8; 10]).is_err());
}

#[test]
fn test_read_wav_samples_rejects_wrong_rate() {
    let mut bytes = vec![0u8; 44];
    bytes[0..4].copy_from_slice(b"RIFF");
    bytes[8..12].copy_from_slice(b"WAVE");
    bytes[20..22].copy_from_slice(&1u16.to_le_bytes());
    bytes[22..24].copy_from_slice(&1u16.to_le_bytes());
    bytes[24..28].copy_from_slice(&8_000u32.to_le_bytes());
    bytes[34..36].copy_from_slice(&16u16.to_le_bytes());
    bytes[36..40].copy_from_slice(b"data");
    assert!(read_wav_samples(&bytes).is_err());
}

#[test]
fn samples_survive_a_round_trip() {
    let pcm = vec![0i16, 1, -1, i16::MAX, i16::MIN, 256, -257];
    let (samples, duration_ms) = read_wav_samples(&write_wav(&pcm, 16_000)).ok().unwrap();
    assert_eq!(samples, pcm);
    assert_eq!(duration_ms, 0);
    assert!(read_wav_samples(&write_wav(&pcm, 48_000)).is_err());
}

#[test]
fn test_update_json_with_text() {
    let mut m = RecordingMetadata::default();
    set_transcription_result(&mut m, "你好世界", Some("你好世界"), None);
    assert_eq!(m.transcription.as_deref(), Some("你好世界"));
    assert_eq!(m.llm_corrected.as_deref(), Some("你好世界"));
    assert_eq!(m.final_text, None);
}

#[test]
fn test_update_json_with_final_text() {
    let mut m = RecordingMetadata::default();
    set_transcription_result(&mut m, "原始转录", Some("LLM纠正"), Some("编辑后最终文本"));
    assert_eq!(m.transcription.as_deref(), Some("原始转录"));
    assert_eq!(m.llm_corrected.as_deref(), Some("LLM纠正"));
    assert_eq!(m.final_text.as_deref(), Some("编辑后最终文本"));
}

#[test]
fn test_update_json_cancelled_review() {
    let mut m = RecordingMetadata::default();
    set_transcription_result(&mut m, "原始转录", None, None);
    assert_eq!(m.transcription.as_deref(), Some("原始转录"));
    assert_eq!(m.llm_corrected, None);
    assert_eq!(m.final_text, None);
}

#[test]
fn untouched_notes_are_kept() {
    let mut m = RecordingMetadata {
        timestamp: Some("2026-08-19T12:00:00+08:00".to_string()),
        language: Some(Language::Zh),
        duration_ms: Some(12_500),
        transcription_status: Some("pending".to_string()),
        source: Some("record_only".to_string()),
        dropped_blocks: 3,
        ..Default::default()
    };
    set_transcription_result(&mut m, "你好", None, Some("最终"));
    assert_eq!(m.transcription.as_deref(), Some("你好"));
    assert_eq!(m.final_text.as_deref(), Some("最终"));
    assert_eq!(m.dropped_blocks, 3);
    assert_eq!(m.duration_ms, Some(12_500));
    assert_eq!(m.transcription_status.as_deref(), Some("pending"));
    let segments = vec![Segment { text: "你好".to_string(), start_ms: 0, end_ms: 900 }];
    set_segment_result(&mut m, &segments, "你好", Some("您好"));
    assert_eq!(m.segments.len(), 1);
    assert_eq!(m.segments[0].end_ms, 900);
    assert_eq!(m.llm_corrected.as_deref(), Some("您好"));
    assert_eq!(m.transcription_status.as_deref(), Some("done"));
    assert_eq!(m.final_text.as_deref(), Some("最终"));
    assert_eq!(m.source.as_deref(), Some("record_only"));
}

#[test]
fn fresh_recordings_are_noted_without_text() {
    let config = SaveConfig {
        enabled: true,
        path: "d".to_string(),
        language: Language::En,
        whisper_model: WhisperModel::Small,
    };
    let m = classic_metadata(&config, "t".to_string(), 48_000, 2_500);
    assert_eq!(m.timestamp.as_deref(), Some("t"));
    assert_eq!(m.language, Some(Language::En));
    assert_eq!(m.whisper_model, Some(WhisperModel::Small));
    assert_eq!(m.sample_rate, Some(16_000));
    assert_eq!(m.original_sample_rate, Some(48_000));
    assert_eq!(m.duration_ms, Some(2_500));
    assert_eq!(m.transcription, None);
    assert_eq!(m.source, None);
}

#[test]
fn saving_needs_a_switch_and_a_directory() {
    let mut c = AppConfig { data_saving_enabled: true, ..Default::default() };
    assert!(!SaveConfig::from_app_config(&c).is_active());
    c.data_saving_path = "d".to_string();
    assert!(SaveConfig::from_app_config(&c).is_active());
    c.data_saving_enabled = false;
    assert!(!SaveConfig::from_app_config(&c).is_active());
}
