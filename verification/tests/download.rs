//! Downloading and deleting speech models.

use dl_voice_typing::commands::actions::Action;
use dl_voice_typing::commands::download::{
    chunk_arrived, delete_custom_model, get_whisper_models, model_of_size, percent_of, ChunkStep,
    Download, DownloadState,
};
use dl_voice_typing::commands::{FieldValue, Payload};
use dl_voice_typing::config::{AppConfig, DownloadMirror, WhisperModel};

#[test]
fn download_test_download_rejects_invalid_size() {
    let all = WhisperModel::all_built_in();
    let valid = all.iter().find(|m| m.size_str() == "huge");
    assert!(valid.is_none());
    assert!(model_of_size("huge").is_none());
}

#[test]
fn commands_test_download_rejects_invalid_size() {
    let mut ds = DownloadState::new();
    let e = ds.begin("huge", DownloadMirror::HfMirror).err().unwrap();
    assert_eq!((e.code.as_str(), e.message.as_str()), ("VALIDATION", "unknown model size: huge"));
    assert!(ds.active.is_none());
}

#[test]
fn download_test_download_guard_clears_active() {
    let mut ds = DownloadState::new();
    assert!(ds.begin("base", DownloadMirror::HfMirror).is_ok());
    assert_eq!(ds.active, Some("base".to_string()));
    ds.finish();
    assert_eq!(ds.active, None);
}

#[test]
fn commands_test_download_guard_clears_active() {
    let mut ds = DownloadState::new();
    assert!(ds.begin("tiny", DownloadMirror::HuggingFace).is_ok());
    let e = ds.begin("base", DownloadMirror::HuggingFace).err().unwrap();
    assert_eq!(e.code, "CONFLICT");
    assert_eq!(e.message, "a download is already in progress");
    assert_eq!(ds.active, Some("tiny".to_string()));
    ds.finish();
    assert_eq!(ds.active, None);
}

#[test]
fn download_test_cancel_download_sets_flag() {
    let mut ds = DownloadState::new();
    assert!(!ds.cancel);
    ds.cancel = true;
    assert!(ds.cancel);
}

#[test]
fn commands_test_cancel_download_sets_flag() {
    let mut ds = DownloadState::new();
    assert!(!ds.cancel);
    assert!(ds.cancel_download().is_ok());
    assert!(ds.cancel);
    assert!(ds.begin("base", DownloadMirror::HfMirror).is_ok());
    assert!(!ds.cancel);
}

#[test]
fn test_delete_rejects_builtin_filename() {
    let built_in = WhisperModel::built_in_filenames();
    assert!(built_in.contains(&"ggml-base.bin".to_string()));
    let e = delete_custom_model(&AppConfig::default(), "ggml-base.bin", true, Ok(()))
        .err()
        .unwrap();
    assert_eq!(e.code, "VALIDATION");
}

#[test]
fn a_model_is_fetched_from_the_mirror() {
    let mut ds = DownloadState::new();
    let t = ds.begin("base", DownloadMirror::HfMirror).ok().unwrap();
    assert_eq!(t.filename, "ggml-base.bin");
    assert_eq!(t.temp_name, "ggml-base.bin.tmp");
    assert!(t.url.starts_with("https://hf-mirror.com/"));
    assert!(t.url.ends_with("/ggml-base.bin"));
}

#[test]
fn a_deleted_model_is_no_longer_configured() {
    let used = AppConfig {
        whisper_model: WhisperModel::Custom("mine.bin".to_string()),
        ..Default::default()
    };
    let changed = delete_custom_model(&used, "mine.bin", true, Ok(())).ok().unwrap().unwrap();
    assert_eq!(changed.whisper_model, WhisperModel::Base);
    let kept = delete_custom_model(&used, "other.bin", true, Ok(())).ok().unwrap();
    assert!(kept.is_none());
    assert!(delete_custom_model(&used, "other.bin", false, Ok(())).is_err());
    assert!(delete_custom_model(&used, "other.bin", true, Err("busy".to_string())).is_err());
}

#[test]
fn models_are_listed() {
    let files = vec!["ggml-base.bin".to_string(), "mine.bin".to_string(), "notes.txt".to_string()];
    let r = get_whisper_models(&files);
    assert_eq!(r.built_in.len(), 8);
    for (size, present) in &r.built_in {
        assert_eq!(*present, size == "base");
    }
    assert_eq!(r.custom, vec!["mine.bin".to_string()]);
}

fn quotient_percent(downloaded: u64, total: u64) -> u8 {
    (downloaded as f64 / total as f64 * 100.0) as u8
}

#[test]
fn percents_are_those_of_floating_point_arithmetic() {
    let totals = [
        1u64, 2, 3, 7, 10, 99, 100, 101, 255, 256, 1000, 77_691_713, 147_951_465, 487_601_967,
        1_533_763_059, 0xFFFF_FFFF, (1 << 53) - 1, (1 << 53) + 1, (1 << 62) + 3, u64::MAX,
    ];
    for total in totals {
        for k in 0..=100u64 {
            let exact = (total as u128 * k as u128 / 100) as u64;
            for downloaded in [exact.saturating_sub(1), exact, exact.saturating_add(1)] {
                assert_eq!(
                    percent_of(downloaded, total),
                    quotient_percent(downloaded, total),
                    "{downloaded} of {total}"
                );
            }
        }
    }
    assert_eq!(percent_of(29, 100), 28);
    assert_eq!(percent_of(0, 0), quotient_percent(0, 0));
    assert_eq!(percent_of(1, 0), quotient_percent(1, 0));
    assert_eq!(percent_of(u64::MAX, 1), 255);
    assert_eq!(percent_of(1, u64::MAX), 0);
}

#[test]
fn every_new_percent_is_reported_once() {
    let mut d = Download::new("base".to_string(), Some(200));
    assert!(d.chunk_written(1, Ok(())).ok().unwrap().is_empty());
    let acts = d.chunk_written(1, Ok(())).ok().unwrap();
    match &acts[..] {
        [Action::Emit("download-progress", Payload::Fields(f))] => {
            assert!(matches!(&f[0].value, FieldValue::Text(s) if s == "base"));
            assert!(matches!(f[1].value, FieldValue::Number(1)));
            assert!(matches!(f[2].value, FieldValue::Number(2)));
            assert!(matches!(f[3].value, FieldValue::Number(200)));
        }
        _ => panic!("expected a report"),
    }
    assert!(d.chunk_written(1, Ok(())).ok().unwrap().is_empty());
    assert_eq!(d.downloaded, 3);
    assert!(d.chunk_written(1, Err("disk full".to_string())).is_err());
    let mut unknown = Download::new("base".to_string(), None);
    assert!(unknown.chunk_written(1000, Ok(())).ok().unwrap().is_empty());
}

#[test]
fn a_cancelled_or_broken_download_is_given_up() {
    assert!(matches!(chunk_arrived(false, Ok(())), ChunkStep::Write));
    assert!(matches!(chunk_arrived(true, Ok(())), ChunkStep::Abort(e) if e.code == "CANCELLED"));
    assert!(matches!(
        chunk_arrived(false, Err("reset".to_string())),
        ChunkStep::Abort(e) if e.code == "NETWORK" && e.message == "download stream error: reset"
    ));
    assert!(Download::renamed(Ok(())).is_ok());
    assert!(Download::renamed(Err("busy".to_string())).is_err());
}
