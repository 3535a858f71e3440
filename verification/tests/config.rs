//! The configuration.

use dl_voice_typing::config::persistence;
use dl_voice_typing::config::{
    check_whisper_models, model_path_for_size, scan_custom_models, AppConfig, ConfigCache,
    DownloadMirror, Language, WhisperModel,
};
use dl_voice_typing::error::AppError;
use dl_voice_typing::hotkey::windows::HotkeySpec;

fn seal(s: &str) -> Option<Vec<u8>> {
    Some(s.bytes().map(|b| b ^ 0x5A).collect())
}

fn unseal(v: Vec<u8>) -> Option<Vec<u8>> {
    Some(v.into_iter().map(|b| b ^ 0x5A).collect())
}

fn refuse(_: Vec<u8>) -> Option<Vec<u8>> {
    None
}

#[test]
fn schema_test_default_values() {
    let config = AppConfig::default();
    assert_eq!(
        config.hotkey,
        HotkeySpec {
            ctrl: false,
            shift: false,
            alt: false,
            vk: 0xA3,
        }
    );
    assert_eq!(config.language, Language::Zh);
    assert_eq!(config.whisper_model, WhisperModel::Base);
    assert_eq!(config.download_mirror, DownloadMirror::HfMirror);
    assert!(!config.llm_enabled);
    assert!(config.llm_api_url.is_empty());
}

#[test]
fn test_whisper_model_helpers() {
    assert_eq!(WhisperModel::Tiny.filename(), "ggml-tiny.bin");
    assert_eq!(WhisperModel::Base.filename(), "ggml-base.bin");
    assert_eq!(WhisperModel::Small.filename(), "ggml-small.bin");
    assert_eq!(WhisperModel::Medium.filename(), "ggml-medium.bin");

    assert_eq!(WhisperModel::Tiny.display_size(), "75MB");
    assert_eq!(WhisperModel::Base.display_size(), "142MB");
    assert_eq!(WhisperModel::Small.display_size(), "466MB");
    assert_eq!(WhisperModel::Medium.display_size(), "1.5GB");

    assert_eq!(WhisperModel::all_built_in().len(), 8);

    assert_eq!(WhisperModel::Tiny.size_str(), "tiny");
    assert_eq!(WhisperModel::Base.size_str(), "base");
    assert_eq!(WhisperModel::Small.size_str(), "small");
    assert_eq!(WhisperModel::Medium.size_str(), "medium");
}

#[test]
fn test_language_helpers() {
    assert_eq!(Language::all().len(), 4);
    assert_eq!(Language::Zh.code(), "zh");
    assert_eq!(Language::En.code(), "en");
    assert_eq!(Language::Ja.code(), "ja");
    assert_eq!(Language::Ko.code(), "ko");
    assert_eq!(Language::Zh.display_name(), "中文");
    assert_eq!(Language::En.display_name(), "English");
    assert_eq!(Language::Ja.display_name(), "日本語");
    assert_eq!(Language::Ko.display_name(), "한국어");
}

#[test]
fn test_download_mirror_helpers() {
    assert_eq!(DownloadMirror::all().len(), 2);
    assert_eq!(
        DownloadMirror::HfMirror.display_name(),
        "HF-Mirror (国内加速)"
    );
    assert_eq!(
        DownloadMirror::HuggingFace.display_name(),
        "HuggingFace (国际)"
    );
    assert!(
        DownloadMirror::HfMirror
            .base_url()
            .starts_with("https://hf-mirror.com")
    );
    assert!(
        DownloadMirror::HuggingFace
            .base_url()
            .starts_with("https://huggingface.co")
    );
}

#[test]
fn schema_test_validate_rejects_invalid_hotkey() {
    let config = AppConfig {
        hotkey: HotkeySpec {
            ctrl: false,
            shift: false,
            alt: false,
            vk: 0,
        },
        ..Default::default()
    };
    assert!(config.validate().is_err());
}

#[test]
fn schema_test_validate_rejects_empty_llm_when_enabled() {
    let config = AppConfig {
        llm_enabled: true,
        llm_api_url: String::new(),
        ..Default::default()
    };
    assert!(config.validate().is_err());
}

#[test]
fn schema_test_validate_accepts_valid_config() {
    let config = AppConfig::default();
    assert!(config.validate().is_ok());
}

#[test]
fn schema_test_validate_accepts_llm_disabled_with_empty_fields() {
    let config = AppConfig {
        llm_enabled: false,
        ..Default::default()
    };
    assert!(config.validate().is_ok());
}

#[test]
fn schema_test_validate_accepts_data_saving_disabled() {
    let config = AppConfig {
        data_saving_enabled: false,
        data_saving_path: String::new(),
        ..Default::default()
    };
    assert!(config.validate().is_ok());
}

#[test]
fn schema_test_validate_rejects_data_saving_without_path() {
    let config = AppConfig {
        data_saving_enabled: true,
        data_saving_path: String::new(),
        ..Default::default()
    };
    assert!(config.validate().is_err());
}

#[test]
fn schema_test_debug_masks_api_key() {
    let config = AppConfig {
        llm_api_key: "sk-super-secret".to_string(),
        ..Default::default()
    };
    let debug_str = config.debug_text();
    assert!(debug_str.contains("******"));
    assert!(!debug_str.contains("sk-super-secret"));
}

#[test]
fn schema_test_debug_shows_empty_key() {
    let config = AppConfig::default();
    let debug_str = config.debug_text();
    assert!(!debug_str.contains("******"));
    assert!(debug_str.contains("llm_api_key"));
}

#[test]
fn test_whisper_model_is_custom() {
    assert!(!WhisperModel::Base.is_custom());
    assert!(WhisperModel::Custom("x.bin".to_string()).is_custom());
}

#[test]
fn test_whisper_model_q8_helpers() {
    assert_eq!(WhisperModel::BaseQ8.filename(), "ggml-base-q8_0.bin");
    assert_eq!(WhisperModel::BaseQ8.display_size(), "~75MB");
    assert_eq!(WhisperModel::BaseQ8.size_str(), "base-q8_0");
    assert!(WhisperModel::BaseQ8.is_q8());
    assert!(!WhisperModel::Base.is_q8());
}

#[test]
fn test_record_only_defaults() {
    let config = AppConfig::default();
    assert!(!config.record_only_enabled);
    assert_eq!(
        config.record_only_hotkey,
        HotkeySpec {
            ctrl: false,
            shift: false,
            alt: false,
            vk: 0xA5,
        }
    );
}

#[test]
fn test_validate_rejects_same_hotkeys_when_record_only_enabled() {
    let config = AppConfig {
        record_only_enabled: true,
        record_only_hotkey: HotkeySpec {
            ctrl: false,
            shift: false,
            alt: false,
            vk: 0xA3, // same as default hotkey
        },
        ..Default::default()
    };
    assert!(config.validate().is_err());
}

#[test]
fn test_validate_rejects_invalid_record_only_hotkey() {
    let config = AppConfig {
        record_only_hotkey: HotkeySpec {
            ctrl: false,
            shift: false,
            alt: false,
            vk: 0, // invalid — roundtrip fails
        },
        ..Default::default()
    };
    assert!(config.validate().is_err());
}

#[test]
fn test_validate_accepts_record_only_with_distinct_hotkey() {
    let config = AppConfig {
        record_only_enabled: true,
        record_only_hotkey: HotkeySpec {
            ctrl: false,
            shift: false,
            alt: false,
            vk: 0xA5,
        },
        data_saving_path: "D:\\recordings".to_string(),
        ..Default::default()
    };
    assert!(config.validate().is_ok());
}

#[test]
fn test_validate_rejects_record_only_without_path() {
    let config = AppConfig {
        record_only_enabled: true,
        record_only_hotkey: HotkeySpec {
            ctrl: false,
            shift: false,
            alt: false,
            vk: 0xA5,
        },
        data_saving_path: String::new(),
        ..Default::default()
    };
    assert!(config.validate().is_err());
}

#[test]
fn validate_rejects_zero_vk_and_duplicate_spec() {
    let zero = AppConfig {
        hotkey: HotkeySpec {
            vk: 0,
            ..Default::default()
        },
        ..Default::default()
    };
    assert!(zero.validate().is_err(), "vk=0 rejected");

    let unknown = AppConfig {
        hotkey: HotkeySpec {
            vk: 32, // space — not in NAMED_KEYS, not a letter/digit
            ..Default::default()
        },
        ..Default::default()
    };
    assert!(
        unknown.validate().is_err(),
        "arbitrary u32 vk rejected by roundtrip check"
    );

    let same = AppConfig {
        record_only_enabled: true,
        record_only_hotkey: HotkeySpec {
            vk: 0xA3, // same as default hotkey
            ..Default::default()
        },
        data_saving_path: "D:\\recordings".to_string(),
        ..Default::default()
    };
    assert!(same.validate().is_err(), "duplicate hotkey spec rejected");
}

#[test]
fn default_specs_unchanged() {
    let config = AppConfig::default();
    assert_eq!(
        config.hotkey,
        HotkeySpec {
            ctrl: false,
            shift: false,
            alt: false,
            vk: 0xA3,
        }
    );
    assert_eq!(
        config.record_only_hotkey,
        HotkeySpec {
            ctrl: false,
            shift: false,
            alt: false,
            vk: 0xA5,
        }
    );
}

#[test]
fn hotkey_spec_display_string() {
    assert_eq!(
        HotkeySpec {
            ctrl: false,
            shift: false,
            alt: false,
            vk: 0xA3,
        }
        .display(),
        "RightCtrl"
    );
    assert_eq!(
        HotkeySpec {
            ctrl: true,
            shift: true,
            alt: false,
            vk: 0x41,
        }
        .display(),
        "Ctrl+Shift+A"
    );
    assert_eq!(
        HotkeySpec {
            ctrl: false,
            shift: false,
            alt: false,
            vk: 0xA5,
        }
        .display(),
        "RightAlt"
    );
}

#[test]
fn test_read_cached_returns_default() {
    let cache = ConfigCache::new(AppConfig::default());
    let result = cache.read_cached();
    assert_eq!(
        result.hotkey,
        HotkeySpec {
            ctrl: false,
            shift: false,
            alt: false,
            vk: 0xA3,
        }
    );
}

#[test]
fn test_default_config_validates() {
    let config = AppConfig::default();
    assert!(config.validate().is_ok());
}

#[test]
fn config_cmd_test_validate_rejects_invalid_hotkey() {
    let config = AppConfig {
        hotkey: HotkeySpec {
            ctrl: false,
            shift: false,
            alt: false,
            vk: 0,
        },
        ..Default::default()
    };
    assert!(config.validate().is_err());
}

#[test]
fn config_cmd_test_validate_rejects_empty_llm_when_enabled() {
    let config = AppConfig {
        llm_enabled: true,
        llm_api_url: String::new(),
        ..Default::default()
    };
    assert!(config.validate().is_err());
}

#[test]
fn config_cmd_test_validate_accepts_valid_config() {
    let config = AppConfig::default();
    assert!(config.validate().is_ok());
}

#[test]
fn config_cmd_test_validate_accepts_llm_disabled_with_empty_fields() {
    let config = AppConfig {
        llm_enabled: false,
        ..Default::default()
    };
    assert!(config.validate().is_ok());
}

#[test]
fn config_test_validate_rejects_data_saving_without_path() {
    let config = AppConfig {
        data_saving_enabled: true,
        data_saving_path: String::new(),
        ..Default::default()
    };
    assert!(config.validate().is_err());
}

#[test]
fn test_validate_accepts_data_saving_with_path() {
    let config = AppConfig {
        data_saving_enabled: true,
        data_saving_path: "/tmp/training-data".to_string(),
        ..Default::default()
    };
    assert!(config.validate().is_ok());
}

#[test]
fn config_test_validate_accepts_data_saving_disabled() {
    let config = AppConfig {
        data_saving_enabled: false,
        data_saving_path: String::new(),
        ..Default::default()
    };
    assert!(config.validate().is_ok());
}

#[test]
fn test_new_fields_default_values() {
    let config = AppConfig::default();
    assert!(!config.data_saving_enabled);
    assert!(config.data_saving_path.is_empty());
}

#[test]
fn config_test_debug_masks_api_key() {
    let config = AppConfig {
        llm_api_key: "sk-super-secret".to_string(),
        ..Default::default()
    };
    let debug_str = config.debug_text();
    assert!(debug_str.contains("******"));
    assert!(!debug_str.contains("sk-super-secret"));
}

#[test]
fn config_test_debug_shows_empty_key() {
    let config = AppConfig::default();
    let debug_str = config.debug_text();
    assert!(!debug_str.contains("******"));
    assert!(debug_str.contains("llm_api_key"));
}

#[test]
fn commands_test_validate_rejects_empty_llm_when_enabled() {
    let config = AppConfig {
        llm_enabled: true,
        llm_api_url: String::new(),
        ..Default::default()
    };
    assert!(config.validate().is_err());
}

#[test]
fn commands_test_validate_accepts_valid_config() {
    let config = AppConfig::default();
    assert!(config.validate().is_ok());
}

#[test]
fn commands_test_validate_accepts_llm_disabled_with_empty_fields() {
    let config = AppConfig {
        llm_enabled: false,
        ..Default::default()
    };
    assert!(config.validate().is_ok());
}

#[test]
fn config_test_default_values() {
    let config = AppConfig::default();
    assert_eq!(config.hotkey.display(), "RightCtrl");
    assert_eq!(config.language.code(), "zh");
    assert_eq!(config.whisper_model.to_key(), "base");
    assert!(!config.llm_enabled);
    assert!(config.llm_api_url.is_empty());
}

#[test]
fn test_validate_rejects_invalid_whisper_model() {
    assert!(WhisperModel::from_key("huge").is_err());
}

#[test]
fn commands_test_validate_rejects_invalid_hotkey() {
    assert!(HotkeySpec::from_legacy_name("NoSuchKey").is_err());
}

#[test]
fn test_cache_reads_initial_config() {
    let config = AppConfig {
        hotkey: HotkeySpec::from_legacy_name("F9").unwrap(),
        ..Default::default()
    };
    let cache = ConfigCache::new(config.clone());
    let cached = cache.read_cached();
    assert_eq!(cached.hotkey.display(), "F9");
}

#[test]
fn only_a_saved_configuration_replaces_the_cached_one() {
    let mut cache = ConfigCache::new(AppConfig::default());
    let config = AppConfig { autostart: true, ..Default::default() };
    let failed = cache.save_cached(&config, Err(AppError::Io("disk full".to_string())));
    assert!(failed.is_err());
    assert!(!cache.read_cached().autostart);
    assert!(cache.save_cached(&config, Ok(())).is_ok());
    assert!(cache.read_cached().autostart);
}

#[test]
fn test_enum_serialization_format() {
    assert_eq!(Language::Zh.code(), "zh");
    assert_eq!(Language::En.code(), "en");
    assert_eq!(WhisperModel::Base.to_key(), "base");
    assert_eq!(DownloadMirror::HfMirror.id(), "hf-mirror");
    assert_eq!(DownloadMirror::HuggingFace.id(), "huggingface");
}

#[test]
fn test_enum_deserialization_from_string() {
    assert_eq!(WhisperModel::from_key("tiny").unwrap(), WhisperModel::Tiny);
    assert_eq!(Language::from_code("ja"), Some(Language::Ja));
    assert_eq!(DownloadMirror::from_id("huggingface"), Some(DownloadMirror::HuggingFace));
}

#[test]
fn test_whisper_model_custom_serde_roundtrip() {
    let model = WhisperModel::Custom("my-model.bin".to_string());
    let key = model.to_key();
    assert_eq!(key, "custom:my-model.bin");
    assert_eq!(WhisperModel::from_key(&key).unwrap(), model);
}

#[test]
fn test_whisper_model_custom_deserialize_invalid() {
    assert!(WhisperModel::from_key("something-random").is_err());
}

#[test]
fn test_whisper_model_custom_deserialize_empty_custom() {
    assert!(WhisperModel::from_key("custom:").is_err());
}

#[test]
fn test_whisper_model_q8_serde_roundtrip() {
    for model in [
        WhisperModel::TinyQ8,
        WhisperModel::BaseQ8,
        WhisperModel::SmallQ8,
        WhisperModel::MediumQ8,
    ] {
        assert_eq!(WhisperModel::from_key(&model.to_key()).unwrap(), model);
    }
}

#[test]
fn hotkey_spec_parses_legacy_string() {
    let parsed = HotkeySpec::from_legacy_name("RightCtrl").expect("legacy string");
    assert_eq!(parsed.vk, 0xA3);
    assert!(!parsed.ctrl);
    assert_eq!(HotkeySpec::from_legacy_name("rctrl").expect("alias").vk, 0xA3);
    assert_eq!(HotkeySpec::from_legacy_name("escape").expect("escape").vk, 0x1B);
}

#[test]
fn hotkey_spec_legacy_string_unknown_errors() {
    let result = HotkeySpec::from_legacy_name("NoSuchKey");
    assert!(result.is_err(), "unknown legacy name must error");
}

#[test]
fn persistence_test_save_encrypts_api_key() {
    let config = AppConfig { llm_api_key: "sk-test-secret-key".to_string(), ..Default::default() };
    let for_disk = config.for_disk(&seal).unwrap();
    assert!(for_disk.llm_api_key.starts_with("DPAPI:"));
    assert_ne!(for_disk.llm_api_key, "sk-test-secret-key");
}

#[test]
fn persistence_test_save_empty_key_not_encrypted() {
    let config = AppConfig { llm_api_key: String::new(), ..Default::default() };
    assert_eq!(config.for_disk(&seal).unwrap().llm_api_key, "");
}

#[test]
fn persistence_test_load_decrypts_encrypted_key() {
    let encrypted = dl_voice_typing::crypto::encrypt("sk-test-key", &seal).unwrap();
    let mut config = AppConfig { llm_api_key: encrypted, ..Default::default() };
    config.decrypt_at_load(&unseal).unwrap();
    assert_eq!(config.llm_api_key, "sk-test-key");
}

#[test]
fn persistence_test_load_preserves_plaintext_key() {
    let mut config = AppConfig { llm_api_key: "sk-plaintext-legacy".to_string(), ..Default::default() };
    config.decrypt_at_load(&unseal).unwrap();
    assert_eq!(config.llm_api_key, "sk-plaintext-legacy");
}

#[test]
fn test_for_disk_conditionally_encrypts_api_url_with_query_credential() {
    let config = AppConfig {
        llm_api_url: "https://x.com/v1?key=abc&model=gpt".to_string(),
        ..Default::default()
    };
    let for_disk = config.for_disk(&seal).unwrap();
    assert!(for_disk.llm_api_url.starts_with("DPAPI:"));
    let mut loaded = for_disk;
    loaded.decrypt_at_load(&unseal).unwrap();
    assert_eq!(loaded.llm_api_url, "https://x.com/v1?key=abc&model=gpt");
}

#[test]
fn test_for_disk_keeps_plain_api_url_plaintext() {
    let config = AppConfig {
        llm_api_url: "https://api.example.com/v1".to_string(),
        ..Default::default()
    };
    let for_disk = config.for_disk(&seal).unwrap();
    assert_eq!(for_disk.llm_api_url, "https://api.example.com/v1");
}

#[test]
fn test_for_disk_skips_empty_api_url() {
    let config = AppConfig { llm_api_url: String::new(), ..Default::default() };
    let for_disk = config.for_disk(&seal).unwrap();
    assert_eq!(for_disk.llm_api_url, "");
}

#[test]
fn test_decrypt_at_load_preserves_plaintext_credential_url() {
    let mut config = AppConfig {
        llm_api_url: "https://x.com/v1?key=abc".to_string(),
        ..Default::default()
    };
    config.decrypt_at_load(&unseal).unwrap();
    assert_eq!(config.llm_api_url, "https://x.com/v1?key=abc");
}

#[test]
fn test_decrypt_at_load_propagates_decrypt_error() {
    let mut config = AppConfig {
        llm_api_url: "DPAPI:!!!invalid-base64!!!".to_string(),
        ..Default::default()
    };
    assert!(config.decrypt_at_load(&unseal).is_err());
}

#[test]
fn a_blob_of_another_machine_is_reported() {
    let encrypted = dl_voice_typing::crypto::encrypt("sk-test-key", &seal).unwrap();
    let mut config = AppConfig { llm_api_key: encrypted, ..Default::default() };
    assert!(config.decrypt_at_load(&refuse).is_err());
}

#[test]
fn test_model_path_for_size() {
    let path = model_path_for_size(Some("root".to_string()), &WhisperModel::Base);
    assert_eq!(path.root, "root");
    assert!(path.below.iter().any(|s| s == "ggml-base.bin"));
}

#[test]
fn persistence_test_check_whisper_models() {
    let models = check_whisper_models(&vec!["ggml-base.bin".to_string()]);
    assert_eq!(models.len(), 8);
    for size in ["tiny", "base", "small", "medium"] {
        assert!(models.iter().any(|(s, _)| s == size));
    }
    assert!(models.iter().any(|(s, there)| s == "base" && *there));
    assert!(models.iter().any(|(s, there)| s == "tiny" && !*there));
}

#[test]
fn test_scan_custom_models() {
    let files = vec![
        "other-model.bin".to_string(),
        "ggml-base.bin".to_string(),
        "my-custom.bin".to_string(),
        "readme.txt".to_string(),
    ];
    let customs = scan_custom_models(&files);
    assert_eq!(customs, vec!["my-custom.bin", "other-model.bin"]);
}

#[test]
fn the_rendering_names_every_field() {
    let config = AppConfig { llm_model: "a \"b\"".to_string(), ..Default::default() };
    let shown = config.debug_text();
    assert!(shown.contains("llm_model: \"a \\\"b\\\"\""), "{shown}");
    assert!(shown.contains("language: Zh"));
}

#[test]
fn missing_parts_of_an_enabled_correction_are_reported() {
    let config = AppConfig {
        llm_enabled: true,
        llm_api_url: "https://api.example.com/v1".to_string(),
        ..Default::default()
    };
    assert!(matches!(config.validate(), Err(AppError::Config(_))));
}

#[test]
fn config_test_save_encrypts_api_key() {
    let config =
        AppConfig { llm_api_key: "sk-test-secret-key".to_string(), ..Default::default() };
    let for_disk = config.for_disk(&seal).ok().unwrap();
    assert!(for_disk.llm_api_key.starts_with("DPAPI:"));
    assert_ne!(for_disk.llm_api_key, "sk-test-secret-key");
}

#[test]
fn config_test_save_empty_key_not_encrypted() {
    let config = AppConfig { llm_api_key: String::new(), ..Default::default() };
    assert_eq!(config.for_disk(&seal).ok().unwrap().llm_api_key, "");
}

#[test]
fn config_test_load_decrypts_encrypted_key() {
    let config = AppConfig { llm_api_key: "sk-test-key".to_string(), ..Default::default() };
    let mut loaded = config.for_disk(&seal).ok().unwrap();
    assert!(loaded.decrypt_at_load(&unseal).is_ok());
    assert_eq!(loaded.llm_api_key, "sk-test-key");
}

#[test]
fn config_test_load_preserves_plaintext_key() {
    let mut config =
        AppConfig { llm_api_key: "sk-plaintext-legacy".to_string(), ..Default::default() };
    assert!(config.decrypt_at_load(&unseal).is_ok());
    assert_eq!(config.llm_api_key, "sk-plaintext-legacy");
}

#[test]
fn files_stand_below_the_configuration_directory() {
    let root = || Some("C:/Users/x".to_string());
    let file = AppConfig::config_path(root()).unwrap();
    assert_eq!(file.root, "C:/Users/x");
    assert_eq!(file.below, vec!["dl-voice-typing", "config.json"]);
    assert_eq!(AppConfig::config_dir(root()).unwrap().below, vec!["dl-voice-typing"]);
    assert_eq!(persistence::models_dir(root()).below, vec!["dl-voice-typing", "models"]);
    let here = persistence::models_dir(None);
    assert_eq!((here.root.as_str(), here.below.len()), (".", 1));
    match AppConfig::config_path(None) {
        Ok(_) => panic!("expected an error"),
        Err(e) => assert!(e.to_string().ends_with("cannot determine config directory")),
    }
}
