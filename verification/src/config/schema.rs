//! Configuration data: models, languages, mirrors and the configuration record.

use crate::error::AppError;
use crate::hotkey::keys;
use crate::hotkey::windows;
use crate::hotkey::windows::HotkeySpec;
use crate::text;
use vstd::prelude::*;

verus! {

/// Base URL for downloading Q8_0 quantized models.
pub const Q8_MODELS_BASE_URL: &'static str =
    "https://huggingface.co/denny-lg/whisper-quantized/resolve/main";

/// Speech model used for transcription: a built-in size or a file that the user supplied.
#[derive(Debug, PartialEq, Eq)]
pub enum WhisperModel {
    Tiny,
    TinyQ8,
    Base,
    BaseQ8,
    Small,
    SmallQ8,
    Medium,
    MediumQ8,
    Custom(String),
}

impl Clone for WhisperModel {
    fn clone(&self) -> (m: Self)
        ensures
            m == *self,
    {
        match self {
            WhisperModel::Tiny => WhisperModel::Tiny,
            WhisperModel::TinyQ8 => WhisperModel::TinyQ8,
            WhisperModel::Base => WhisperModel::Base,
            WhisperModel::BaseQ8 => WhisperModel::BaseQ8,
            WhisperModel::Small => WhisperModel::Small,
            WhisperModel::SmallQ8 => WhisperModel::SmallQ8,
            WhisperModel::Medium => WhisperModel::Medium,
            WhisperModel::MediumQ8 => WhisperModel::MediumQ8,
            WhisperModel::Custom(name) => WhisperModel::Custom(name.clone()),
        }
    }
}

impl Default for WhisperModel {
    fn default() -> (m: Self)
        ensures
            m is Base,
    {
        WhisperModel::Base
    }
}

impl WhisperModel {
    /// The size identifier of a built-in model; nothing for a custom one.
    pub open spec fn size_name(self) -> Seq<char> {
        match self {
            WhisperModel::Tiny => "tiny"@,
            WhisperModel::TinyQ8 => "tiny-q8_0"@,
            WhisperModel::Base => "base"@,
            WhisperModel::BaseQ8 => "base-q8_0"@,
            WhisperModel::Small => "small"@,
            WhisperModel::SmallQ8 => "small-q8_0"@,
            WhisperModel::Medium => "medium"@,
            WhisperModel::MediumQ8 => "medium-q8_0"@,
            WhisperModel::Custom(_) => ""@,
        }
    }

    /// The name of the model's file.
    pub open spec fn file(self) -> Seq<char> {
        match self {
            WhisperModel::Tiny => "ggml-tiny.bin"@,
            WhisperModel::TinyQ8 => "ggml-tiny-q8_0.bin"@,
            WhisperModel::Base => "ggml-base.bin"@,
            WhisperModel::BaseQ8 => "ggml-base-q8_0.bin"@,
            WhisperModel::Small => "ggml-small.bin"@,
            WhisperModel::SmallQ8 => "ggml-small-q8_0.bin"@,
            WhisperModel::Medium => "ggml-medium.bin"@,
            WhisperModel::MediumQ8 => "ggml-medium-q8_0.bin"@,
            WhisperModel::Custom(name) => name@,
        }
    }

    /// How a download size is shown.
    pub open spec fn shown_size(self) -> Seq<char> {
        match self {
            WhisperModel::Tiny => "75MB"@,
            WhisperModel::TinyQ8 => "~40MB"@,
            WhisperModel::Base => "142MB"@,
            WhisperModel::BaseQ8 => "~75MB"@,
            WhisperModel::Small => "466MB"@,
            WhisperModel::SmallQ8 => "~250MB"@,
            WhisperModel::Medium => "1.5GB"@,
            WhisperModel::MediumQ8 => "~800MB"@,
            WhisperModel::Custom(_) => ""@,
        }
    }

    /// The text by which a configuration file names the model: the size of a built-in one, or
    /// `custom:` and the file name.
    pub open spec fn key(self) -> Seq<char> {
        match self {
            WhisperModel::Custom(name) => "custom:"@ + name@,
            _ => self.size_name(),
        }
    }

    /// Returns the model filename (e.g. `ggml-base.bin`), or the name of a user-supplied model.
    pub fn filename(&self) -> (s: String)
        ensures
            s@ == self.file(),
    {
        match self {
            WhisperModel::Tiny => "ggml-tiny.bin".to_owned(),
            WhisperModel::TinyQ8 => "ggml-tiny-q8_0.bin".to_owned(),
            WhisperModel::Base => "ggml-base.bin".to_owned(),
            WhisperModel::BaseQ8 => "ggml-base-q8_0.bin".to_owned(),
            WhisperModel::Small => "ggml-small.bin".to_owned(),
            WhisperModel::SmallQ8 => "ggml-small-q8_0.bin".to_owned(),
            WhisperModel::Medium => "ggml-medium.bin".to_owned(),
            WhisperModel::MediumQ8 => "ggml-medium-q8_0.bin".to_owned(),
            WhisperModel::Custom(name) => name.clone(),
        }
    }

    /// Returns the human-readable download size, or `""` for custom models.
    pub fn display_size(&self) -> (s: &'static str)
        ensures
            s@ == self.shown_size(),
    {
        match self {
            WhisperModel::Tiny => "75MB",
            WhisperModel::TinyQ8 => "~40MB",
            WhisperModel::Base => "142MB",
            WhisperModel::BaseQ8 => "~75MB",
            WhisperModel::Small => "466MB",
            WhisperModel::SmallQ8 => "~250MB",
            WhisperModel::Medium => "1.5GB",
            WhisperModel::MediumQ8 => "~800MB",
            WhisperModel::Custom(_) => "",
        }
    }

    /// The built-in models in order.
    pub open spec fn built_in() -> Seq<WhisperModel> {
        seq![
            WhisperModel::Tiny,
            WhisperModel::TinyQ8,
            WhisperModel::Base,
            WhisperModel::BaseQ8,
            WhisperModel::Small,
            WhisperModel::SmallQ8,
            WhisperModel::Medium,
            WhisperModel::MediumQ8,
        ]
    }

    /// All built-in variants in order.
    pub fn all_built_in() -> (v: Vec<WhisperModel>)
        ensures
            v@ == Self::built_in(),
    {
        vec![
            WhisperModel::Tiny,
            WhisperModel::TinyQ8,
            WhisperModel::Base,
            WhisperModel::BaseQ8,
            WhisperModel::Small,
            WhisperModel::SmallQ8,
            WhisperModel::Medium,
            WhisperModel::MediumQ8,
        ]
    }

    /// The size identifier used by the frontend and the download API (e.g. "tiny", "base").
    pub fn size_str(&self) -> (s: &'static str)
        ensures
            s@ == self.size_name(),
    {
        match self {
            WhisperModel::Tiny => "tiny",
            WhisperModel::TinyQ8 => "tiny-q8_0",
            WhisperModel::Base => "base",
            WhisperModel::BaseQ8 => "base-q8_0",
            WhisperModel::Small => "small",
            WhisperModel::SmallQ8 => "small-q8_0",
            WhisperModel::Medium => "medium",
            WhisperModel::MediumQ8 => "medium-q8_0",
            WhisperModel::Custom(_) => "",
        }
    }

    /// Returns true if this is a custom user-added model.
    pub fn is_custom(&self) -> (r: bool)
        ensures
            r == (*self is Custom),
    {
        match self {
            WhisperModel::Custom(_) => true,
            _ => false,
        }
    }

    /// Returns true if this is a Q8_0 quantized model.
    pub fn is_q8(&self) -> (r: bool)
        ensures
            r == (*self is TinyQ8 || *self is BaseQ8 || *self is SmallQ8 || *self is MediumQ8),
    {
        match self {
            WhisperModel::TinyQ8 => true,
            WhisperModel::BaseQ8 => true,
            WhisperModel::SmallQ8 => true,
            WhisperModel::MediumQ8 => true,
            _ => false,
        }
    }

    /// Whether a file name is that of a built-in model.
    pub open spec fn built_in_file(name: Seq<char>) -> bool {
        exists|i: int| 0 <= i < 8 && (#[trigger] Self::built_in()[i]).file() == name
    }

    /// Returns the filenames of the built-in models, in order.
    pub fn built_in_filenames() -> (v: Vec<String>)
        ensures
            v@.len() == 8,
            forall|i: int| 0 <= i < 8 ==> (#[trigger] v@[i])@ == Self::built_in()[i].file(),
    {
        let all = Self::all_built_in();
        let mut v: Vec<String> = Vec::new();
        let mut i: usize = 0;
        while i < all.len()
            invariant
                all@ == Self::built_in(),
                i <= 8,
                v@.len() == i,
                forall|j: int| 0 <= j < i ==> (#[trigger] v@[j])@ == Self::built_in()[j].file(),
            decreases 8 - i,
        {
            v.push(all[i].filename());
            i = i + 1;
        }
        v
    }

    /// The text by which a configuration file names the model.
    pub fn to_key(&self) -> (s: String)
        ensures
            s@ == self.key(),
    {
        match self {
            WhisperModel::Custom(name) => "custom:".to_owned().concat(name.as_str()),
            _ => self.size_str().to_owned(),
        }
    }

    /// The model that a configuration file names. A custom model needs a name.
    pub fn from_key(s: &str) -> (r: Result<WhisperModel, AppError>)
        ensures
            match r {
                Ok(m) => m.key() == s@ && (m matches WhisperModel::Custom(name) ==> name@.len()
                    > 0),
                Err(e) => {
                    &&& e is Config
                    &&& forall|i: int| 0 <= i < 8 ==> (#[trigger] Self::built_in()[i]).key() != s@
                    &&& if s@ == "custom:"@ {
                        e.detail() == "custom model name cannot be empty"@
                    } else {
                        !text::begins_with(s@, "custom:"@) && e.detail() == "unknown model: "@ + s@
                    }
                },
            },
    {
        let all = Self::all_built_in();
        let mut i: usize = 0;
        while i < all.len()
            invariant
                all@ == Self::built_in(),
                i <= 8,
                forall|j: int| 0 <= j < i ==> (#[trigger] Self::built_in()[j]).key() != s@,
            decreases 8 - i,
        {
            if text::same_text(all[i].size_str(), s) {
                return Ok(all[i].clone());
            }
            assert(Self::built_in()[i as int].key() != s@);
            i = i + 1;
        }
        proof {
            reveal_strlit("custom:");
        }
        if text::starts_with(s, "custom:") {
            let v = text::chars_of(s);
            if v.len() == 7 {
                assert(s@ =~= s@.take(7));
                Err(AppError::Config("custom model name cannot be empty".to_owned()))
            } else {
                let name = text::text_between(&v, 7, v.len());
                assert(s@ =~= "custom:"@ + name@) by {
                    assert(s@.take(7) == "custom:"@);
                    assert(forall|j: int| 0 <= j < 7 ==> s@.take(7)[j] == s@[j]);
                }
                Ok(WhisperModel::Custom(name))
            }
        } else {
            assert("custom:"@.take(7) =~= "custom:"@);
            Err(AppError::Config("unknown model: ".to_owned().concat(s)))
        }
    }
}

/// Supported recognition languages.
#[derive(Debug, Clone, Copy, PartialEq, Eq, Structural)]
pub enum Language {
    Zh,
    En,
    Ja,
    Ko,
}

impl Default for Language {
    fn default() -> (l: Self)
        ensures
            l == Language::Zh,
    {
        Language::Zh
    }
}

/// The short code of a language.
pub open spec fn language_code(l: Language) -> Seq<char> {
    match l {
        Language::Zh => "zh"@,
        Language::En => "en"@,
        Language::Ja => "ja"@,
        Language::Ko => "ko"@,
    }
}

impl Language {
    /// All variants in order.
    pub fn all() -> (v: Vec<Language>)
        ensures
            v@ == seq![Language::Zh, Language::En, Language::Ja, Language::Ko],
    {
        vec![Language::Zh, Language::En, Language::Ja, Language::Ko]
    }

    /// Short language code (e.g. "zh", "en").
    pub fn code(self) -> (s: &'static str)
        ensures
            s@ == language_code(self),
    {
        match self {
            Language::Zh => "zh",
            Language::En => "en",
            Language::Ja => "ja",
            Language::Ko => "ko",
        }
    }

    /// Human-readable display name.
    pub fn display_name(self) -> (s: &'static str)
        ensures
            s@ == (match self {
                Language::Zh => "中文"@,
                Language::En => "English"@,
                Language::Ja => "日本語"@,
                Language::Ko => "한국어"@,
            }),
    {
        match self {
            Language::Zh => "中文",
            Language::En => "English",
            Language::Ja => "日本語",
            Language::Ko => "한국어",
        }
    }

    /// The language with this code.
    pub fn from_code(s: &str) -> (r: Option<Language>)
        ensures
            match r {
                Some(l) => language_code(l) == s@,
                None => forall|any: Language| #[trigger] language_code(any) != s@,
            },
    {
        if text::same_text(s, "zh") {
            Some(Language::Zh)
        } else if text::same_text(s, "en") {
            Some(Language::En)
        } else if text::same_text(s, "ja") {
            Some(Language::Ja)
        } else if text::same_text(s, "ko") {
            Some(Language::Ko)
        } else {
            None
        }
    }
}

/// Download mirror for model files.
#[derive(Debug, Clone, Copy, PartialEq, Eq, Structural)]
pub enum DownloadMirror {
    HfMirror,
    HuggingFace,
}

impl Default for DownloadMirror {
    fn default() -> (m: Self)
        ensures
            m == DownloadMirror::HfMirror,
    {
        DownloadMirror::HfMirror
    }
}

/// The identifier of a mirror in a configuration file.
pub open spec fn mirror_id(m: DownloadMirror) -> Seq<char> {
    match m {
        DownloadMirror::HfMirror => "hf-mirror"@,
        DownloadMirror::HuggingFace => "huggingface"@,
    }
}

/// The address below which a mirror keeps the model files.
pub open spec fn mirror_url(m: DownloadMirror) -> Seq<char> {
    match m {
        DownloadMirror::HfMirror => "https://hf-mirror.com/ggerganov/whisper.cpp/resolve/main"@,
        DownloadMirror::HuggingFace => "https://huggingface.co/ggerganov/whisper.cpp/resolve/main"@,
    }
}

impl DownloadMirror {
    /// All variants in order.
    pub fn all() -> (v: Vec<DownloadMirror>)
        ensures
            v@ == seq![DownloadMirror::HfMirror, DownloadMirror::HuggingFace],
    {
        vec![DownloadMirror::HfMirror, DownloadMirror::HuggingFace]
    }

    /// Human-readable display name.
    pub fn display_name(self) -> (s: &'static str)
        ensures
            s@ == (match self {
                DownloadMirror::HfMirror => "HF-Mirror (国内加速)"@,
                DownloadMirror::HuggingFace => "HuggingFace (国际)"@,
            }),
    {
        match self {
            DownloadMirror::HfMirror => "HF-Mirror (国内加速)",
            DownloadMirror::HuggingFace => "HuggingFace (国际)",
        }
    }

    /// Base URL for downloading models.
    pub fn base_url(self) -> (s: &'static str)
        ensures
            s@ == mirror_url(self),
    {
        match self {
            DownloadMirror::HfMirror => "https://hf-mirror.com/ggerganov/whisper.cpp/resolve/main",
            DownloadMirror::HuggingFace =>
                "https://huggingface.co/ggerganov/whisper.cpp/resolve/main",
        }
    }

    /// The identifier of the mirror in a configuration file.
    pub fn id(self) -> (s: &'static str)
        ensures
            s@ == mirror_id(self),
    {
        match self {
            DownloadMirror::HfMirror => "hf-mirror",
            DownloadMirror::HuggingFace => "huggingface",
        }
    }

    /// The mirror with this identifier.
    pub fn from_id(s: &str) -> (r: Option<DownloadMirror>)
        ensures
            match r {
                Some(m) => mirror_id(m) == s@,
                None => forall|any: DownloadMirror| #[trigger] mirror_id(any) != s@,
            },
    {
        if text::same_text(s, "hf-mirror") {
            Some(DownloadMirror::HfMirror)
        } else if text::same_text(s, "huggingface") {
            Some(DownloadMirror::HuggingFace)
        } else {
            None
        }
    }
}

/// Operational mode of the voice pipeline.
#[derive(Debug, Clone, Copy, PartialEq, Eq, Structural)]
pub enum PipelineMode {
    /// Full transcription, direct paste.
    ClassicDirect,
    /// Full transcription, review window.
    ClassicReview,
    /// Realtime transcription, direct paste.
    RealtimeDirect,
    /// Realtime transcription, live review window.
    RealtimeReview,
}

/// The mode that the two flags stand for.
pub open spec fn mode_of(realtime: bool, review: bool) -> PipelineMode {
    if realtime {
        if review {
            PipelineMode::RealtimeReview
        } else {
            PipelineMode::RealtimeDirect
        }
    } else {
        if review {
            PipelineMode::ClassicReview
        } else {
            PipelineMode::ClassicDirect
        }
    }
}

/// Application configuration.
pub struct AppConfig {
    /// Hotkey spec (default: RightCtrl with no modifiers).
    pub hotkey: HotkeySpec,
    /// Recognition language.
    pub language: Language,
    /// Speech model.
    pub whisper_model: WhisperModel,
    /// Whether language-model post-processing is enabled.
    pub llm_enabled: bool,
    /// Language-model API base URL.
    pub llm_api_url: String,
    /// Language-model API key.
    pub llm_api_key: String,
    /// Language-model name.
    pub llm_model: String,
    /// Download mirror.
    pub download_mirror: DownloadMirror,
    /// Whether to save audio and transcription locally.
    pub data_saving_enabled: bool,
    /// Directory for saved recordings.
    pub data_saving_path: String,
    /// Whether to show a review window before pasting.
    pub review_before_paste: bool,
    /// Whether to start with the system.
    pub autostart: bool,
    /// Whether realtime transcription is enabled.
    pub realtime_transcription: bool,
    /// Whether record-only mode is enabled.
    pub record_only_enabled: bool,
    /// Hotkey spec for record-only mode (default: RightAlt with no modifiers).
    pub record_only_hotkey: HotkeySpec,
}

impl Clone for AppConfig {
    fn clone(&self) -> (c: Self)
        ensures
            c == *self,
    {
        AppConfig {
            hotkey: self.hotkey,
            language: self.language,
            whisper_model: self.whisper_model.clone(),
            llm_enabled: self.llm_enabled,
            llm_api_url: self.llm_api_url.clone(),
            llm_api_key: self.llm_api_key.clone(),
            llm_model: self.llm_model.clone(),
            download_mirror: self.download_mirror,
            data_saving_enabled: self.data_saving_enabled,
            data_saving_path: self.data_saving_path.clone(),
            review_before_paste: self.review_before_paste,
            autostart: self.autostart,
            realtime_transcription: self.realtime_transcription,
            record_only_enabled: self.record_only_enabled,
            record_only_hotkey: self.record_only_hotkey,
        }
    }
}

/// A key with no modifiers.
pub open spec fn bare_key(vk: u32) -> HotkeySpec {
    HotkeySpec { ctrl: false, shift: false, alt: false, vk }
}

pub fn default_hotkey() -> (s: HotkeySpec)
    ensures
        s == bare_key(0xA3),
{
    HotkeySpec { ctrl: false, shift: false, alt: false, vk: 0xA3 }
}

pub fn default_record_only_hotkey() -> (s: HotkeySpec)
    ensures
        s == bare_key(0xA5),
{
    HotkeySpec { ctrl: false, shift: false, alt: false, vk: 0xA5 }
}

/// The configuration of a fresh installation.
pub open spec fn is_default(c: AppConfig) -> bool {
    &&& c.hotkey == bare_key(0xA3)
    &&& c.language == Language::Zh
    &&& c.whisper_model is Base
    &&& !c.llm_enabled
    &&& c.llm_api_url@.len() == 0
    &&& c.llm_api_key@.len() == 0
    &&& c.llm_model@.len() == 0
    &&& c.download_mirror == DownloadMirror::HfMirror
    &&& !c.data_saving_enabled
    &&& c.data_saving_path@.len() == 0
    &&& !c.review_before_paste
    &&& !c.autostart
    &&& !c.realtime_transcription
    &&& !c.record_only_enabled
    &&& c.record_only_hotkey == bare_key(0xA5)
}

impl Default for AppConfig {
    fn default() -> (c: Self)
        ensures
            is_default(c),
    {
        AppConfig {
            hotkey: default_hotkey(),
            language: Language::Zh,
            whisper_model: WhisperModel::Base,
            llm_enabled: false,
            llm_api_url: String::new(),
            llm_api_key: String::new(),
            llm_model: String::new(),
            download_mirror: DownloadMirror::HfMirror,
            data_saving_enabled: false,
            data_saving_path: String::new(),
            review_before_paste: false,
            autostart: false,
            realtime_transcription: false,
            record_only_enabled: false,
            record_only_hotkey: default_record_only_hotkey(),
        }
    }
}

/// What is wrong with a configuration, if anything; of several faults the first in this order.
pub open spec fn config_fault(c: AppConfig) -> Option<Seq<char>> {
    if !keys::resolvable(c.hotkey.vk) {
        Some("invalid hotkey: "@ + windows::shown_spec(c.hotkey))
    } else if !keys::resolvable(c.record_only_hotkey.vk) {
        Some("invalid record_only_hotkey: "@ + windows::shown_spec(c.record_only_hotkey))
    } else if c.record_only_enabled && c.hotkey == c.record_only_hotkey {
        Some("hotkey and record_only_hotkey must be different"@)
    } else if c.llm_enabled && (c.llm_api_url@.len() == 0 || c.llm_api_key@.len() == 0
        || c.llm_model@.len() == 0) {
        Some("LLM API URL, Key, and Model are required when LLM is enabled"@)
    } else if c.data_saving_enabled && text::trimmed(c.data_saving_path@).len() == 0 {
        Some("Data saving path is required when data saving is enabled"@)
    } else if c.record_only_enabled && text::trimmed(c.data_saving_path@).len() == 0 {
        Some("Data saving path is required when record-only mode is enabled"@)
    } else {
        None
    }
}

/// `"..."` around the text with special characters escaped, as std renders a string for debugging.
pub uninterp spec fn debug_quoted(s: Seq<char>) -> Seq<char>;

/// `<str as Debug>::fmt` of std, through `format!`: the rendering depends on the text alone and is
/// given the name `debug_quoted`.
#[verifier::external_body]
fn quoted(s: &str) -> (r: String)
    ensures
        r@ == debug_quoted(s@),
{
    format!("{:?}", s)
}

pub open spec fn bool_text(b: bool) -> Seq<char> {
    if b {
        "true"@
    } else {
        "false"@
    }
}

fn bool_str(b: bool) -> (s: &'static str)
    ensures
        s@ == bool_text(b),
{
    if b {
        "true"
    } else {
        "false"
    }
}

/// The debug rendering of a hotkey specification.
pub open spec fn debug_spec(s: HotkeySpec) -> Seq<char> {
    "HotkeySpec { ctrl: "@ + bool_text(s.ctrl) + ", shift: "@ + bool_text(s.shift) + ", alt: "@
        + bool_text(s.alt) + ", vk: "@ + text::decimal(s.vk as nat) + " }"@
}

fn spec_text(s: &HotkeySpec) -> (r: String)
    ensures
        r@ == debug_spec(*s),
{
    "HotkeySpec { ctrl: ".to_owned().concat(bool_str(s.ctrl)).concat(", shift: ").concat(
        bool_str(s.shift),
    ).concat(", alt: ").concat(bool_str(s.alt)).concat(", vk: ").concat(
        text::decimal_text(s.vk as u64).as_str(),
    ).concat(" }")
}

/// The debug rendering of a model.
pub open spec fn debug_model(m: WhisperModel) -> Seq<char> {
    match m {
        WhisperModel::Tiny => "Tiny"@,
        WhisperModel::TinyQ8 => "TinyQ8"@,
        WhisperModel::Base => "Base"@,
        WhisperModel::BaseQ8 => "BaseQ8"@,
        WhisperModel::Small => "Small"@,
        WhisperModel::SmallQ8 => "SmallQ8"@,
        WhisperModel::Medium => "Medium"@,
        WhisperModel::MediumQ8 => "MediumQ8"@,
        WhisperModel::Custom(name) => "Custom("@ + debug_quoted(name@) + ")"@,
    }
}

fn model_text(m: &WhisperModel) -> (r: String)
    ensures
        r@ == debug_model(*m),
{
    match m {
        WhisperModel::Tiny => "Tiny".to_owned(),
        WhisperModel::TinyQ8 => "TinyQ8".to_owned(),
        WhisperModel::Base => "Base".to_owned(),
        WhisperModel::BaseQ8 => "BaseQ8".to_owned(),
        WhisperModel::Small => "Small".to_owned(),
        WhisperModel::SmallQ8 => "SmallQ8".to_owned(),
        WhisperModel::Medium => "Medium".to_owned(),
        WhisperModel::MediumQ8 => "MediumQ8".to_owned(),
        WhisperModel::Custom(name) => "Custom(".to_owned().concat(
            quoted(name.as_str()).as_str(),
        ).concat(")"),
    }
}

/// The debug rendering of a language.
pub open spec fn debug_language(l: Language) -> Seq<char> {
    match l {
        Language::Zh => "Zh"@,
        Language::En => "En"@,
        Language::Ja => "Ja"@,
        Language::Ko => "Ko"@,
    }
}

/// The debug rendering of a mirror.
pub open spec fn debug_mirror(m: DownloadMirror) -> Seq<char> {
    match m {
        DownloadMirror::HfMirror => "HfMirror"@,
        DownloadMirror::HuggingFace => "HuggingFace"@,
    }
}

/// What the debug rendering shows in place of the API key.
pub open spec fn shown_key(key: Seq<char>) -> Seq<char> {
    if key.len() == 0 {
        ""@
    } else {
        "******"@
    }
}

/// The debug rendering of a configuration: every field under its name, the API key masked.
pub open spec fn debug_config(c: AppConfig) -> Seq<char> {
    "AppConfig { hotkey: "@ + debug_spec(c.hotkey) + ", language: "@ + debug_language(c.language)
        + ", whisper_model: "@ + debug_model(c.whisper_model) + ", llm_enabled: "@ + bool_text(
        c.llm_enabled,
    ) + ", llm_api_url: "@ + debug_quoted(c.llm_api_url@) + ", llm_api_key: "@ + debug_quoted(
        shown_key(c.llm_api_key@),
    ) + ", llm_model: "@ + debug_quoted(c.llm_model@) + ", download_mirror: "@ + debug_mirror(
        c.download_mirror,
    ) + ", data_saving_enabled: "@ + bool_text(c.data_saving_enabled) + ", data_saving_path: "@
        + debug_quoted(c.data_saving_path@) + ", review_before_paste: "@ + bool_text(
        c.review_before_paste,
    ) + ", autostart: "@ + bool_text(c.autostart) + ", realtime_transcription: "@ + bool_text(
        c.realtime_transcription,
    ) + ", record_only_enabled: "@ + bool_text(c.record_only_enabled) + ", record_only_hotkey: "@
        + debug_spec(c.record_only_hotkey) + " }"@
}

impl AppConfig {
    /// Validate config fields.
    pub fn validate(&self) -> (r: Result<(), AppError>)
        ensures
            match r {
                Ok(_) => config_fault(*self) is None,
                Err(e) => e is Config && config_fault(*self) == Some(e.detail()),
            },
    {
        if !keys::is_resolvable_vk(self.hotkey.vk) {
            let shown = self.hotkey.display();
            return Err(AppError::Config("invalid hotkey: ".to_owned().concat(shown.as_str())));
        }
        if !keys::is_resolvable_vk(self.record_only_hotkey.vk) {
            let shown = self.record_only_hotkey.display();
            return Err(
                AppError::Config("invalid record_only_hotkey: ".to_owned().concat(shown.as_str())),
            );
        }
        if self.record_only_enabled && self.hotkey == self.record_only_hotkey {
            return Err(
                AppError::Config("hotkey and record_only_hotkey must be different".to_owned()),
            );
        }
        if self.llm_enabled && (self.llm_api_url.as_str().is_empty()
            || self.llm_api_key.as_str().is_empty() || self.llm_model.as_str().is_empty()) {
            return Err(
                AppError::Config(
                    "LLM API URL, Key, and Model are required when LLM is enabled".to_owned(),
                ),
            );
        }
        let no_path = text::trim(self.data_saving_path.as_str()).as_str().is_empty();
        if self.data_saving_enabled && no_path {
            return Err(
                AppError::Config(
                    "Data saving path is required when data saving is enabled".to_owned(),
                ),
            );
        }
        if self.record_only_enabled && no_path {
            return Err(
                AppError::Config(
                    "Data saving path is required when record-only mode is enabled".to_owned(),
                ),
            );
        }
        Ok(())
    }

    /// Derive the pipeline mode from the realtime and review flags.
    pub fn pipeline_mode(&self) -> (m: PipelineMode)
        ensures
            m == mode_of(self.realtime_transcription, self.review_before_paste),
    {
        match (self.realtime_transcription, self.review_before_paste) {
            (false, false) => PipelineMode::ClassicDirect,
            (false, true) => PipelineMode::ClassicReview,
            (true, false) => PipelineMode::RealtimeDirect,
            (true, true) => PipelineMode::RealtimeReview,
        }
    }

    /// A rendering for logs: every field under its name, the API key masked.
    pub fn debug_text(&self) -> (s: String)
        ensures
            s@ == debug_config(*self),
    {
        let key = if self.llm_api_key.as_str().is_empty() {
            ""
        } else {
            "******"
        };
        let language = match self.language {
            Language::Zh => "Zh",
            Language::En => "En",
            Language::Ja => "Ja",
            Language::Ko => "Ko",
        };
        let mirror = match self.download_mirror {
            DownloadMirror::HfMirror => "HfMirror",
            DownloadMirror::HuggingFace => "HuggingFace",
        };
        "AppConfig { hotkey: ".to_owned().concat(spec_text(&self.hotkey).as_str()).concat(
            ", language: ",
        ).concat(language).concat(", whisper_model: ").concat(
            model_text(&self.whisper_model).as_str(),
        ).concat(", llm_enabled: ").concat(bool_str(self.llm_enabled)).concat(
            ", llm_api_url: ",
        ).concat(quoted(self.llm_api_url.as_str()).as_str()).concat(", llm_api_key: ").concat(
            quoted(key).as_str(),
        ).concat(", llm_model: ").concat(quoted(self.llm_model.as_str()).as_str()).concat(
            ", download_mirror: ",
        ).concat(mirror).concat(", data_saving_enabled: ").concat(
            bool_str(self.data_saving_enabled),
        ).concat(", data_saving_path: ").concat(
            quoted(self.data_saving_path.as_str()).as_str(),
        ).concat(", review_before_paste: ").concat(bool_str(self.review_before_paste)).concat(
            ", autostart: ",
        ).concat(bool_str(self.autostart)).concat(", realtime_transcription: ").concat(
            bool_str(self.realtime_transcription),
        ).concat(", record_only_enabled: ").concat(bool_str(self.record_only_enabled)).concat(
            ", record_only_hotkey: ",
        ).concat(spec_text(&self.record_only_hotkey).as_str()).concat(" }")
    }
}

/// Two models with the same key are the same model.
pub proof fn model_keys_are_distinct(a: WhisperModel, b: WhisperModel)
    requires
        a.key() == b.key(),
    ensures
        a.file() == b.file(),
        a.size_name() == b.size_name(),
        a is Custom <==> b is Custom,
{
    reveal_strlit("tiny");
    reveal_strlit("tiny-q8_0");
    reveal_strlit("base");
    reveal_strlit("base-q8_0");
    reveal_strlit("small");
    reveal_strlit("small-q8_0");
    reveal_strlit("medium");
    reveal_strlit("medium-q8_0");
    reveal_strlit("custom:");
    let k = a.key();
    assert(a is Custom ==> k.len() >= 7 && k[0] == 'c');
    assert(b is Custom ==> k.len() >= 7 && k[0] == 'c');
    assert(!(a is Custom) ==> k[0] != 'c');
    assert(!(b is Custom) ==> k[0] != 'c');
    if a is Custom {
        assert(a->0@ =~= k.skip(7));
        assert(b->0@ =~= k.skip(7));
    } else {
        assert(k.len() >= 4);
        assert(k[0] == 't' || k[0] == 'b' || k[0] == 's' || k[0] == 'm');
    }
}

/// A configured API key never shows in the debug rendering: configurations that differ only in a
/// non-empty key render alike.
pub proof fn debug_rendering_hides_the_key(a: AppConfig, b: AppConfig)
    requires
        a.llm_api_key@.len() > 0,
        b.llm_api_key@.len() > 0,
        a == (AppConfig { llm_api_key: a.llm_api_key, ..b }),
    ensures
        debug_config(a) == debug_config(b),
{
}

/// A fresh installation has a valid configuration.
pub proof fn default_configuration_is_valid(c: AppConfig)
    requires
        is_default(c),
    ensures
        config_fault(c) is None,
{
}

/// The file of a built-in model is named after its size, and a quantized one says so; a custom model
/// is its file. A configuration names a model by its size, or by its file.
pub proof fn models_are_named_after_their_size(
    m: WhisperModel,
    file: String,
    size: &'static str,
    key: String,
    q8: bool,
    custom: bool,
)
    requires
        call_ensures(WhisperModel::filename, (&m,), file),
        call_ensures(WhisperModel::size_str, (&m,), size),
        call_ensures(WhisperModel::to_key, (&m,), key),
        call_ensures(WhisperModel::is_q8, (&m,), q8),
        call_ensures(WhisperModel::is_custom, (&m,), custom),
    ensures
        custom <==> m is Custom,
        !custom ==> file@ == "ggml-"@ + size@ + ".bin"@ && key@ == size@ && size@.len() > 0,
        m matches WhisperModel::Custom(name) ==> file@ == name@ && key@ == "custom:"@ + name@
            && size@.len() == 0,
        q8 <==> text::finishes_with(size@, "-q8_0"@),
        m is Tiny ==> size@ == "tiny"@,
        m is Base ==> size@ == "base"@,
        m is Small ==> size@ == "small"@,
        m is Medium ==> size@ == "medium"@,
        m is TinyQ8 ==> size@ == "tiny"@ + "-q8_0"@,
        m is BaseQ8 ==> size@ == "base"@ + "-q8_0"@,
        m is SmallQ8 ==> size@ == "small"@ + "-q8_0"@,
        m is MediumQ8 ==> size@ == "medium"@ + "-q8_0"@,
{
    reveal_strlit("tiny");
    reveal_strlit("tiny-q8_0");
    reveal_strlit("base");
    reveal_strlit("base-q8_0");
    reveal_strlit("small");
    reveal_strlit("small-q8_0");
    reveal_strlit("medium");
    reveal_strlit("medium-q8_0");
    reveal_strlit("-q8_0");
    reveal_strlit("");
    reveal_strlit("ggml-");
    reveal_strlit(".bin");
    reveal_strlit("ggml-tiny.bin");
    reveal_strlit("ggml-tiny-q8_0.bin");
    reveal_strlit("ggml-base.bin");
    reveal_strlit("ggml-base-q8_0.bin");
    reveal_strlit("ggml-small.bin");
    reveal_strlit("ggml-small-q8_0.bin");
    reveal_strlit("ggml-medium.bin");
    reveal_strlit("ggml-medium-q8_0.bin");
    let z = size@;
    let tail = "-q8_0"@;
    if !(m is Custom) {
        assert(file@ =~= "ggml-"@ + z + ".bin"@);
        if z.len() >= 5 {
            assert(z.skip(z.len() - 5)[0] == z[z.len() - 5]);
            if q8 {
                assert(z.skip(z.len() - 5) =~= tail);
            }
        }
    }
    assert(m is TinyQ8 ==> z =~= "tiny"@ + tail);
    assert(m is BaseQ8 ==> z =~= "base"@ + tail);
    assert(m is SmallQ8 ==> z =~= "small"@ + tail);
    assert(m is MediumQ8 ==> z =~= "medium"@ + tail);
}

/// What a configuration calls a model reads back as that model.
pub proof fn model_names_read_back(
    m: WhisperModel,
    key: String,
    name: &str,
    r: Result<WhisperModel, AppError>,
)
    requires
        call_ensures(WhisperModel::to_key, (&m,), key),
        name@ == key@,
        call_ensures(WhisperModel::from_key, (name,), r),
        m matches WhisperModel::Custom(n) ==> n@.len() > 0,
    ensures
        r is Ok,
        r->Ok_0.file() == m.file() && r->Ok_0.size_name() == m.size_name(),
        r->Ok_0 is Custom <==> m is Custom,
{
    reveal_strlit("custom:");
    if r is Err {
        if m is Custom {
            assert(name@.take(7) =~= "custom:"@);
            assert(name@.len() > 7);
        } else {
            let all = WhisperModel::built_in();
            assert(m == all[0] || m == all[1] || m == all[2] || m == all[3] || m == all[4] || m
                == all[5] || m == all[6] || m == all[7]);
        }
    } else {
        model_keys_are_distinct(m, r->Ok_0);
    }
}

/// The built-in models are eight, each once, none of them custom.
pub proof fn there_are_eight_built_in_models(v: Vec<WhisperModel>, m: WhisperModel)
    requires
        call_ensures(WhisperModel::all_built_in, (), v),
    ensures
        v@.len() == 8,
        v@.no_duplicates(),
        v@.contains(m) <==> !(m is Custom),
{
    let s = v@;
    assert(s[0] is Tiny && s[1] is TinyQ8 && s[2] is Base && s[3] is BaseQ8);
    assert(s[4] is Small && s[5] is SmallQ8 && s[6] is Medium && s[7] is MediumQ8);
}

/// The code of a language and the identifier of a mirror read back as what they stand for.
pub proof fn codes_read_back(
    l: Language,
    code: &'static str,
    back: Option<Language>,
    m: DownloadMirror,
    id: &'static str,
    found: Option<DownloadMirror>,
)
    requires
        call_ensures(Language::code, (l,), code),
        call_ensures(Language::from_code, (code,), back),
        call_ensures(DownloadMirror::id, (m,), id),
        call_ensures(DownloadMirror::from_id, (id,), found),
    ensures
        back == Some(l),
        found == Some(m),
        code@.len() == 2,
        l == Language::Zh ==> code@ == "zh"@,
        l == Language::En ==> code@ == "en"@,
        l == Language::Ja ==> code@ == "ja"@,
        l == Language::Ko ==> code@ == "ko"@,
{
    reveal_strlit("zh");
    reveal_strlit("en");
    reveal_strlit("ja");
    reveal_strlit("ko");
    reveal_strlit("hf-mirror");
    reveal_strlit("huggingface");
    assert("zh"@[0] == 'z' && "en"@[0] == 'e' && "ja"@[0] == 'j' && "ko"@[0] == 'k');
    assert("hf-mirror"@.len() == 9 && "huggingface"@.len() == 11);
    if let Some(b) = back {
        assert(language_code(b)[0] == language_code(l)[0]);
    } else {
        assert(language_code(l) == code@);
    }
    if let Some(f) = found {
        assert(mirror_id(f).len() == mirror_id(m).len());
    } else {
        assert(mirror_id(m) == id@);
    }
}

/// A configuration is valid if both hotkeys have names, differ where both are in use, a correction
/// that is switched on has an address, a key and a model, and whatever saves recordings has a path
/// that is not blank.
pub proof fn a_configuration_is_valid_if_complete(c: AppConfig, r: Result<(), AppError>)
    requires
        call_ensures(AppConfig::validate, (&c,), r),
    ensures
        r is Ok <==> ({
            &&& keys::resolvable(c.hotkey.vk)
            &&& keys::resolvable(c.record_only_hotkey.vk)
            &&& c.record_only_enabled ==> c.hotkey != c.record_only_hotkey
            &&& c.llm_enabled ==> c.llm_api_url@.len() > 0
            &&& c.llm_enabled ==> c.llm_api_key@.len() > 0
            &&& c.llm_enabled ==> c.llm_model@.len() > 0
            &&& c.data_saving_enabled || c.record_only_enabled ==> exists|i: int|
                0 <= i < c.data_saving_path@.len() && !text::white_space(
                    #[trigger] c.data_saving_path@[i],
                )
        }),
        r is Err ==> r->Err_0 is Config,
{
    let p = c.data_saving_path@;
    let b = text::trimmed_is_what_lies_between(p);
    if text::trimmed(p).len() > 0 {
        assert(!text::white_space(p[b.0]));
    } else {
        assert(forall|k: int| 0 <= k < p.len() ==> text::white_space(#[trigger] p[k]));
    }
}

/// The mode is realtime if that is switched on, and goes through a review if that is.
pub proof fn the_mode_is_what_is_switched_on(c: AppConfig, m: PipelineMode)
    requires
        call_ensures(AppConfig::pipeline_mode, (&c,), m),
    ensures
        c.realtime_transcription <==> m is RealtimeDirect || m is RealtimeReview,
        c.review_before_paste <==> m is ClassicReview || m is RealtimeReview,
{
}

/// Logs tell configurations apart by everything but the API key, of which they show only whether
/// there is one.
pub proof fn logs_do_not_show_the_key(a: AppConfig, b: AppConfig, s: String, t: String)
    requires
        call_ensures(AppConfig::debug_text, (&a,), s),
        call_ensures(AppConfig::debug_text, (&b,), t),
        a.llm_api_key@.len() > 0,
        b.llm_api_key@.len() > 0,
        a == (AppConfig { llm_api_key: a.llm_api_key, ..b }),
    ensures
        s@ == t@,
{
}

/// A fresh installation transcribes Chinese with the base model, held by the right control key, and
/// does nothing else: no correction, no saving, no review, no realtime text, no start with the
/// system.
pub proof fn a_fresh_installation_does_the_least(c: AppConfig, m: PipelineMode)
    requires
        call_ensures(<AppConfig as Default>::default, (), c),
        call_ensures(AppConfig::pipeline_mode, (&c,), m),
    ensures
        c.language == Language::Zh && c.whisper_model is Base,
        c.hotkey.vk == 0xA3 && c.record_only_hotkey.vk == 0xA5,
        !c.hotkey.ctrl && !c.hotkey.shift && !c.hotkey.alt,
        !c.record_only_hotkey.ctrl && !c.record_only_hotkey.shift && !c.record_only_hotkey.alt,
        !c.llm_enabled && !c.data_saving_enabled && !c.record_only_enabled && !c.autostart,
        c.download_mirror == DownloadMirror::HfMirror,
        m is ClassicDirect,
        c.llm_api_url@.len() == 0 && c.llm_api_key@.len() == 0 && c.llm_model@.len() == 0
            && c.data_saving_path@.len() == 0,
{
}

} // verus!
