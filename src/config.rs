use vstd::prelude::*;
use vstd::string::*;

use crate::stt::ProviderType;
use crate::text::{joined, same_text};

verus! {

/// `seg` appended to the path `base` as one more component.
pub open spec fn path_join(base: Seq<char>, seg: Seq<char>) -> Seq<char> {
    if base.len() == 0 {
        seg
    } else if base.last() == '/' {
        base + seg
    } else {
        base + "/"@ + seg
    }
}

/// Appends the relative component `seg` to the path `base`, with one
/// separator between them.
pub fn join_path(base: &str, seg: &str) -> (r: String)
    ensures
        r@ == path_join(base@, seg@),
{
    let n = base.unicode_len();
    let mut r = String::from_str(base);
    if n == 0 {
        return String::from_str(seg);
    }
    if base.get_char(n - 1) != '/' {
        r.append("/");
    }
    r.append(seg);
    r
}

/// Directory name of the daemon under the user's configuration and data
/// directories.
pub open spec fn app_dir_name() -> Seq<char> {
    "super-whisper-linux"@
}

/// The directory of the daemon's files under `base`, or under the working
/// directory where there is none.
pub open spec fn app_dir_of(base: Option<Seq<char>>) -> Seq<char> {
    path_join(
        match base {
            Some(b) => b,
            None => "."@,
        },
        app_dir_name(),
    )
}

fn app_dir(base: Option<&str>) -> (r: String)
    ensures
        r@ == app_dir_of(
            match base {
                Some(b) => Some(b@),
                None => None,
            },
        ),
{
    match base {
        Some(b) => join_path(b, "super-whisper-linux"),
        None => join_path(".", "super-whisper-linux"),
    }
}

/// The daemon's configuration directory under the platform's one
/// (`config_base`), if known.
pub fn config_dir(config_base: Option<&str>) -> (r: String)
    ensures
        r@ == app_dir_of(
            match config_base {
                Some(b) => Some(b@),
                None => None,
            },
        ),
{
    app_dir(config_base)
}

/// The daemon's data directory under the platform's one (`data_base`), if
/// known.
pub fn data_dir(data_base: Option<&str>) -> (r: String)
    ensures
        r@ == app_dir_of(
            match data_base {
                Some(b) => Some(b@),
                None => None,
            },
        ),
{
    app_dir(data_base)
}

/// The default command socket: `super-whisper.sock` in the runtime
/// directory, or in `/tmp` where none is set.
pub fn socket_path(runtime_dir: Option<&str>) -> (r: String)
    ensures
        r@ == path_join(
            match runtime_dir {
                Some(d) => d@,
                None => "/tmp"@,
            },
            "super-whisper.sock"@,
        ),
{
    match runtime_dir {
        Some(d) => join_path(d, "super-whisper.sock"),
        None => join_path("/tmp", "super-whisper.sock"),
    }
}

/// The default model file, `models/ggml-base.bin` under the data directory.
pub fn default_model_path(data_dir: &str) -> (r: String)
    ensures
        r@ == path_join(path_join(data_dir@, "models"@), "ggml-base.bin"@),
{
    let models = join_path(data_dir, "models");
    join_path(models.as_str(), "ggml-base.bin")
}

#[derive(Debug, Clone, PartialEq, Eq)]
pub struct GeneralConfig {
    pub default_provider: ProviderType,
    /// Language hint (ISO 639-1 code, or `auto`).
    pub language: String,
    pub audio_feedback: bool,
    /// Paste the transcript after copying it.
    pub auto_paste: bool,
}

impl Default for GeneralConfig {
    fn default() -> (r: Self)
        ensures
            r.default_provider == ProviderType::WhisperLocal,
            r.language@ == "auto"@,
            r.audio_feedback,
            r.auto_paste,
    {
        GeneralConfig {
            default_provider: ProviderType::WhisperLocal,
            language: String::from_str("auto"),
            audio_feedback: true,
            auto_paste: true,
        }
    }
}

#[derive(Debug, Clone, PartialEq, Eq)]
pub struct AudioConfig {
    /// Input device name (none: the system default).
    pub input_device: Option<String>,
    /// Rate of the samples handed to providers, in Hz.
    pub sample_rate: u32,
    /// Silence level, in millionths of full scale.
    pub silence_threshold_ppm: u32,
    /// Silence that ends a recording, in milliseconds (0: never).
    pub silence_timeout_ms: u32,
    /// Longest recording, in seconds.
    pub max_duration: u32,
}

impl Default for AudioConfig {
    fn default() -> (r: Self)
        ensures
            r.input_device is None,
            r.sample_rate == 16000,
            r.silence_threshold_ppm == 10000,
            r.silence_timeout_ms == 2000,
            r.max_duration == 300,
    {
        AudioConfig {
            input_device: None,
            sample_rate: 16000,
            silence_threshold_ppm: 10000,
            silence_timeout_ms: 2000,
            max_duration: 300,
        }
    }
}

#[derive(Debug, Clone, PartialEq, Eq)]
pub struct HotkeyConfig {
    /// Command socket path (none: the default one).
    pub socket_path: Option<String>,
}

impl Default for HotkeyConfig {
    fn default() -> (r: Self)
        ensures
            r.socket_path is None,
    {
        HotkeyConfig { socket_path: None }
    }
}

#[derive(Debug, Clone, PartialEq, Eq)]
pub struct TrayConfig {
    pub enabled: bool,
    /// Icon theme: `embedded`, `system`, or a path.
    pub icon_theme: String,
}

impl Default for TrayConfig {
    fn default() -> (r: Self)
        ensures
            r.enabled,
            r.icon_theme@ == "embedded"@,
    {
        TrayConfig { enabled: true, icon_theme: String::from_str("embedded") }
    }
}

#[derive(Debug, Clone, PartialEq, Eq)]
pub struct WhisperLocalConfig {
    pub enabled: bool,
    /// Model file (none: the default one).
    pub model_path: Option<String>,
    /// Model variant: tiny, base, small, medium, large.
    pub model: String,
    pub use_gpu: bool,
    /// Worker threads (0: chosen by the engine).
    pub threads: u32,
}

impl Default for WhisperLocalConfig {
    fn default() -> (r: Self)
        ensures
            r.enabled,
            r.model_path is None,
            r.model@ == "base"@,
            r.use_gpu,
            r.threads == 0,
    {
        WhisperLocalConfig {
            enabled: true,
            model_path: None,
            model: String::from_str("base"),
            use_gpu: true,
            threads: 0,
        }
    }
}

#[derive(Debug, Clone, PartialEq, Eq)]
pub struct OpenAIConfig {
    pub enabled: bool,
    pub api_key: Option<String>,
    pub model: String,
    pub endpoint: String,
}

impl Default for OpenAIConfig {
    fn default() -> (r: Self)
        ensures
            !r.enabled,
            r.api_key is None,
            r.model@ == "whisper-1"@,
            r.endpoint@ == "https://api.openai.com/v1/audio/transcriptions"@,
    {
        OpenAIConfig {
            enabled: false,
            api_key: None,
            model: String::from_str("whisper-1"),
            endpoint: String::from_str("https://api.openai.com/v1/audio/transcriptions"),
        }
    }
}

#[derive(Debug, Clone, PartialEq, Eq)]
pub struct GroqConfig {
    pub enabled: bool,
    pub api_key: Option<String>,
    pub model: String,
    pub endpoint: String,
}

impl Default for GroqConfig {
    fn default() -> (r: Self)
        ensures
            !r.enabled,
            r.api_key is None,
            r.model@ == "whisper-large-v3"@,
            r.endpoint@ == "https://api.groq.com/openai/v1/audio/transcriptions"@,
    {
        GroqConfig {
            enabled: false,
            api_key: None,
            model: String::from_str("whisper-large-v3"),
            endpoint: String::from_str("https://api.groq.com/openai/v1/audio/transcriptions"),
        }
    }
}

#[derive(Debug, Clone, PartialEq, Eq)]
pub struct DeepgramConfig {
    pub enabled: bool,
    pub api_key: Option<String>,
    pub model: String,
    /// Query features switched on for each request.
    pub features: Vec<String>,
}

impl Default for DeepgramConfig {
    fn default() -> (r: Self)
        ensures
            !r.enabled,
            r.api_key is None,
            r.model@ == "nova-2"@,
            r.features@.len() == 2,
            r.features@[0]@ == "punctuate"@,
            r.features@[1]@ == "smart_format"@,
    {
        let mut features: Vec<String> = Vec::new();
        features.push(String::from_str("punctuate"));
        features.push(String::from_str("smart_format"));
        DeepgramConfig {
            enabled: false,
            api_key: None,
            model: String::from_str("nova-2"),
            features,
        }
    }
}

#[derive(Debug, Clone, PartialEq, Eq)]
pub struct ProvidersConfig {
    pub whisper_local: WhisperLocalConfig,
    pub openai: OpenAIConfig,
    pub groq: GroqConfig,
    pub deepgram: DeepgramConfig,
}

impl Default for ProvidersConfig {
    fn default() -> (r: Self)
        ensures
            r.whisper_local.model@ == "base"@,
            r.whisper_local.model_path is None,
            r.openai.api_key is None,
            r.groq.api_key is None,
            r.deepgram.api_key is None,
    {
        ProvidersConfig {
            whisper_local: WhisperLocalConfig::default(),
            openai: OpenAIConfig::default(),
            groq: GroqConfig::default(),
            deepgram: DeepgramConfig::default(),
        }
    }
}

#[derive(Debug, Clone, PartialEq, Eq)]
pub struct LoggingConfig {
    /// Level: trace, debug, info, warn or error.
    pub level: String,
    pub file: Option<String>,
}

impl Default for LoggingConfig {
    fn default() -> (r: Self)
        ensures
            r.level@ == "info"@,
            r.file is None,
    {
        LoggingConfig { level: String::from_str("info"), file: None }
    }
}

/// The daemon's configuration, fixed for the life of one orchestrator.
#[derive(Debug, Clone, PartialEq, Eq)]
pub struct AppConfig {
    pub general: GeneralConfig,
    pub audio: AudioConfig,
    pub hotkey: HotkeyConfig,
    pub tray: TrayConfig,
    pub providers: ProvidersConfig,
    pub logging: LoggingConfig,
}

impl Default for AppConfig {
    fn default() -> (r: Self)
        ensures
            r.general.default_provider == ProviderType::WhisperLocal,
            r.general.language@ == "auto"@,
            r.audio.sample_rate == 16000,
            r.audio.max_duration == 300,
            r.hotkey.socket_path is None,
            r.providers.whisper_local.model_path is None,
    {
        AppConfig {
            general: GeneralConfig::default(),
            audio: AudioConfig::default(),
            hotkey: HotkeyConfig::default(),
            tray: TrayConfig::default(),
            providers: ProvidersConfig::default(),
            logging: LoggingConfig::default(),
        }
    }
}

fn copy_option(s: &Option<String>) -> (r: Option<String>)
    ensures
        match *s {
            Some(v) => r matches Some(c) && c@ == v@,
            None => r is None,
        },
{
    match s {
        Some(v) => Some(v.clone()),
        None => None,
    }
}

impl AppConfig {
    /// The command socket: the configured path, else the default one in
    /// `runtime_dir`.
    pub fn socket_path(&self, runtime_dir: Option<&str>) -> (r: String)
        ensures
            r@ == match self.hotkey.socket_path {
                Some(p) => p@,
                None => path_join(
                    match runtime_dir {
                        Some(d) => d@,
                        None => "/tmp"@,
                    },
                    "super-whisper.sock"@,
                ),
            },
    {
        match &self.hotkey.socket_path {
            Some(p) => p.clone(),
            None => socket_path(runtime_dir),
        }
    }

    /// The local model file: the configured path, else the default one under
    /// `data_dir`.
    pub fn model_path(&self, data_dir: &str) -> (r: String)
        ensures
            r@ == match self.providers.whisper_local.model_path {
                Some(p) => p@,
                None => path_join(path_join(data_dir@, "models"@), "ggml-base.bin"@),
            },
    {
        match &self.providers.whisper_local.model_path {
            Some(p) => p.clone(),
            None => default_model_path(data_dir),
        }
    }

    /// The OpenAI key: the configured one, else `from_env`.
    pub fn openai_api_key(&self, from_env: Option<String>) -> (r: Option<String>)
        ensures
            match self.providers.openai.api_key {
                Some(k) => r matches Some(c) && c@ == k@,
                None => r == from_env,
            },
    {
        match copy_option(&self.providers.openai.api_key) {
            Some(k) => Some(k),
            None => from_env,
        }
    }

    /// The Groq key: the configured one, else `from_env`.
    pub fn groq_api_key(&self, from_env: Option<String>) -> (r: Option<String>)
        ensures
            match self.providers.groq.api_key {
                Some(k) => r matches Some(c) && c@ == k@,
                None => r == from_env,
            },
    {
        match copy_option(&self.providers.groq.api_key) {
            Some(k) => Some(k),
            None => from_env,
        }
    }

    /// The Deepgram key: the configured one, else `from_env`.
    pub fn deepgram_api_key(&self, from_env: Option<String>) -> (r: Option<String>)
        ensures
            match self.providers.deepgram.api_key {
                Some(k) => r matches Some(c) && c@ == k@,
                None => r == from_env,
            },
    {
        match copy_option(&self.providers.deepgram.api_key) {
            Some(k) => Some(k),
            None => from_env,
        }
    }
}

/// The model variants that can be downloaded.
pub open spec fn known_model(model: Seq<char>) -> bool {
    model == "tiny"@ || model == "base"@ || model == "small"@ || model == "medium"@ || model
        == "large"@
}

/// File name of a model variant.
pub open spec fn model_file_of(model: Seq<char>) -> Seq<char> {
    "ggml-"@ + model + ".bin"@
}

/// Where a model file is downloaded from.
pub open spec fn model_url_of(model: Seq<char>) -> Seq<char> {
    "https://huggingface.co/ggerganov/whisper.cpp/resolve/main/"@ + model_file_of(model)
}

/// The file name and download URL of a model variant, or none for a name
/// that is not a known variant.
pub fn model_download(model: &str) -> (r: Option<(String, String)>)
    ensures
        known_model(model@) <==> r is Some,
        r matches Some(p) ==> p.0@ == model_file_of(model@) && p.1@ == model_url_of(model@),
{
    if same_text(model, "tiny") || same_text(model, "base") || same_text(model, "small")
        || same_text(model, "medium") || same_text(model, "large") {
        let mut file = joined("ggml-", model);
        file.append(".bin");
        let url = joined(
            "https://huggingface.co/ggerganov/whisper.cpp/resolve/main/",
            file.as_str(),
        );
        Some((file, url))
    } else {
        None
    }
}

} // verus!
