use super_whisper::config::{
    config_dir, data_dir, default_model_path, join_path, model_download, socket_path, AppConfig,
    DeepgramConfig,
};
use super_whisper::error::SttError;
use super_whisper::ipc::{reply_for, IpcClient, IpcCommand, IpcServer};
use super_whisper::stt::{
    check_api_key, check_audio, check_status, deepgram_url, first_alternative, language_param,
    require_api_key, result_language, transcript_text, Alternative, AudioData, ProviderType,
    TranscriptionResult,
};
use super_whisper::text::{joined, same_text};
use super_whisper::tray::{TrayState, TrayStatus};

#[test]
fn commands_are_read_loosely() {
    assert_eq!(IpcCommand::from_str("toggle"), Some(IpcCommand::Toggle));
    assert_eq!(IpcCommand::from_str("  START\n"), Some(IpcCommand::Start));
    assert_eq!(IpcCommand::from_str("Stop"), Some(IpcCommand::Stop));
    assert_eq!(IpcCommand::from_str("cancel"), Some(IpcCommand::Cancel));
    assert_eq!(IpcCommand::from_str("status\r\n"), Some(IpcCommand::Status));
    assert_eq!(IpcCommand::from_str("quit"), Some(IpcCommand::Shutdown));
    assert_eq!(IpcCommand::from_str("EXIT"), Some(IpcCommand::Shutdown));
    assert_eq!(IpcCommand::from_str("shutdown"), Some(IpcCommand::Shutdown));
    assert_eq!(IpcCommand::from_str("pause"), None);
    assert_eq!(IpcCommand::from_str(""), None);
    assert_eq!(IpcCommand::from_word("START"), None);
}

#[test]
fn replies_to_client_lines() {
    assert_eq!(reply_for(Some(IpcCommand::Stop), true), "OK\n");
    assert_eq!(reply_for(Some(IpcCommand::Stop), false), "ERROR: Channel closed\n");
    assert_eq!(reply_for(None, true), "ERROR: Unknown command\n");
}

#[test]
fn socket_ends_keep_their_path() {
    assert_eq!(IpcServer::new("/run/x.sock".to_string()).socket_path, "/run/x.sock");
    assert_eq!(IpcClient::new("/run/y.sock".to_string()).socket_path, "/run/y.sock");
}

#[test]
fn tray_states_round_trip_through_codes() {
    for s in [TrayState::Idle, TrayState::Recording, TrayState::Processing, TrayState::Error] {
        assert_eq!(TrayState::from(s.code()), s);
    }
    assert_eq!(TrayState::from(9u8), TrayState::Idle);
}

#[test]
fn tray_texts() {
    assert_eq!(TrayState::Idle.icon_name(), "audio-input-microphone");
    assert_eq!(TrayState::Recording.icon_name(), "media-record");
    assert_eq!(TrayState::Processing.tooltip(), "SuperWhisper - Processing...");
    assert_eq!(TrayState::Error.tooltip(), "SuperWhisper - Error");
    assert_eq!(TrayState::Error.status(), TrayStatus::NeedsAttention);
    assert_eq!(TrayState::Idle.status(), TrayStatus::Passive);
    assert_eq!(TrayState::Processing.status(), TrayStatus::Active);
    assert_eq!(TrayState::Idle.toggle_label(), "Start Recording");
    assert_eq!(TrayState::Recording.toggle_label(), "Stop Recording");
    assert_eq!(TrayState::Error.toggle_label(), "Toggle");
    assert_eq!(TrayState::Recording.toggle_icon(), "media-playback-stop");
    assert!(TrayState::Processing.cancel_enabled());
    assert!(!TrayState::Idle.cancel_enabled());
}

#[test]
fn paths_join_with_one_separator() {
    assert_eq!(join_path("/a", "b"), "/a/b");
    assert_eq!(join_path("/a/", "b"), "/a/b");
    assert_eq!(join_path("", "b"), "b");
    assert_eq!(default_model_path("/home/u/.local/share/super-whisper-linux"),
        "/home/u/.local/share/super-whisper-linux/models/ggml-base.bin");
    assert_eq!(config_dir(Some("/home/u/.config")), "/home/u/.config/super-whisper-linux");
    assert_eq!(data_dir(Some("/home/u/.local/share/")), "/home/u/.local/share/super-whisper-linux");
    assert_eq!(config_dir(None), "./super-whisper-linux");
    assert_eq!(socket_path(Some("/run/user/1000")), "/run/user/1000/super-whisper.sock");
    assert_eq!(socket_path(None), "/tmp/super-whisper.sock");
}

#[test]
fn config_defaults_and_overrides() {
    let mut c = AppConfig::default();
    assert_eq!(c.general.default_provider, ProviderType::WhisperLocal);
    assert_eq!(c.general.language, "auto");
    assert!(c.general.auto_paste);
    assert_eq!(c.audio.sample_rate, 16000);
    assert_eq!(c.audio.max_duration, 300);
    assert_eq!(c.providers.whisper_local.model, "base");
    assert_eq!(c.providers.groq.model, "whisper-large-v3");
    assert_eq!(c.providers.openai.model, "whisper-1");
    assert_eq!(c.logging.level, "info");
    assert_eq!(c.tray.icon_theme, "embedded");
    assert_eq!(c.socket_path(None), "/tmp/super-whisper.sock");
    assert_eq!(c.model_path("/d"), "/d/models/ggml-base.bin");
    c.hotkey.socket_path = Some("/s.sock".to_string());
    c.providers.whisper_local.model_path = Some("/m.bin".to_string());
    assert_eq!(c.socket_path(Some("/run")), "/s.sock");
    assert_eq!(c.model_path("/d"), "/m.bin");
    assert_eq!(c.groq_api_key(Some("env".to_string())), Some("env".to_string()));
    c.providers.groq.api_key = Some("cfg".to_string());
    assert_eq!(c.groq_api_key(Some("env".to_string())), Some("cfg".to_string()));
    assert_eq!(c.openai_api_key(None), None);
    assert_eq!(c.deepgram_api_key(Some("d".to_string())), Some("d".to_string()));
}

#[test]
fn deepgram_defaults_and_url() {
    let d = DeepgramConfig::default();
    assert_eq!(d.model, "nova-2");
    assert_eq!(d.features, vec!["punctuate".to_string(), "smart_format".to_string()]);
    assert_eq!(deepgram_url(&d.model, &d.features, Some("de")),
        "https://api.deepgram.com/v1/listen?model=nova-2&punctuate=true&smart_format=true&language=de");
    assert_eq!(deepgram_url("m", &Vec::new(), Some("auto")),
        "https://api.deepgram.com/v1/listen?model=m");
    assert_eq!(deepgram_url("m", &vec!["x".to_string()], None),
        "https://api.deepgram.com/v1/listen?model=m&x=true");
}

#[test]
fn audio_duration_and_emptiness() {
    assert!(AudioData::new(Vec::new(), 16000).is_empty());
    assert!(AudioData::new(vec![0; 1599], 16000).is_empty());
    assert!(!AudioData::new(vec![0; 1600], 16000).is_empty());
    assert_eq!(AudioData::new(vec![0; 24000], 16000).duration(), 1500);
    assert_eq!(AudioData::new(vec![0; 1], 16000).duration(), 0);
}

#[test]
fn providers_refuse_short_audio() {
    assert_eq!(check_audio(&AudioData::new(vec![0; 10], 16000)),
        Err(SttError::InvalidAudio("Audio is empty or too short".to_string())));
    assert_eq!(check_audio(&AudioData::new(vec![0; 16000], 16000)), Ok(()));
}

#[test]
fn language_hints() {
    assert_eq!(language_param(Some("auto")), None);
    assert_eq!(language_param(None), None);
    assert_eq!(language_param(Some("fr")), Some("fr".to_string()));
    assert_eq!(result_language(None), "auto");
    assert_eq!(result_language(Some("fr")), "fr");
}

#[test]
fn http_status_checks() {
    assert_eq!(check_status("Groq", 200, "200 OK", ""), Ok(()));
    assert_eq!(check_status("Groq", 299, "299", ""), Ok(()));
    assert_eq!(check_status("Groq", 401, "401 Unauthorized", "bad key"),
        Err(SttError::ApiError("Groq API error 401 Unauthorized: bad key".to_string())));
    assert!(check_status("Deepgram", 199, "199", "").is_err());
    assert!(check_status("Deepgram", 300, "300", "").is_err());
}

#[test]
fn credentials() {
    assert_eq!(require_api_key("Groq", Some("k".to_string())), Ok("k".to_string()));
    assert_eq!(require_api_key("Groq", None),
        Err(SttError::ProviderUnavailable("Groq API key not configured".to_string())));
    assert_eq!(check_api_key(""), Err(SttError::ProviderUnavailable("API key is empty".to_string())));
    assert_eq!(check_api_key("k"), Ok(()));
}

#[test]
fn provider_names() {
    assert_eq!(ProviderType::WhisperLocal.name(), "whisper-local");
    assert_eq!(ProviderType::OpenAI.name(), "openai");
    assert_eq!(ProviderType::Groq.name(), "groq");
    assert_eq!(ProviderType::Deepgram.name(), "deepgram");
    assert!(ProviderType::WhisperLocal.is_local());
    assert!(!ProviderType::Groq.is_local());
}

#[test]
fn segments_join_and_trim() {
    let segs = vec![" Hello".to_string(), " world.".to_string(), "  ".to_string()];
    assert_eq!(transcript_text(&segs), "Hello world.");
    assert_eq!(transcript_text(&Vec::new()), "");
}

#[test]
fn deepgram_first_alternative() {
    let chans = vec![vec![
        Alternative { transcript: "a b".to_string(), confidence: 9800 },
        Alternative { transcript: "x".to_string(), confidence: 10 },
    ]];
    assert_eq!(first_alternative(&chans), ("a b".to_string(), 9800));
    assert_eq!(first_alternative(&vec![vec![]]), (String::new(), 0));
    assert_eq!(first_alternative(&Vec::new()), (String::new(), 0));
}

#[test]
fn transcription_result_builders() {
    let r = TranscriptionResult::new("t".to_string())
        .with_language("en".to_string())
        .with_confidence(9500)
        .with_processing_time(120);
    assert_eq!(r.text, "t");
    assert_eq!(r.language, Some("en".to_string()));
    assert_eq!(r.confidence, Some(9500));
    assert_eq!(r.processing_time, 120);
}

#[test]
fn text_helpers() {
    assert!(same_text("abc", "abc"));
    assert!(!same_text("abc", "abd"));
    assert!(!same_text("ab", "abc"));
    assert_eq!(joined("ab", "cd"), "abcd");
}

#[test]
fn command_words_read_back() {
    for c in [IpcCommand::Toggle, IpcCommand::Start, IpcCommand::Stop, IpcCommand::Cancel,
        IpcCommand::Status, IpcCommand::Shutdown] {
        assert_eq!(IpcCommand::from_str(c.word()), Some(c));
    }
    assert_eq!(IpcCommand::Toggle.word(), "toggle");
}

#[test]
fn model_downloads() {
    assert_eq!(model_download("base"), Some(("ggml-base.bin".to_string(),
        "https://huggingface.co/ggerganov/whisper.cpp/resolve/main/ggml-base.bin".to_string())));
    assert_eq!(model_download("large").unwrap().0, "ggml-large.bin");
    assert_eq!(model_download("huge"), None);
    assert_eq!(model_download("Base"), None);
}
