use shy_to_text::config::Config;
use shy_to_text::state::{
    preview, AppState, AppStateManager, StopOutcome, ToggleAction,
};
use shy_to_text::transcribe::{LoadError, Transcriber, TranscriberLoadResult};

fn manager_with_backend() -> AppStateManager {
    let mut m = AppStateManager::new(Config::default());
    let loaded = TranscriberLoadResult {
        transcriber: Transcriber { multilingual: true, accelerated: false },
        gpu_fallback: false,
    };
    m.load_model("/tmp/model.bin", Ok(loaded)).expect("load applies");
    m
}

#[test]
fn test_trigger_without_model_stays_idle() {
    let mut m = AppStateManager::new(Config::default());
    assert!(!m.has_model());
    let action = m.on_trigger();
    assert_eq!(action, ToggleAction::RejectNoModel);
    assert_eq!(m.get_state(), AppState::Idle);
    assert_eq!(m.get_error(), Some("No model loaded".to_string()));
}

#[test]
fn test_trigger_while_transcribing_is_dropped() {
    let mut m = manager_with_backend();
    assert_eq!(m.on_trigger(), ToggleAction::StartCapture);
    m.capture_started(Ok(()));
    assert_eq!(m.get_state(), AppState::Recording);

    assert_eq!(m.on_trigger(), ToggleAction::StopCapture);
    assert_eq!(m.get_state(), AppState::Transcribing);
    m.capture_stopped(StopOutcome::Stopped);

    // two rapid extra triggers while the worker runs: both dropped
    assert_eq!(m.on_trigger(), ToggleAction::Ignore);
    assert_eq!(m.on_trigger(), ToggleAction::Ignore);
    assert_eq!(m.get_state(), AppState::Transcribing);

    // exactly one cycle completes
    let effects = m.transcription_finished(Ok("hello there".to_string()));
    assert_eq!(m.get_state(), AppState::Idle);
    assert_eq!(m.get_last_transcription(), "hello there");
    assert_eq!(effects.copy_text, Some("hello there".to_string()));
    assert_eq!(m.get_error(), None);
}

#[test]
fn test_capture_start_failure_returns_to_idle() {
    let mut m = manager_with_backend();
    assert_eq!(m.on_trigger(), ToggleAction::StartCapture);
    m.capture_started(Err("No input device available".to_string()));
    assert_eq!(m.get_state(), AppState::Idle);
    assert_eq!(m.get_error(), Some("No input device available".to_string()));
}

#[test]
fn test_capture_stop_failure_returns_to_idle() {
    let mut m = manager_with_backend();
    m.on_trigger();
    m.capture_started(Ok(()));
    m.on_trigger();
    m.capture_stopped(StopOutcome::Failed { message: "No audio recorded".to_string() });
    assert_eq!(m.get_state(), AppState::Idle);
    assert_eq!(m.get_error(), Some("No audio recorded".to_string()));
}

#[test]
fn test_preview_truncates_at_fifty_characters() {
    let text: String = "x".repeat(60);
    let p = preview(&text);
    assert_eq!(p.chars().count(), 53);
    assert!(p.ends_with("..."));
    assert_eq!(&p[..50], &text[..50]);

    let short = "short enough";
    assert_eq!(preview(short), short);
}

#[test]
fn test_long_result_is_stored_whole_and_previewed_cut() {
    let mut m = manager_with_backend();
    m.on_trigger();
    m.capture_started(Ok(()));
    m.on_trigger();
    m.capture_stopped(StopOutcome::Stopped);
    let text: String = "y".repeat(60);
    let effects = m.transcription_finished(Ok(text.clone()));
    assert_eq!(m.get_last_transcription().chars().count(), 60);
    let note = effects.notification.expect("notifications are on by default");
    assert_eq!(note.title, "Transcribed");
    assert_eq!(note.body.chars().count(), 53);
    assert_eq!(effects.copy_text, Some(text));
}

#[test]
fn test_silence_is_not_an_error_and_stores_nothing() {
    let mut m = manager_with_backend();
    m.on_trigger();
    m.capture_started(Ok(()));
    m.on_trigger();
    m.capture_stopped(StopOutcome::Stopped);
    let effects = m.transcription_finished(Ok(String::new()));
    assert_eq!(m.get_state(), AppState::Idle);
    assert_eq!(m.get_error(), None);
    assert_eq!(m.get_last_transcription(), "");
    assert_eq!(effects.copy_text, None);
    let note = effects.notification.expect("silence gets its own notice");
    assert_eq!(note.title, "No speech detected");
}

#[test]
fn test_recognition_failure_is_recorded() {
    let mut m = manager_with_backend();
    m.on_trigger();
    m.capture_started(Ok(()));
    m.on_trigger();
    m.capture_stopped(StopOutcome::Stopped);
    let effects = m.transcription_finished(Err("engine failed".to_string()));
    assert_eq!(m.get_state(), AppState::Idle);
    assert_eq!(m.get_error(), Some("engine failed".to_string()));
    let note = effects.notification.expect("failures are announced");
    assert_eq!(note.title, "Transcription failed");
    assert_eq!(note.body, "engine failed");
}

#[test]
fn test_load_model_records_path_and_fallback() {
    let mut m = AppStateManager::new(Config::default());
    let mut cfg = m.get_config();
    cfg.use_gpu = true;
    m.update_config(cfg);

    let loaded = TranscriberLoadResult {
        transcriber: Transcriber { multilingual: false, accelerated: false },
        gpu_fallback: true,
    };
    let fell_back = m.load_model("/tmp/base.bin", Ok(loaded)).expect("load applies");
    assert!(fell_back);
    assert!(m.has_model());
    assert!(!m.is_multilingual());
    let cfg = m.get_config();
    assert_eq!(cfg.model_path, Some("/tmp/base.bin".to_string()));
    assert!(!cfg.use_gpu, "fallback clears the acceleration preference");
}

#[test]
fn test_failed_load_keeps_previous_backend() {
    let mut m = manager_with_backend();
    let err = m
        .load_model(
            "/tmp/other.bin",
            Err(LoadError::BackendFailed { message: "bad file".to_string() }),
        )
        .unwrap_err();
    assert_eq!(err, LoadError::BackendFailed { message: "bad file".to_string() });
    assert!(m.has_model(), "the previous backend stays active");
    assert_eq!(m.get_config().model_path, Some("/tmp/model.bin".to_string()));
}

#[test]
fn test_reload_without_configured_model_fails() {
    let mut m = AppStateManager::new(Config::default());
    let loaded = TranscriberLoadResult {
        transcriber: Transcriber { multilingual: true, accelerated: true },
        gpu_fallback: false,
    };
    let err = m.reload_model(Ok(loaded)).unwrap_err();
    assert_eq!(err, LoadError::NoModelLoaded);
    assert!(!m.has_model());
}

#[test]
fn test_reload_replaces_backend_and_keeps_path() {
    let mut m = manager_with_backend();
    assert!(m.is_multilingual());
    let loaded = TranscriberLoadResult {
        transcriber: Transcriber { multilingual: false, accelerated: true },
        gpu_fallback: false,
    };
    let fell_back = m.reload_model(Ok(loaded)).expect("reload applies");
    assert!(!fell_back);
    assert!(!m.is_multilingual());
    assert_eq!(m.get_config().model_path, Some("/tmp/model.bin".to_string()));
}

#[test]
fn test_update_config_reports_hotkey_change() {
    let mut m = AppStateManager::new(Config::default());
    let mut cfg = m.get_config();
    cfg.language = "de".to_string();
    assert!(!m.update_config(cfg), "same hotkey: no re-registration needed");
    let mut cfg = m.get_config();
    cfg.hotkey = "Ctrl+Shift+R".to_string();
    assert!(m.update_config(cfg));
    assert_eq!(m.get_config().hotkey, "Ctrl+Shift+R");
    assert_eq!(m.get_config().language, "de");
}

#[test]
fn test_set_and_get_state_fields() {
    let mut m = AppStateManager::new(Config::default());
    m.set_state(AppState::Recording);
    assert_eq!(m.get_state(), AppState::Recording);
    m.set_error(Some("boom".to_string()));
    assert_eq!(m.get_error(), Some("boom".to_string()));
    m.set_error(None);
    assert_eq!(m.get_error(), None);
    m.set_last_transcription("kept".to_string());
    assert_eq!(m.get_last_transcription(), "kept");
}
