use voxtype::dictation::{
    active_model_name, finalize_transcript, should_send_pcm, strip_trailing_punct,
    update_hotkey_setting, DictationPhase, DictationWorker, StartDecision, StopDecision,
    ToggleAction,
};
use voxtype::settings::{
    AppSettings, ModelCatalogEntry, ModelDownloadSpec, ModelsCatalog,
};

fn entry(id: &str, name: &str) -> ModelCatalogEntry {
    ModelCatalogEntry {
        id: id.into(),
        name: name.into(),
        description: String::new(),
        default: false,
        model_type: "sensevoice".into(),
        layout: id.into(),
        runtime_preset: None,
        supported: true,
        download: ModelDownloadSpec {
            source: "zip".into(),
            url: None,
            mirror_url: None,
            fallback_urls: vec![],
            modelscope_resolve_base: None,
            modelscope_files: vec![],
            sha256: None,
            size_bytes: None,
        },
    }
}

#[test]
fn phase_labels() {
    assert_eq!(DictationPhase::Idle.as_str(), "idle");
    assert_eq!(DictationPhase::Recording.as_str(), "recording");
    assert_eq!(DictationPhase::Transcribing.as_str(), "transcribing");
}

#[test]
fn toggle_in_each_phase() {
    assert_eq!(DictationPhase::Idle.toggle_action(), ToggleAction::EnsureRuntimeThenStart);
    assert_eq!(DictationPhase::Recording.toggle_action(), ToggleAction::StopAndType);
    assert_eq!(DictationPhase::Transcribing.toggle_action(), ToggleAction::Nothing);
}

#[test]
fn worker_cycle() {
    let mut w = DictationWorker::new();
    assert_eq!(w.phase, DictationPhase::Idle);
    assert_eq!(w.stop_requested(), StopDecision::NothingRecorded);
    assert_eq!(w.phase, DictationPhase::Idle);
    assert_eq!(w.start_requested(), StartDecision::Begin);
    assert_eq!(w.recording_started(), DictationPhase::Recording);
    assert_eq!(w.start_requested(), StartDecision::AlreadyRecording);
    assert_eq!(w.stop_requested(), StopDecision::Transcribe);
    assert_eq!(w.phase, DictationPhase::Transcribing);
    assert!(!w.recording);
    assert_eq!(w.transcript_typed(), DictationPhase::Idle);
    assert!(!w.recording);
}

#[test]
fn pcm_threshold() {
    assert!(!should_send_pcm(0));
    assert!(!should_send_pcm(6399));
    assert!(should_send_pcm(6400));
}

#[test]
fn strips_trailing_punctuation() {
    assert_eq!(strip_trailing_punct("你好。"), "你好");
    assert_eq!(strip_trailing_punct("你好，世界！？"), "你好，世界");
    assert_eq!(strip_trailing_punct("hello, world..."), "hello, world");
    assert_eq!(strip_trailing_punct("。，"), "");
    assert_eq!(strip_trailing_punct("a 。"), "a ");
    assert_eq!(strip_trailing_punct(""), "");
    assert_eq!(strip_trailing_punct("abc"), "abc");
}

#[test]
fn strip_is_idempotent_on_samples() {
    for s in ["好。", "x!?", "。", "", "a;b:"] {
        let once = strip_trailing_punct(s);
        assert_eq!(strip_trailing_punct(&once), once);
    }
}

#[test]
fn transcript_finalisation() {
    assert_eq!(finalize_transcript("  今天天气很好。 ", true), "今天天气很好");
    assert_eq!(finalize_transcript("  今天天气很好。 ", false), "今天天气很好。");
    assert_eq!(finalize_transcript("   ", true), "");
}

#[test]
fn hotkey_setting_is_trimmed() {
    let mut s = AppSettings::default();
    update_hotkey_setting(&mut s, "  Ctrl+Shift+Space ");
    assert_eq!(s.hotkey, "Ctrl+Shift+Space");
    assert_eq!(s.hotkey_mode, "hold");
    assert_eq!(s.runtime_ws_port, 6016);
}

#[test]
fn active_model_display_name() {
    let catalog = ModelsCatalog {
        schema_version: 1,
        models: vec![entry("sensevoice-int8", "SenseVoice"), entry("paraformer", "Paraformer")],
    };
    assert_eq!(
        active_model_name(&Some("paraformer".into()), Some(&catalog)),
        Some("Paraformer".to_string())
    );
    assert_eq!(active_model_name(&Some("missing".into()), Some(&catalog)), None);
    assert_eq!(active_model_name(&None, Some(&catalog)), None);
    assert_eq!(active_model_name(&Some("paraformer".into()), None), None);
}
