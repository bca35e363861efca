use std::path::Path;
use voxtype::paths::PathProbe;
use voxtype::settings::{
    bundled_catalog_path, catalog_path, catalog_source, data_root, default_hotkey_mode,
    default_source_zip, default_true, find_catalog_entry, is_model_installed, is_model_installed_at,
    list_model_statuses, model_dir_for_id, model_layout_path, models_dir, preferred_gpu_provider,
    repo_catalog_path, resolve_runtime_provider, runtime_exe_candidates, runtime_exe_path,
    runtime_log_path, settings_path, staged_catalog_path, tokens_exists, user_catalog_path,
    AppSettings, CatalogProbe, ModelCatalogEntry, ModelDownloadSpec, ModelsCatalog,
    ModelsDirSnapshot,
};

fn join(base: &str, parts: &[&str]) -> String {
    let mut p = Path::new(base).to_path_buf();
    for s in parts {
        p = p.join(s);
    }
    p.to_string_lossy().into_owned()
}

fn download(source: &str) -> ModelDownloadSpec {
    ModelDownloadSpec {
        source: source.into(),
        url: None,
        mirror_url: None,
        fallback_urls: vec![],
        modelscope_resolve_base: None,
        modelscope_files: vec![],
        sha256: None,
        size_bytes: None,
    }
}

fn entry(id: &str, layout: &str, model_type: &str, preset: Option<&str>) -> ModelCatalogEntry {
    ModelCatalogEntry {
        id: id.into(),
        name: format!("{id} name"),
        description: format!("{id} description"),
        default: false,
        model_type: model_type.into(),
        layout: layout.into(),
        runtime_preset: preset.map(|s| s.to_string()),
        supported: true,
        download: download("zip"),
    }
}

fn snapshot(dirs: &[&str], files: &[&str]) -> ModelsDirSnapshot {
    ModelsDirSnapshot {
        dirs: dirs.iter().map(|s| s.to_string()).collect(),
        files: files.iter().map(|s| s.to_string()).collect(),
    }
}

#[test]
fn default_settings() {
    let s = AppSettings::default();
    assert_eq!(s.hotkey, "F9");
    assert_eq!(s.hotkey_mode, "hold");
    assert_eq!(s.active_model_id.as_deref(), Some("sensevoice-int8"));
    assert_eq!(s.runtime_ws_port, 6016);
    assert_eq!(s.api_port, 6020);
    assert!(s.strip_trailing_punctuation);
    assert!(s.use_gpu);
    assert_eq!(default_hotkey_mode(), "hold");
    assert!(default_true());
    assert_eq!(default_source_zip(), "zip");
}

#[test]
fn execution_providers() {
    assert_eq!(preferred_gpu_provider(true), "coreml");
    assert_eq!(preferred_gpu_provider(false), "cuda");
    assert_eq!(resolve_runtime_provider(true, false), "cuda");
    assert_eq!(resolve_runtime_provider(true, true), "coreml");
    assert_eq!(resolve_runtime_provider(false, true), "cpu");
    assert_eq!(resolve_runtime_provider(false, false), "cpu");
}

#[test]
fn data_directory() {
    assert_eq!(data_root(Some("/data/vox"), Some("/home/u/AppData")), "/data/vox");
    assert_eq!(data_root(Some("   "), Some("/home/u/AppData")), join("/home/u/AppData", &["VoxType"]));
    assert_eq!(data_root(None, None), join(".", &["VoxType"]));
}

#[test]
fn paths_under_the_data_directory() {
    let root = "/data/VoxType";
    assert_eq!(settings_path(root), join(root, &["settings.json"]));
    assert_eq!(runtime_log_path(root), join(root, &["logs", "runtime.log"]));
    assert_eq!(models_dir(root), join(root, &["models"]));
    assert_eq!(model_dir_for_id(root, "sensevoice-int8", "sensevoice"), join(root, &["models", "sensevoice"]));
    assert_eq!(model_layout_path(root, "paraformer-zh"), join(root, &["models", "paraformer-zh"]));
    assert_eq!(bundled_catalog_path(Some("/opt/vox")), Some(join("/opt/vox", &["catalog", "models.json"])));
    assert_eq!(bundled_catalog_path(None), None);
    assert_eq!(user_catalog_path(root), join(root, &["catalog", "models.json"]));
    assert_eq!(staged_catalog_path("/src/app"), join("/src/app", &["bundle-resources", "catalog", "models.json"]));
    assert_eq!(repo_catalog_path("/src/app"), join("/src/app", &["..", "..", "catalog", "models.json"]));
}

fn probe(env: Option<&str>, user: bool, bundled: Option<bool>, staged: bool) -> CatalogProbe {
    CatalogProbe {
        env_override: env.map(|s| s.to_string()),
        user_catalog: "user.json".into(),
        user_catalog_exists: user,
        bundled: bundled.map(|b| PathProbe { path: "bundled.json".into(), is_file: b }),
        staged: PathProbe { path: "staged.json".into(), is_file: staged },
        repo: "repo.json".into(),
    }
}

#[test]
fn catalog_location_order() {
    let p = probe(Some("env.json"), true, Some(true), true);
    assert_eq!((catalog_path(&p).as_str(), catalog_source(&p)), ("env.json", "env"));
    let p = probe(None, true, Some(true), true);
    assert_eq!((catalog_path(&p).as_str(), catalog_source(&p)), ("user.json", "user-override"));
    let p = probe(None, false, Some(true), true);
    assert_eq!((catalog_path(&p).as_str(), catalog_source(&p)), ("bundled.json", "bundled"));
    let p = probe(None, false, Some(false), true);
    assert_eq!((catalog_path(&p).as_str(), catalog_source(&p)), ("staged.json", "dev-staged"));
    let p = probe(None, false, None, false);
    assert_eq!((catalog_path(&p).as_str(), catalog_source(&p)), ("repo.json", "dev-repo"));
}

#[test]
fn download_sources() {
    assert!(download("ModelScope").is_modelscope());
    assert!(!download("zip").is_modelscope());
    assert!(download("archive").is_archive());
    assert!(download("GitHub").is_archive());
    assert!(!download("zip").is_archive());
}

#[test]
fn candidate_urls_are_trimmed_unique_and_ordered() {
    let mut d = download("zip");
    d.url = Some(" https://a/model.zip ".into());
    d.mirror_url = Some("https://mirror/model.zip".into());
    d.fallback_urls = vec![
        "https://a/model.zip".into(),
        "   ".into(),
        "https://b/model.zip".into(),
        "https://mirror/model.zip".into(),
    ];
    assert_eq!(
        d.candidate_zip_urls(),
        vec!["https://mirror/model.zip", "https://a/model.zip", "https://b/model.zip"]
    );
    assert!(download("zip").candidate_zip_urls().is_empty());
}

#[test]
fn preset_or_type() {
    assert_eq!(entry("x", "x", "sensevoice", None).runtime_preset_or_type(), "sensevoice");
    assert_eq!(entry("x", "x", "sensevoice", Some("whisper")).runtime_preset_or_type(), "whisper");
}

#[test]
fn catalog_lookup() {
    let catalog = ModelsCatalog {
        schema_version: 1,
        models: vec![entry("a", "la", "t", None), entry("b", "lb", "t", None), entry("b", "lb2", "t", None)],
    };
    match find_catalog_entry(&catalog, "b") {
        Ok(e) => assert_eq!(e.layout, "lb"),
        Err(e) => panic!("unexpected error {e}"),
    }
    match find_catalog_entry(&catalog, "zz") {
        Ok(_) => panic!("found a missing model"),
        Err(e) => assert_eq!(e, "未知模型: zz"),
    }
}

#[test]
fn sensevoice_layout() {
    let e = entry("sensevoice-int8", "sensevoice", "sensevoice", None);
    let ok = snapshot(&["sensevoice"], &["sensevoice/tokens.txt", "sensevoice/model.int8.onnx"]);
    assert!(is_model_installed(&e, &ok));
    let plain = snapshot(&["sensevoice"], &["sensevoice/tokens.txt", "sensevoice/model.onnx"]);
    assert!(is_model_installed(&e, &plain));
    let no_tokens = snapshot(&["sensevoice"], &["sensevoice/model.int8.onnx"]);
    assert!(!is_model_installed(&e, &no_tokens));
    let no_dir = snapshot(&[], &["sensevoice/tokens.txt", "sensevoice/model.int8.onnx"]);
    assert!(!is_model_installed(&e, &no_dir));
    assert!(tokens_exists(&ok, "sensevoice"));
    assert!(!tokens_exists(&no_tokens, "sensevoice"));
}

#[test]
fn whisper_layout() {
    let e = entry("w", "whisper-tiny", "other", Some("whisper"));
    let ok = snapshot(
        &["whisper-tiny"],
        &["whisper-tiny/tokens.txt", "whisper-tiny/encoder.int8.onnx", "whisper-tiny/decoder.onnx"],
    );
    assert!(is_model_installed(&e, &ok));
    let missing_decoder = snapshot(&["whisper-tiny"], &["whisper-tiny/tokens.txt", "whisper-tiny/encoder.onnx"]);
    assert!(!is_model_installed(&e, &missing_decoder));
}

#[test]
fn funasr_nano_layout() {
    let e = entry("f", "fun-asr-nano", "fun_asr_nano", None);
    let files = [
        "fun-asr-nano/encoder_adaptor.int8.onnx",
        "fun-asr-nano/llm.onnx",
        "fun-asr-nano/embedding.onnx",
        "fun-asr-nano/Qwen3-0.6B/vocab.json",
    ];
    let ok = snapshot(&["fun-asr-nano", "fun-asr-nano/Qwen3-0.6B"], &files);
    assert!(is_model_installed(&e, &ok));
    let no_tok_dir = snapshot(&["fun-asr-nano"], &files);
    assert!(!is_model_installed(&e, &no_tok_dir));
}

#[test]
fn qwen_asr_layout() {
    let e = entry("q", "qwen-asr", "qwen_asr", None);
    let mut files = vec![
        "qwen-asr/conv_frontend.onnx",
        "qwen-asr/encoder.onnx",
        "qwen-asr/decoder.int8.onnx",
        "qwen-asr/tokenizer/tokenizer.json",
    ];
    let ok = snapshot(&["qwen-asr", "qwen-asr/tokenizer"], &files);
    assert!(is_model_installed(&e, &ok));
    files.remove(0);
    let no_frontend = snapshot(&["qwen-asr", "qwen-asr/tokenizer"], &files);
    assert!(!is_model_installed(&e, &no_frontend));
}

#[test]
fn staging_directory_check() {
    let e = entry("p", "paraformer", "paraformer", None);
    let s = snapshot(&[".staging-paraformer"], &[".staging-paraformer/tokens.txt", ".staging-paraformer/model.onnx"]);
    assert!(is_model_installed_at(&s, ".staging-paraformer", &e));
    assert!(!is_model_installed(&e, &s));
}

#[test]
fn model_statuses() {
    let catalog = ModelsCatalog {
        schema_version: 1,
        models: vec![entry("a", "la", "t", None), entry("b", "lb", "t", None)],
    };
    let mut settings = AppSettings::default();
    settings.active_model_id = Some("b".into());
    let s = snapshot(&["la"], &["la/tokens.txt", "la/model.onnx"]);
    let st = list_model_statuses(&catalog, &settings, &s);
    assert_eq!(st.len(), 2);
    assert_eq!((st[0].id.as_str(), st[0].installed, st[0].active), ("a", true, false));
    assert_eq!((st[1].id.as_str(), st[1].installed, st[1].active), ("b", false, true));
    assert_eq!(st[0].name, "a name");
    assert_eq!(st[1].description, "b description");
    assert!(st[0].supported);
}

#[test]
fn runtime_executable() {
    let c = runtime_exe_candidates(Some("C:/custom/rt.exe"), "/src/app", Some("/opt/vox"));
    assert_eq!(
        c,
        vec![
            "C:/custom/rt.exe".to_string(),
            join("/src/app", &["..", "..", "runtime", "dist", "voxtype-runtime", "voxtype-runtime.exe"]),
            join("/opt/vox", &["runtime", "voxtype-runtime", "voxtype-runtime.exe"]),
        ]
    );
    assert_eq!(runtime_exe_candidates(None, "/s", None).len(), 1);
    let probes = vec![
        PathProbe { path: "a".into(), is_file: false },
        PathProbe { path: "b".into(), is_file: true },
        PathProbe { path: "c".into(), is_file: true },
    ];
    assert_eq!(runtime_exe_path(&probes), "b");
    let none = vec![PathProbe { path: "a".into(), is_file: false }];
    assert_eq!(runtime_exe_path(&none), "a");
    assert_eq!(runtime_exe_path(&vec![]), "voxtype-runtime.exe");
}

#[test]
fn candidate_urls_keep_first_occurrence_order() {
    let mut d = download("zip");
    d.mirror_url = Some("  https://m ".into());
    d.url = Some("https://u".into());
    d.fallback_urls = vec!["https://u ".into(), "https://f".into(), "https://m".into(), "https://g".into()];
    let urls = d.candidate_zip_urls();
    assert_eq!(urls, vec!["https://m", "https://u", "https://f", "https://g"]);
    for u in &urls {
        assert_eq!(u.trim(), u);
    }
}
