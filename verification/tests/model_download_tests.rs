use voxtype::model_download::{attempt_message, curl_progress_message, size_progress_message};
use voxtype::integrity::{digest_hex, verify_digest, verify_file_sha256, Sha256Stream};
use voxtype::model_download::{
    activate_model, archive_file_name, check_curl_download_complete, check_download_complete,
    check_download_supported, check_staged_model, connecting_percent, download_attempts,
    download_kind, expected_total, file_percent, final_download_error, finish_model_install,
    http_failure_clears_part, modelscope_file_done, modelscope_plan, parse_content_range_total,
    part_file_names, prefer_curl, response_plan, resume_offset, should_reset_part,
    single_top_level_dir, staging_dir_name, zip_entry_relative_name, DownloadAttempt,
    DownloadKind, PartMeta, ResponsePlan,
};
use voxtype::settings::{
    AppSettings, ModelCatalogEntry, ModelDownloadSpec, ModelScopeFileSpec, ModelsCatalog,
    ModelsDirSnapshot,
};

fn download(source: &str) -> ModelDownloadSpec {
    ModelDownloadSpec {
        source: source.into(),
        url: None,
        mirror_url: None,
        fallback_urls: vec![],
        modelscope_resolve_base: None,
        modelscope_files: vec![],
        sha256: None,
        size_bytes: None,
    }
}

fn entry(id: &str, name: &str, supported: bool) -> ModelCatalogEntry {
    ModelCatalogEntry {
        id: id.into(),
        name: name.into(),
        description: String::new(),
        default: false,
        model_type: "sensevoice".into(),
        layout: id.into(),
        runtime_preset: None,
        supported,
        download: download("modelscope"),
    }
}

fn file(name: &str, size: Option<u64>, required: bool) -> ModelScopeFileSpec {
    ModelScopeFileSpec { name: name.into(), size, sha256: None, required }
}

fn installed(layout: &str) -> ModelsDirSnapshot {
    ModelsDirSnapshot {
        dirs: vec![layout.to_string()],
        files: vec![format!("{layout}/tokens.txt"), format!("{layout}/model.int8.onnx")],
    }
}

#[test]
fn progress_percentages() {
    assert_eq!(file_percent(0, 100, 0, None), 5);
    assert_eq!(file_percent(0, 100, 50, None), 50);
    assert_eq!(file_percent(0, 100, 100, None), 95);
    assert_eq!(file_percent(0, 100, 500, None), 95);
    assert_eq!(file_percent(0, 0, 0, None), 5);
    assert_eq!(file_percent(0, 1000, 10, Some(20)), 50);
    assert_eq!(file_percent(0, 1000, 10, Some(0)), 5);
    // Earlier files count against the file's own size, as the event computes it.
    assert_eq!(file_percent(30, 1000, 10, Some(20)), 95);
    assert_eq!(connecting_percent(0), 3);
    assert_eq!(connecting_percent(60), 7);
    assert_eq!(connecting_percent(120), 12);
    assert_eq!(connecting_percent(10_000), 12);
}

#[test]
fn partial_file_names() {
    assert_eq!(
        part_file_names(Some("model.zip")),
        ("model.zip.part".to_string(), "model.zip.part.meta.json".to_string())
    );
    assert_eq!(part_file_names(None), ("file.part".to_string(), "file.part.meta.json".to_string()));
}

#[test]
fn resuming() {
    let meta = Some(PartMeta { url: "https://a".into(), total: Some(100), downloaded: 40 });
    assert!(!should_reset_part(true, &meta, "https://a"));
    assert!(should_reset_part(true, &meta, "https://b"));
    assert!(should_reset_part(true, &None, "https://a"));
    assert!(!should_reset_part(false, &None, "https://a"));
    assert_eq!(resume_offset(true, &meta, "https://a", 55), 40);
    assert_eq!(resume_offset(true, &meta, "https://b", 55), 55);
    assert_eq!(resume_offset(false, &meta, "https://a", 55), 0);
    let zero = Some(PartMeta { url: "https://a".into(), total: None, downloaded: 0 });
    assert_eq!(resume_offset(true, &zero, "https://a", 12), 12);
}

#[test]
fn response_statuses() {
    assert!(matches!(response_plan(10, 416, "416 Range Not Satisfiable"), ResponsePlan::AlreadyComplete));
    match response_plan(0, 416, "416 Range Not Satisfiable") {
        ResponsePlan::Fail(m) => assert_eq!(m, "HTTP 416 Range Not Satisfiable"),
        _ => panic!("expected failure"),
    }
    match response_plan(0, 404, "404 Not Found") {
        ResponsePlan::Fail(m) => assert_eq!(m, "HTTP 404 Not Found"),
        _ => panic!("expected failure"),
    }
    assert!(matches!(response_plan(10, 200, "200 OK"), ResponsePlan::Restart));
    assert!(matches!(response_plan(10, 206, "206 Partial Content"), ResponsePlan::Proceed));
    assert!(matches!(response_plan(0, 200, "200 OK"), ResponsePlan::Proceed));
}

#[test]
fn totals() {
    assert_eq!(expected_total(Some(60), 40, Some(7), None), Some(100));
    assert_eq!(expected_total(None, 40, Some(7), Some("bytes 40-99/100")), Some(7));
    assert_eq!(expected_total(None, 40, None, Some("bytes 40-99/100")), Some(100));
    assert_eq!(expected_total(None, 40, None, Some("bytes 40-99/*")), None);
    assert_eq!(expected_total(None, 0, None, None), None);
    assert_eq!(parse_content_range_total("bytes 0-1/2/3"), Some(2));
    assert_eq!(parse_content_range_total("no slash"), None);
}

#[test]
fn completeness() {
    assert_eq!(check_download_complete(10, None), Ok(()));
    assert_eq!(check_download_complete(10, Some(10)), Ok(()));
    assert_eq!(check_download_complete(9, Some(10)), Err("下载不完整 (9/10 bytes)".to_string()));
    assert_eq!(check_curl_download_complete(9000, Some(10000)), Ok(()));
    assert_eq!(
        check_curl_download_complete(1000, Some(10000)),
        Err("curl 下载不完整 (1000/10000 bytes)".to_string())
    );
}

#[test]
fn mirror_attempts() {
    assert!(prefer_curl(true, Some(10 * 1024 * 1024)));
    assert!(!prefer_curl(true, Some(10 * 1024 * 1024 - 1)));
    assert!(!prefer_curl(false, Some(u64::MAX)));
    assert!(!prefer_curl(true, None));
    assert_eq!(download_attempts(0, false), Err("模型配置缺少下载地址".to_string()));
    assert_eq!(
        download_attempts(2, false),
        Ok(vec![
            DownloadAttempt { url_index: 0, via_curl: false, retry: 0 },
            DownloadAttempt { url_index: 0, via_curl: false, retry: 1 },
            DownloadAttempt { url_index: 1, via_curl: false, retry: 0 },
            DownloadAttempt { url_index: 1, via_curl: false, retry: 1 },
        ])
    );
    assert_eq!(
        download_attempts(2, true),
        Ok(vec![
            DownloadAttempt { url_index: 0, via_curl: true, retry: 0 },
            DownloadAttempt { url_index: 1, via_curl: true, retry: 0 },
        ])
    );
    assert!(http_failure_clears_part("下载停滞超过 120s"));
    assert!(http_failure_clears_part("连接失败 (30s): timeout"));
    assert!(http_failure_clears_part("HTTP 500 Internal Server Error"));
    assert!(!http_failure_clears_part("下载不完整 (1/2 bytes)"));
    assert_eq!(final_download_error(Some("x".into())), "x");
    assert_eq!(final_download_error(None), "所有下载源均失败，请检查网络或稍后重试");
}

#[test]
fn modelscope_plans() {
    let mut e = entry("sensevoice-int8", "SenseVoice", true);
    match modelscope_plan(&e) {
        Err(m) => assert_eq!(m, "「SenseVoice」缺少 ModelScope 配置"),
        Ok(_) => panic!("expected an error"),
    }
    e.download.modelscope_resolve_base = Some("https://ms/resolve/master//".into());
    match modelscope_plan(&e) {
        Err(m) => assert_eq!(m, "「SenseVoice」未配置 ModelScope 文件列表"),
        Ok(_) => panic!("expected an error"),
    }
    e.download.modelscope_files = vec![
        file("model.int8.onnx", Some(239_233_841), true),
        file("tokens.txt", Some(315_894), true),
        file("README.md", None, false),
    ];
    let p = modelscope_plan(&e).unwrap_or_else(|m| panic!("{m}"));
    assert_eq!(p.total_size, 239_233_841 + 315_894);
    assert_eq!(
        p.urls,
        vec![
            "https://ms/resolve/master/model.int8.onnx",
            "https://ms/resolve/master/tokens.txt",
            "https://ms/resolve/master/README.md",
        ]
    );
}

#[test]
fn modelscope_steps() {
    let req = file("tokens.txt", Some(100), true);
    let opt = file("README.md", None, false);
    assert_eq!(modelscope_file_done(10, &req, Ok(7)), Ok(110));
    assert_eq!(modelscope_file_done(10, &opt, Ok(7)), Ok(17));
    assert_eq!(modelscope_file_done(10, &opt, Err("HTTP 404".into())), Ok(10));
    assert_eq!(
        modelscope_file_done(10, &req, Err("HTTP 404".into())),
        Err("下载 tokens.txt 失败: HTTP 404".to_string())
    );
}

#[test]
fn kinds_and_names() {
    assert_eq!(download_kind(&download("modelscope")), DownloadKind::ModelScope);
    assert_eq!(download_kind(&download("Archive")), DownloadKind::Archive);
    assert_eq!(download_kind(&download("github")), DownloadKind::Archive);
    assert_eq!(download_kind(&download("zip")), DownloadKind::Zip);
    assert_eq!(download_kind(&download("")), DownloadKind::Zip);
    assert_eq!(archive_file_name(DownloadKind::Archive, "sv"), "sv.tar.bz2");
    assert_eq!(archive_file_name(DownloadKind::Zip, "sv"), "sv.zip");
    assert_eq!(staging_dir_name("sensevoice"), ".staging-sensevoice");
    assert_eq!(check_download_supported(&entry("a", "Qwen3-ASR", false)), Err("「Qwen3-ASR」尚未支持".to_string()));
    assert_eq!(check_download_supported(&entry("a", "X", true)), Ok(()));
}

#[test]
fn install_checks() {
    let e = entry("sv", "SenseVoice", true);
    let staged = installed(".staging-sv");
    assert_eq!(check_staged_model(&staged, ".staging-sv", &e), Ok(()));
    assert_eq!(
        check_staged_model(&staged, "sv", &e),
        Err("模型文件不完整，请重试下载".to_string())
    );
    let mut settings = AppSettings::default();
    settings.active_model_id = None;
    assert_eq!(
        finish_model_install(&staged, &e, &mut settings),
        Err("模型安装校验失败，请重试下载".to_string())
    );
    assert_eq!(settings.active_model_id, None);
    assert_eq!(finish_model_install(&installed("sv"), &e, &mut settings), Ok(()));
    assert_eq!(settings.active_model_id.as_deref(), Some("sv"));
}

#[test]
fn model_activation() {
    let catalog = ModelsCatalog {
        schema_version: 1,
        models: vec![entry("sv", "SenseVoice", true), entry("qwen", "Qwen3-ASR", false), entry("pf", "Paraformer", true)],
    };
    let snap = installed("sv");
    let mut s = AppSettings::default();
    s.active_model_id = Some("pf".into());
    assert_eq!(activate_model(&catalog, "nope", &snap, &mut s), Err("未知模型: nope".to_string()));
    assert_eq!(activate_model(&catalog, "qwen", &snap, &mut s), Err("「Qwen3-ASR」尚未支持，无法切换".to_string()));
    assert_eq!(activate_model(&catalog, "pf", &snap, &mut s), Err("请先下载「Paraformer」".to_string()));
    assert_eq!(s.active_model_id.as_deref(), Some("pf"));
    assert_eq!(activate_model(&catalog, "sv", &snap, &mut s), Ok(()));
    assert_eq!(s.active_model_id.as_deref(), Some("sv"));
}

#[test]
fn sha256_of_known_inputs() {
    let mut st = Sha256Stream::new();
    st.feed(b"ab");
    st.feed(b"c");
    let d = st.digest();
    assert_eq!(digest_hex(&d), "ba7816bf8f01cfea414140de5dae2223b00361a396177a9cb410ff61f20015ad");
    let empty = Sha256Stream::new().digest();
    assert_eq!(digest_hex(&empty), "e3b0c44298fc1c149afbf4c8996fb92427ae41e4649b934ca495991b7852b855");
}

#[test]
fn digest_verification() {
    let mut st = Sha256Stream::new();
    st.feed(b"abc");
    assert_eq!(
        verify_file_sha256(st, "  BA7816BF8F01CFEA414140DE5DAE2223B00361A396177A9CB410FF61F20015AD \n"),
        Ok(())
    );
    let mut st = Sha256Stream::new();
    st.feed(b"abd");
    let d = Sha256Stream::new().digest();
    assert_eq!(
        verify_digest(&d, "00"),
        Err("SHA256 校验失败: e3b0c44298fc1c149afbf4c8996fb92427ae41e4649b934ca495991b7852b855 != 00".to_string())
    );
    assert!(verify_file_sha256(st, "ba7816bf8f01cfea414140de5dae2223b00361a396177a9cb410ff61f20015ad").is_err());
}

#[test]
fn extraction_helpers() {
    assert_eq!(single_top_level_dir(&vec![true]), Some(0));
    assert_eq!(single_top_level_dir(&vec![false]), None);
    assert_eq!(single_top_level_dir(&vec![true, true]), None);
    assert_eq!(single_top_level_dir(&vec![]), None);
    assert_eq!(zip_entry_relative_name("//model/tokens.txt"), "model/tokens.txt");
    assert_eq!(zip_entry_relative_name("tokens.txt"), "tokens.txt");
}

#[test]
fn progress_messages() {
    assert_eq!(attempt_message(0, 3, 0), "尝试下载源 1/3…");
    assert_eq!(attempt_message(2, 3, 1), "重试下载源 3/3…");
    assert_eq!(size_progress_message("sv.zip", 5 * 1048576 + 7, Some(228 * 1048576)), "sv.zip… 5 / 228 MB");
    assert_eq!(size_progress_message("sv.zip", 1048575, None), "sv.zip… 0 MB");
    assert_eq!(curl_progress_message("sv.zip", 0, 0, None, 12), "sv.zip… 连接中 (12s)");
    assert_eq!(curl_progress_message("sv.zip", 2097152, 2097152, None, 40), "sv.zip… 2 MB · 等待数据");
    assert_eq!(curl_progress_message("sv.zip", 3145728, 2097152, Some(10485760), 41), "sv.zip… 3 / 10 MB");
}
