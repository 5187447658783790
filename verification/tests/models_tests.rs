use input0::commands::models::{
    active_model_or_default, check_deletable, model_recommendation, switch_model_plan,
};
use input0::models::manager::{
    self, downloading_path, is_model_downloaded, plan_response, retry_delay_secs, BackendPaths,
    ResponseStep,
};
use input0::models::registry::{self, BackendKind};
use input0::models::manager::{download_step, DownloadEvent, DownloadStage};
use input0::stt::{language_to_stt_lang, map_language_for_sensevoice};

#[test]
fn test_get_model_found() {
    let model = registry::get_model("whisper-base");
    assert!(model.is_some());
    assert_eq!(model.unwrap().id, "whisper-base");
}

#[test]
fn test_get_model_not_found() {
    assert!(registry::get_model("nonexistent").is_none());
}

#[test]
fn test_all_models_have_files() {
    for model in registry::all_models() {
        assert!(!model.files.is_empty(), "Model {} has no files", model.id);
    }
}

#[test]
fn test_recommended_models_for_chinese() {
    let recs = registry::recommended_models_for_language("zh");
    let ids: Vec<&str> = recs.iter().map(|m| m.id).collect();
    assert!(ids.contains(&"sensevoice-small"));
    assert!(ids.contains(&"paraformer-zh"));
}

#[test]
fn test_recommended_models_for_english() {
    let recs = registry::recommended_models_for_language("en");
    let ids: Vec<&str> = recs.iter().map(|m| m.id).collect();
    assert!(ids.contains(&"whisper-large-v3-turbo"));
    assert!(ids.contains(&"moonshine-base-en"));
}

#[test]
fn test_recommended_models_fallback() {
    let recs = registry::recommended_models_for_language("unknown-lang");
    assert!(recs.is_empty());
}

#[test]
fn test_suggest_switch_when_needed() {
    let suggestion = registry::suggest_model_switch("whisper-base", "zh");
    assert!(suggestion.is_some());
    let recs = suggestion.unwrap();
    assert!(recs.len() >= 2);
    let ids: Vec<&str> = recs.iter().map(|(id, _, _)| *id).collect();
    assert!(ids.contains(&"sensevoice-small"));
    assert!(ids.contains(&"paraformer-zh"));
}

#[test]
fn test_suggest_switch_not_needed_any_recommended() {
    let suggestion = registry::suggest_model_switch("sensevoice-small", "zh");
    assert!(suggestion.is_none());
    let suggestion2 = registry::suggest_model_switch("paraformer-zh", "zh");
    assert!(suggestion2.is_none());
}

#[test]
fn test_suggest_switch_no_nag_for_unknown_lang() {
    let suggestion = registry::suggest_model_switch("whisper-base", "unknown-lang");
    assert!(suggestion.is_none());
}

#[test]
fn test_list_models_returns_all() {
    let models = manager::list_models_with_status("whisper-base", &[]);
    assert_eq!(models.len(), registry::all_models().len());
}

#[test]
fn test_list_models_marks_active() {
    let models = manager::list_models_with_status("whisper-base", &[]);
    let active_count = models.iter().filter(|m| m.is_active).count();
    assert_eq!(active_count, 1);
    assert!(models.iter().any(|m| m.id == "whisper-base" && m.is_active));
}

#[test]
fn test_paraformer_trilingual_registered() {
    let model = registry::get_model("paraformer-trilingual")
        .expect("paraformer-trilingual must be registered");
    assert_eq!(model.backend, registry::BackendKind::Paraformer);
    assert_eq!(model.files.len(), 2, "should have model + tokens");
    let paths: Vec<&str> = model.files.iter().map(|f| f.relative_path).collect();
    assert!(paths.contains(&"model.int8.onnx"));
    assert!(paths.contains(&"tokens.txt"));
}

#[test]
fn test_paraformer_trilingual_recommended_for_cantonese() {
    let recs = registry::recommended_models_for_language("yue");
    let ids: Vec<&str> = recs.iter().map(|m| m.id).collect();
    assert!(ids.contains(&"paraformer-trilingual"),
        "paraformer-trilingual should be recommended for Cantonese, got: {:?}", ids);
}

#[test]
fn test_fire_red_asr_v1_registered() {
    let model = registry::get_model("fire-red-asr-v1")
        .expect("fire-red-asr-v1 must be registered");
    assert_eq!(model.backend, registry::BackendKind::FireRedAsr);
    assert_eq!(model.files.len(), 3, "should have encoder + decoder + tokens");
    let paths: Vec<&str> = model.files.iter().map(|f| f.relative_path).collect();
    assert!(paths.contains(&"encoder.int8.onnx"));
    assert!(paths.contains(&"decoder.int8.onnx"));
    assert!(paths.contains(&"tokens.txt"));
}

#[test]
fn test_fire_red_asr_v1_not_in_recommendation_pool() {
    for lang in ["zh", "en", "ja", "ko", "yue", "auto"] {
        let recs = registry::recommended_models_for_language(lang);
        let ids: Vec<&str> = recs.iter().map(|m| m.id).collect();
        assert!(!ids.contains(&"fire-red-asr-v1"),
            "fire-red-asr-v1 should NOT be recommended for {} (too large, manual only)", lang);
    }
}

#[test]
fn test_fire_red_asr_model_paths() {
    let (enc, dec, tokens) = manager::fire_red_asr_model_paths("fire-red-asr-v1")
        .expect("paths should resolve");
    assert!(std::path::Path::new(&enc).ends_with(std::path::Path::new("encoder.int8.onnx")));
    assert!(std::path::Path::new(&dec).ends_with(std::path::Path::new("decoder.int8.onnx")));
    assert!(std::path::Path::new(&tokens).ends_with(std::path::Path::new("tokens.txt")));
}

#[test]
fn language_to_stt_lang_folds_chinese_variants() {
    assert_eq!(language_to_stt_lang("zh-CN"), "zh");
    assert_eq!(language_to_stt_lang("zh-TW"), "zh");
    assert_eq!(language_to_stt_lang("zh"), "zh");
}

#[test]
fn language_to_stt_lang_passes_through_other_codes() {
    for code in ["auto", "en", "ja", "ko", "es", "fr", "de"] {
        assert_eq!(language_to_stt_lang(code), code);
    }
}

#[test]
fn map_folds_chinese_variants_to_zh() {
    assert_eq!(map_language_for_sensevoice("zh-CN"), "zh");
    assert_eq!(map_language_for_sensevoice("zh-TW"), "zh");
    assert_eq!(map_language_for_sensevoice("zh"), "zh");
}

#[test]
fn map_passes_through_supported_codes() {
    assert_eq!(map_language_for_sensevoice("en"), "en");
    assert_eq!(map_language_for_sensevoice("ja"), "ja");
    assert_eq!(map_language_for_sensevoice("ko"), "ko");
}

#[test]
fn map_unknown_codes_to_auto() {
    assert_eq!(map_language_for_sensevoice("auto"), "auto");
    assert_eq!(map_language_for_sensevoice("es"), "auto");
}

#[test]
fn resolve_url_keeps_default_and_rewrites_mirror() {
    let url = "https://huggingface.co/a/b/resolve/main/tokens.txt";
    assert_eq!(registry::resolve_url(url, ""), url);
    assert_eq!(registry::resolve_url(url, "https://huggingface.co"), url);
    assert_eq!(
        registry::resolve_url(url, "https://hf-mirror.com//"),
        "https://hf-mirror.com/a/b/resolve/main/tokens.txt"
    );
}

#[test]
fn catalog_ids_are_unique() {
    let all = registry::all_models();
    for (i, a) in all.iter().enumerate() {
        for b in all.iter().skip(i + 1) {
            assert_ne!(a.id, b.id);
        }
        assert_eq!(registry::get_model(a.id).unwrap().id, a.id);
    }
}

#[test]
fn downloaded_needs_every_file_non_empty() {
    assert!(is_model_downloaded("sensevoice-small", &[10, 20]));
    assert!(!is_model_downloaded("sensevoice-small", &[10, 0]));
    assert!(!is_model_downloaded("sensevoice-small", &[10]));
    assert!(!is_model_downloaded("nonexistent", &[]));
}

#[test]
fn listing_marks_downloaded_by_position() {
    let models = manager::list_models_with_status("paraformer-zh", &[true, false]);
    assert!(models[0].is_downloaded);
    assert!(!models[1].is_downloaded);
    assert!(!models[5].is_downloaded);
    assert!(models.iter().any(|m| m.id == "paraformer-zh" && m.is_active));
    assert_eq!(models[0].size_display, "142 MB");
}

#[test]
fn resumable_download_decisions() {
    assert!(matches!(plan_response(100, 416, None, 500), ResponseStep::Complete));
    assert!(matches!(plan_response(0, 404, None, 500), ResponseStep::Failed));
    assert!(matches!(
        plan_response(100, 206, Some(400), 500),
        ResponseStep::Write { append: true, start: 100, total: 500 }
    ));
    assert!(matches!(
        plan_response(100, 206, None, 500),
        ResponseStep::Write { append: true, start: 100, total: 500 }
    ));
    assert!(matches!(
        plan_response(100, 200, Some(700), 500),
        ResponseStep::Write { append: false, start: 0, total: 700 }
    ));
    assert!(matches!(
        plan_response(0, 200, None, 500),
        ResponseStep::Write { append: false, start: 0, total: 500 }
    ));
    assert_eq!(retry_delay_secs(1), 2);
    assert_eq!(retry_delay_secs(2), 4);
    assert_eq!(downloading_path("/m/tokens.txt"), "/m/tokens.txt.downloading");
    assert_eq!(
        manager::download_failed_message("tokens.txt", "404 Not Found"),
        "Download failed for tokens.txt: HTTP 404 Not Found"
    );
}

#[test]
fn switch_and_delete_checks() {
    let e = switch_model_plan("nope", true).err().unwrap();
    assert_eq!(e.message(), "Unknown model: nope");
    let e = switch_model_plan("paraformer-zh", false).err().unwrap();
    assert_eq!(e.message(), "Model 'Paraformer 中文' is not downloaded yet. Please download it first.");
    if let Ok(p) = switch_model_plan("moonshine-base-en", true) {
        match p {
            BackendPaths::Moonshine(a, _, _, _, t) => {
                assert!(a.ends_with("moonshine-base-en/preprocess.onnx"));
                assert!(t.ends_with("moonshine-base-en/tokens.txt"));
            }
            _ => panic!("expected the Moonshine backend"),
        }
    }
    let e = check_deletable(Some("whisper-base"), "whisper-base").err().unwrap();
    assert_eq!(
        e.message(),
        "Cannot delete the currently active model. Please switch to another model first."
    );
    assert!(check_deletable(Some("whisper-base"), "paraformer-zh").is_ok());
    assert!(check_deletable(None, "whisper-base").is_ok());
}

#[test]
fn recommendation_for_language() {
    let r = model_recommendation(active_model_or_default(None), "zh");
    assert_eq!(r.current_model_id, "whisper-base");
    assert!(r.should_switch);
    assert_eq!(r.recommended_models.len(), 2);
    assert_eq!(r.recommended_models[0].id, "sensevoice-small");
    let r = model_recommendation(active_model_or_default(Some("sensevoice-small")), "zh");
    assert!(!r.should_switch);
    assert!(r.recommended_models.is_empty());
    assert_eq!(registry::get_model("whisper-base").unwrap().backend, BackendKind::Whisper);
}

#[test]
fn download_of_unknown_model_is_refused() {
    match manager::download_start("no-such-model") {
        Err(e) => assert_eq!(e.message(), "Unknown model: no-such-model"),
        Ok(_) => panic!("unknown model accepted"),
    }
}

#[test]
fn download_skips_present_files_and_retries_failures() {
    let (stage, total) = manager::download_start("sensevoice-small").unwrap();
    assert_eq!(total, registry::get_model("sensevoice-small").unwrap().files.len());
    assert_eq!(stage, DownloadStage::Check { file: 0 });
    let s = download_step(stage, total, DownloadEvent::Checked { present: true });
    assert_eq!(s, DownloadStage::Skip { file: 0 });
    let s = download_step(s, total, DownloadEvent::Performed);
    assert_eq!(s, DownloadStage::Check { file: 1 });
    let s = download_step(s, total, DownloadEvent::Checked { present: false });
    assert_eq!(s, DownloadStage::Fetch { file: 1, attempt: 0 });
    let s = download_step(s, total, DownloadEvent::Attempted { ok: false });
    assert_eq!(s, DownloadStage::Fetch { file: 1, attempt: 1 });
    let s2 = download_step(s, total, DownloadEvent::Attempted { ok: true });
    assert_eq!(s2, DownloadStage::Install { file: 1 });
    let s = download_step(s, total, DownloadEvent::Attempted { ok: false });
    assert_eq!(s, DownloadStage::Fetch { file: 1, attempt: 2 });
    let s = download_step(s, total, DownloadEvent::Attempted { ok: false });
    assert_eq!(s, DownloadStage::GiveUp);
    let last = download_step(DownloadStage::Install { file: total - 1 }, total, DownloadEvent::Performed);
    assert_eq!(last, DownloadStage::Done);
    // An event that does not answer the stage changes nothing.
    assert_eq!(
        download_step(DownloadStage::Check { file: 0 }, total, DownloadEvent::Performed),
        DownloadStage::Check { file: 0 }
    );
}

#[test]
fn fetch_pauses_grow_with_attempts() {
    assert_eq!(manager::fetch_delay_secs(0), 0);
    assert_eq!(manager::fetch_delay_secs(1), 2);
    assert_eq!(manager::fetch_delay_secs(2), 4);
}

#[test]
fn model_file_in_joins_directories() {
    let p = manager::model_file_in("/cfg/com.input0.app", "whisper-base", "ggml-base.bin");
    assert!(p.ends_with("whisper-base/ggml-base.bin") || p.ends_with("whisper-base\\ggml-base.bin"));
    assert!(p.starts_with("/cfg/com.input0.app"));
    assert!(p.contains("models"));
}

#[test]
fn downloaded_flags_follow_file_sizes() {
    let all = registry::all_models();
    let mut sizes: Vec<Vec<u64>> = all.iter().map(|m| vec![0u64; m.files.len()]).collect();
    let k = all.iter().position(|m| m.id == "sensevoice-small").unwrap();
    sizes[k] = vec![1u64; all[k].files.len()];
    let j = all.iter().position(|m| m.id == "whisper-base").unwrap();
    sizes[j] = vec![1u64; all[j].files.len() + 1];
    let flags = manager::downloaded_flags(&sizes);
    assert_eq!(flags.len(), all.len());
    for (i, f) in flags.iter().enumerate() {
        assert_eq!(*f, i == k, "position {}", i);
    }
    let listed = manager::list_models_with_status("whisper-base", &flags);
    assert!(listed[k].is_downloaded);
    assert!(!listed[j].is_downloaded);
    assert!(listed[j].is_active);
    // Missing positions count as not downloaded.
    assert!(manager::downloaded_flags(&[]).iter().all(|f| !*f));
}
