use dictation_core::catalog::{
    auto_load_plan, find_preset, get_preset_models, list_models, model_file_path,
};
use dictation_core::devices::{list_audio_devices, resolve_device};
use dictation_core::download::{
    download_epilogue, download_plan, temp_file_name, DownloadError, DownloadJob, DownloadPlan,
    FinishAction,
};

#[test]
fn preset_catalog_contents() {
    let presets = get_preset_models();
    assert_eq!(presets.len(), 33);
    assert_eq!(presets[0].id, "tiny.en");
    assert_eq!(presets[0].name, "Tiny (English)");
    assert_eq!(presets[0].filename, "ggml-tiny.en.bin");
    assert_eq!(presets[0].size, "78 MB");
    assert_eq!(
        presets[0].url,
        "https://huggingface.co/ggerganov/whisper.cpp/resolve/main/ggml-tiny.en.bin"
    );
    assert_eq!(presets[10].id, "large-v3");
    assert_eq!(presets[10].name, "Large v3 (Best)");
    assert_eq!(presets[32].id, "large-v3-turbo-q8_0");
    assert_eq!(presets[32].filename, "ggml-large-v3-turbo-q8_0.bin");
    assert_eq!(presets[32].size, "874 MB");
}

#[test]
fn preset_ids_are_distinct() {
    let presets = get_preset_models();
    for i in 0..presets.len() {
        for j in 0..i {
            assert_ne!(presets[i].id, presets[j].id);
        }
    }
}

#[test]
fn find_preset_locates_by_id() {
    let presets = get_preset_models();
    assert_eq!(find_preset(&presets, &"tiny.en".to_string()), Some(0));
    assert_eq!(find_preset(&presets, &"base".to_string()), Some(5));
    assert_eq!(find_preset(&presets, &"no-such-model".to_string()), None);
}

#[test]
fn list_models_reports_status_per_preset() {
    let presets = get_preset_models();
    let mut downloaded = vec![false; presets.len()];
    downloaded[0] = true;
    downloaded[2] = true;
    let active = Some("ggml-small.en.bin".to_string());
    let infos = list_models(&presets, &downloaded, &active);
    assert_eq!(infos.len(), presets.len());
    assert!(infos[0].downloaded && !infos[0].active);
    assert!(!infos[1].downloaded && !infos[1].active);
    assert!(infos[2].downloaded && infos[2].active);
    assert_eq!(infos[2].filename, "ggml-small.en.bin");
    let infos_none = list_models(&presets, &downloaded, &None);
    assert!(infos_none.iter().all(|m| !m.active));
}

#[test]
fn model_paths_join_directory_and_filename() {
    assert_eq!(model_file_path("/data/models", "ggml-tiny.en.bin"), "/data/models/ggml-tiny.en.bin");
}

#[test]
fn auto_load_resolves_saved_selection() {
    let presets = get_preset_models();
    let plan = auto_load_plan(&presets, &Some("base.en".to_string()), "/data/models");
    let (i, path) = plan.unwrap();
    assert_eq!(i, 1);
    assert_eq!(path, "/data/models/ggml-base.en.bin");
    assert!(auto_load_plan(&presets, &None, "/data/models").is_none());
    assert!(auto_load_plan(&presets, &Some("gone".to_string()), "/data/models").is_none());
}

#[test]
fn temp_names_replace_the_extension() {
    assert_eq!(temp_file_name("ggml-tiny.en.bin"), "ggml-tiny.en.tmp");
    assert_eq!(temp_file_name("ggml-large-v3.bin"), "ggml-large-v3.tmp");
    assert_eq!(temp_file_name("plain"), "plain.tmp");
}

#[test]
fn download_of_unknown_model_is_refused() {
    let presets = get_preset_models();
    let r = download_plan(&presets, &"nonsense".to_string(), false);
    assert!(matches!(r, Err(DownloadError::UnknownModel)));
}

#[test]
fn download_of_present_file_finishes_immediately() {
    let presets = get_preset_models();
    let r = download_plan(&presets, &"tiny.en".to_string(), true).unwrap();
    // idempotent: no fetch, no temporary file is ever named
    assert!(matches!(r, DownloadPlan::AlreadyDownloaded));
}

#[test]
fn download_of_missing_file_streams_to_temp_sibling() {
    let presets = get_preset_models();
    let r = download_plan(&presets, &"tiny.en".to_string(), false).unwrap();
    match r {
        DownloadPlan::Fetch { url, temp_name, final_name } => {
            assert_eq!(url, "https://huggingface.co/ggerganov/whisper.cpp/resolve/main/ggml-tiny.en.bin");
            assert_eq!(final_name, "ggml-tiny.en.bin");
            assert_eq!(temp_name, "ggml-tiny.en.tmp");
        }
        DownloadPlan::AlreadyDownloaded => panic!("file is absent: it must be fetched"),
    }
}

#[test]
fn download_progress_accounts_chunks() {
    let mut job = DownloadJob::new(200);
    let p = job.on_chunk(50).unwrap();
    assert_eq!((p.percent, p.received, p.total), (25, 50, 200));
    let p = job.on_chunk(150).unwrap();
    assert_eq!((p.percent, p.received, p.total), (100, 200, 200));
}

#[test]
fn download_progress_without_total_stays_silent() {
    let mut job = DownloadJob::new(0);
    assert!(job.on_chunk(4096).is_none());
    assert_eq!(job.received, 4096);
}

#[test]
fn download_progress_is_clipped_at_hundred() {
    let mut job = DownloadJob::new(100);
    let p = job.on_chunk(250).unwrap();
    assert_eq!(p.percent, 100);
    assert_eq!(p.received, 250);
}

#[test]
fn temp_file_is_promoted_only_after_a_complete_stream() {
    assert_eq!(download_epilogue(true), FinishAction::PromoteTempFile);
    assert_eq!(download_epilogue(false), FinishAction::LeaveTempFile);
}

#[test]
fn device_listing_marks_the_default() {
    let names = vec!["USB Mic".to_string(), "Built-in".to_string()];
    let devices = list_audio_devices(&names, &Some("Built-in".to_string()));
    assert_eq!(devices.len(), 2);
    assert_eq!(devices[0].name, "USB Mic");
    assert!(!devices[0].is_default);
    assert!(devices[1].is_default);
    let unmarked = list_audio_devices(&names, &None);
    assert!(unmarked.iter().all(|d| !d.is_default));
}

#[test]
fn saved_microphone_resolves_or_falls_back() {
    let names = vec!["USB Mic".to_string(), "Built-in".to_string()];
    let devices = list_audio_devices(&names, &Some("Built-in".to_string()));
    assert_eq!(resolve_device(&devices, &Some("Built-in".to_string())), Some(1));
    // an unplugged device falls back to the platform default
    assert_eq!(resolve_device(&devices, &Some("Gone Mic".to_string())), None);
    // no saved selection means the platform default as well
    assert_eq!(resolve_device(&devices, &None), None);
}
