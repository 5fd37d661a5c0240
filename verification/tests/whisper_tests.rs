use voxforge::whisper::{
    is_model_downloaded, join_segments, model_download_url, model_source, models,
    DownloadProgress, ModelSource, ProgressReport, MIN_MODEL_BYTES,
};

#[test]
fn model_size_threshold() {
    assert!(!is_model_downloaded(None));
    assert!(!is_model_downloaded(Some(0)));
    assert!(!is_model_downloaded(Some(MIN_MODEL_BYTES)));
    assert!(!is_model_downloaded(Some(1_000_000)));
    assert!(is_model_downloaded(Some(1_000_001)));
}

#[test]
fn model_table() {
    let m = models();
    assert_eq!(m.len(), 2);
    assert_eq!(m[0].file, "ggml-small-q8_0.bin");
    assert_eq!(m[0].label, "Small Q8 (~180MB)");
    assert_eq!(m[1].file, "ggml-large-v3-turbo-q8_0.bin");
    assert_eq!(m[1].label, "Large v3 Turbo Q8 (~810MB)");
}

#[test]
fn model_urls() {
    assert_eq!(
        model_download_url("ggml-small-q8_0.bin"),
        Some("https://huggingface.co/ggerganov/whisper.cpp/resolve/main/ggml-small-q8_0.bin")
    );
    assert_eq!(
        model_download_url("ggml-large-v3-turbo-q8_0.bin"),
        Some("https://huggingface.co/ggerganov/whisper.cpp/resolve/main/ggml-large-v3-turbo-q8_0.bin")
    );
    assert_eq!(model_download_url("ggml-tiny.bin"), None);
}

#[test]
fn model_sources() {
    assert_eq!(model_source("anything", Some(2_000_000)), ModelSource::Cached);
    assert_eq!(
        model_source("ggml-small-q8_0.bin", Some(10)),
        ModelSource::Download("https://huggingface.co/ggerganov/whisper.cpp/resolve/main/ggml-small-q8_0.bin")
    );
    assert_eq!(
        model_source("ggml-nope.bin", None),
        ModelSource::Unknown("Unknown model: ggml-nope.bin".to_string())
    );
}

#[test]
fn progress_reports_every_two_percent() {
    let mut p = DownloadProgress::new(10_000_000);
    assert_eq!(p.advance(100_000), None); // 1%
    assert_eq!(
        p.advance(100_000),
        Some(ProgressReport { progress: 2, downloaded_mb: 0, total_mb: 10 })
    );
    assert_eq!(p.advance(100_000), None); // 3%
    assert_eq!(
        p.advance(100_000),
        Some(ProgressReport { progress: 4, downloaded_mb: 0, total_mb: 10 })
    );
    assert_eq!(
        p.advance(9_600_000),
        Some(ProgressReport { progress: 100, downloaded_mb: 10, total_mb: 10 })
    );
    assert_eq!(p.downloaded(), 10_000_000);
}

#[test]
fn unknown_size_never_reports() {
    let mut p = DownloadProgress::new(0);
    assert_eq!(p.advance(5_000_000), None);
    assert_eq!(p.advance(5_000_000), None);
}

#[test]
fn segments_are_joined_with_single_spaces() {
    let segs = vec![
        Some(" Hello there. ".to_string()),
        None,
        Some("How are you?".to_string()),
        Some("   ".to_string()),
    ];
    assert_eq!(join_segments(&segs), "Hello there. How are you?");
    assert_eq!(join_segments(&vec![]), "");
}
