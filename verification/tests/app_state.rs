use speechdis::frontend::{FetchAction, FetchServiceExample, Msg};
use speechdis::health::{handle_healthcheck, is_pong, redis_url, AppInfo};
use speechdis::processing::{channel_count_supported, needs_resampling, SAMPLE_RATE};
use speechdis::shared::ModelsApiResponse;
use speechdis::uploader::{self, Model, ReadMode, CHUNK_SIZE};

#[test]
fn healthcheck_reports_redis_ready_on_pong() {
    let info = AppInfo::new(String::from("0.1.0"), std::time::Instant::now());
    assert_eq!(info.app_name, "speechdis");
    let up = std::time::Duration::from_secs(7);
    let h = handle_healthcheck(&info, up, "PONG");
    assert!(h.redis_ready);
    assert_eq!(h.app_name, "speechdis");
    assert_eq!(h.version, "0.1.0");
    assert_eq!(h.uptime, up);
    assert!(!handle_healthcheck(&info, up, "LOADING").redis_ready);
    assert!(is_pong("PONG"));
    assert!(!is_pong("pong"));
    assert_eq!(redis_url(), "redis://127.0.0.1:6379");
}

#[test]
fn page_fetches_then_shows_models() {
    let mut page = FetchServiceExample::create();
    assert_eq!(page.fetching_text(), "");
    assert_eq!(page.models_heading(), "What model are available?");
    let (render, action) = page.update(Msg::GetListModels);
    assert!(render);
    match action {
        FetchAction::Fetch(url) => assert_eq!(url, "http://127.0.0.1:8000/api/v1/admin/models/list"),
        FetchAction::Nothing => panic!("a request must fetch"),
    }
    assert_eq!(page.fetching_text(), "Fetching data...");
    let (render, action) = page.update(Msg::ReceiveResponse(Ok(ModelsApiResponse { data: vec![] })));
    assert!(render);
    assert!(matches!(action, FetchAction::Nothing));
    assert!(!page.fetching);
    assert_eq!(page.models_heading(), "The List of available model is:");
    assert!(page.error_text().is_none());
}

#[test]
fn page_error_keeps_models() {
    let mut page = FetchServiceExample::create();
    page.update(Msg::ReceiveResponse(Ok(ModelsApiResponse { data: vec![] })));
    page.update(Msg::GetListModels);
    page.update(Msg::ReceiveResponse(Err(String::from("network down"))));
    assert!(!page.fetching);
    assert!(page.models.is_some());
    assert_eq!(page.error_text().as_deref(), Some("network down"));
}

#[test]
fn uploader_lists_reads_and_toggles() {
    let mut m = Model::create();
    assert!(m.files.is_empty() && !m.by_chunks);
    assert_eq!(m.update(uploader::Msg::Loaded(String::from("a.wav"))), (true, vec![]));
    assert_eq!(m.update(uploader::Msg::Chunk(Some(String::from("c1")))), (true, vec![]));
    assert_eq!(m.update(uploader::Msg::Chunk(None)), (false, vec![]));
    assert_eq!(m.files, vec!["file: a.wav", "chunk: c1"]);
    m.update(uploader::Msg::ToggleByChunks);
    assert!(m.by_chunks);
    m.update(uploader::Msg::ToggleByChunks);
    assert!(!m.by_chunks);
}

#[test]
fn uploader_starts_one_read_per_file() {
    let mut m = Model::create();
    assert_eq!(m.update(uploader::Msg::Files(3, true)), (true, vec![ReadMode::ByChunks(CHUNK_SIZE); 3]));
    assert_eq!(m.update(uploader::Msg::Files(2, false)), (true, vec![ReadMode::Whole; 2]));
    assert_eq!(m.update(uploader::Msg::Files(0, false)), (true, vec![]));
    assert_eq!(CHUNK_SIZE, 100);
    assert!(m.files.is_empty());
}

#[test]
fn resampling_only_off_the_model_rate() {
    assert_eq!(SAMPLE_RATE, 16_000);
    assert!(!needs_resampling(16_000));
    assert!(needs_resampling(44_100));
    assert!(channel_count_supported(1));
    assert!(!channel_count_supported(2));
}
