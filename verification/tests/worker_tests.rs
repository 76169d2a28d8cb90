use module_fetcher::worker::{
    get_event_metadata, parse_worker_conf, UserWorkerRuntimeOpts, WorkerRuntimeOpts,
};

type Opts = WorkerRuntimeOpts<String, u8>;

#[test]
fn user_worker_with_a_key() {
    let conf: Opts = WorkerRuntimeOpts::UserWorker(UserWorkerRuntimeOpts {
        service_path: Some("/srv/hello".to_string()),
        key: Some(0xa1a2a3a4b1b2c1c2d1d2d3d4d5d6d7d8),
        pool_msg_tx: Some("pool".to_string()),
        events_msg_tx: None,
    });
    let (key, pool, events, name) = parse_worker_conf(&conf);
    assert_eq!(key, Some(0xa1a2a3a4b1b2c1c2d1d2d3d4d5d6d7d8));
    assert_eq!(pool, Some("pool".to_string()));
    assert_eq!(events, None);
    assert_eq!(name, "sb-iso-a1a2a3a4-b1b2-c1c2-d1d2-d3d4d5d6d7d8");
    let metadata = get_event_metadata(&conf);
    assert_eq!(metadata.service_path, Some("/srv/hello".to_string()));
    assert_eq!(metadata.execution_id, Some(0xa1a2a3a4b1b2c1c2d1d2d3d4d5d6d7d8));
}

#[test]
fn user_worker_without_a_key() {
    let conf: Opts = WorkerRuntimeOpts::UserWorker(UserWorkerRuntimeOpts {
        service_path: None,
        key: None,
        pool_msg_tx: None,
        events_msg_tx: Some(7),
    });
    let (key, pool, events, name) = parse_worker_conf(&conf);
    assert_eq!((key, pool, events), (None, None, Some(7)));
    assert_eq!(name, "isolate-worker-unknown");
    let metadata = get_event_metadata(&conf);
    assert_eq!((metadata.service_path, metadata.execution_id), (None, None));
}

#[test]
fn main_and_events_workers() {
    let (key, pool, events, name) = parse_worker_conf(&Opts::MainWorker);
    assert_eq!((key, pool, events), (None, None, None));
    assert_eq!(name, "main-worker");
    let (_, _, _, name) = parse_worker_conf(&Opts::EventsWorker);
    assert_eq!(name, "events-worker");
    let metadata = get_event_metadata(&Opts::EventsWorker);
    assert_eq!((metadata.service_path, metadata.execution_id), (None, None));
}
