use pcli_sync::synchronizer::{
    configuration_file, is_settled, Command, Outcome, Phase, RemoteModel, Reply, Synchronizer, SynchronizerError,
    SynchronizerEvent, INITIAL_DELAY_MILLIS, POLL_TIMEOUT_MILLIS, RETRY_INTERVAL_MILLIS,
};

const MODEL_A: u128 = 0x1111;
const MODEL_B: u128 = 0x2222;

fn ready() -> Synchronizer {
    let mut sync = Synchronizer::new("/w".to_string(), "acme".to_string(), 42, "mm".to_string());
    assert!(sync.init(true).is_ok());
    sync
}

fn model(uuid: u128, state: &str) -> RemoteModel {
    RemoteModel { uuid, state: state.to_string() }
}

fn failure() -> anyhow::Error {
    anyhow::Error::msg("backend unavailable")
}

fn reply(sync: &mut Synchronizer, r: Reply) -> Command {
    assert!(sync.awaits(&r));
    sync.on_reply(r)
}

#[test]
fn new_session_keeps_its_settings() {
    let sync = Synchronizer::new("/w".to_string(), "acme".to_string(), 42, "mm".to_string());
    assert_eq!(sync.path, "/w");
    assert_eq!(sync.tenant, "acme");
    assert_eq!(sync.folder_id, 42);
    assert_eq!(sync.units, "mm");
    assert!(matches!(sync.phase, Phase::Uninitialized));
}

#[test]
fn batch_uuid_is_a_random_uuid() {
    let sync = Synchronizer::new("/w".to_string(), "acme".to_string(), 1, "mm".to_string());
    assert_eq!((sync.batch_uuid >> 76) & 0xF, 4);
    assert_eq!((sync.batch_uuid >> 62) & 0x3, 2);
    let other = Synchronizer::new("/w".to_string(), "acme".to_string(), 1, "mm".to_string());
    assert_ne!(sync.batch_uuid, other.batch_uuid);
}

#[test]
fn failed_invalidation_keeps_the_session_closed() {
    let mut sync = Synchronizer::new("/w".to_string(), "acme".to_string(), 1, "mm".to_string());
    assert!(matches!(sync.init(false), Err(SynchronizerError::SessionInitError)));
    assert!(matches!(sync.phase, Phase::Uninitialized));
    assert!(sync.init(true).is_ok());
    assert!(matches!(sync.phase, Phase::Idle));
}

#[test]
fn settled_states() {
    assert!(is_settled(&"finished".to_string()));
    assert!(is_settled(&"failed".to_string()));
    assert!(is_settled(&"missing-parts".to_string()));
    assert!(!is_settled(&"processing".to_string()));
    assert!(!is_settled(&"uploading".to_string()));
    assert!(!is_settled(&"Finished".to_string()));
}

#[test]
fn create_uploads_once_with_the_batch() {
    let mut sync = ready();
    let batch = sync.batch_uuid;
    match sync.on_event(SynchronizerEvent::Create("/w/part.stl".to_string())) {
        Command::Upload { folder_id, path, batch_uuid, units } => {
            assert_eq!(folder_id, 42);
            assert_eq!(path, "/w/part.stl");
            assert_eq!(batch_uuid, batch);
            assert_eq!(units, "mm");
        }
        other => panic!("unexpected {:?}", other),
    }
    let c = reply(&mut sync, Reply::Uploaded(Ok(None)));
    assert!(matches!(c, Command::Done(Ok(Outcome::Submitted))));
    assert!(matches!(sync.phase, Phase::Idle));
}

#[test]
fn rename_uploads_like_create() {
    let mut sync = ready();
    let batch = sync.batch_uuid;
    match sync.on_event(SynchronizerEvent::Rename("/w/renamed.stl".to_string())) {
        Command::Upload { folder_id, path, batch_uuid, units } => {
            assert_eq!(folder_id, 42);
            assert_eq!(path, "/w/renamed.stl");
            assert_eq!(batch_uuid, batch);
            assert_eq!(units, "mm");
        }
        other => panic!("unexpected {:?}", other),
    }
}

#[test]
fn hidden_and_foreign_paths_make_no_call() {
    let mut sync = ready();
    for event in vec![
        SynchronizerEvent::Create("/w/.part.stl".to_string()),
        SynchronizerEvent::Rename("/w/notes.txt".to_string()),
        SynchronizerEvent::Delete("/w/.part.stl".to_string()),
        SynchronizerEvent::Create("/w/part.STL".to_string()),
    ] {
        let c = sync.on_event(event);
        assert!(matches!(c, Command::Done(Ok(Outcome::Ignored))));
        assert!(matches!(sync.phase, Phase::Idle));
    }
}

#[test]
fn failed_upload_is_an_upload_error() {
    let mut sync = ready();
    sync.on_event(SynchronizerEvent::Create("/w/part.stl".to_string()));
    let c = reply(&mut sync, Reply::Uploaded(Err(failure())));
    assert!(matches!(c, Command::Done(Err(SynchronizerError::UploadError))));
    assert!(matches!(sync.phase, Phase::Idle));
}

#[test]
fn scenario_upload_then_finished() {
    let mut sync = ready();
    let c = sync.on_event(SynchronizerEvent::Create("part.stl".to_string()));
    assert!(matches!(c, Command::Upload { ref path, .. } if path == "part.stl"));
    let c = reply(&mut sync, Reply::Uploaded(Ok(Some(model(MODEL_A, "processing")))));
    assert!(matches!(c, Command::Pause { millis } if millis == INITIAL_DELAY_MILLIS));
    let c = reply(&mut sync, Reply::Paused { elapsed_millis: 5003 });
    assert!(matches!(c, Command::GetModel { uuid } if uuid == MODEL_A));
    let c = reply(&mut sync, Reply::Model(Ok(model(MODEL_A, "finished"))));
    assert!(matches!(c, Command::Pause { millis } if millis == RETRY_INTERVAL_MILLIS));
    let c = reply(&mut sync, Reply::Paused { elapsed_millis: 7010 });
    match c {
        Command::Done(Ok(Outcome::Settled { uuid, state })) => {
            assert_eq!(uuid, MODEL_A);
            assert_eq!(state, "finished");
        }
        other => panic!("unexpected {:?}", other),
    }
    assert!(matches!(sync.phase, Phase::Idle));
}

#[test]
fn model_settled_at_upload_needs_no_query() {
    let mut sync = ready();
    sync.on_event(SynchronizerEvent::Create("/w/part.stl".to_string()));
    reply(&mut sync, Reply::Uploaded(Ok(Some(model(MODEL_A, "missing-parts")))));
    let c = reply(&mut sync, Reply::Paused { elapsed_millis: 5000 });
    assert!(matches!(c, Command::Done(Ok(Outcome::Settled { uuid, .. })) if uuid == MODEL_A));
}

#[test]
fn polling_stops_at_timeout_without_error() {
    let mut sync = ready();
    sync.on_event(SynchronizerEvent::Create("/w/part.stl".to_string()));
    let mut c = reply(&mut sync, Reply::Uploaded(Ok(Some(model(MODEL_A, "processing")))));
    let mut elapsed: u64 = 0;
    let mut queries: u64 = 0;
    loop {
        c = match c {
            Command::Pause { millis } => {
                elapsed += millis;
                reply(&mut sync, Reply::Paused { elapsed_millis: elapsed })
            }
            Command::GetModel { uuid } => {
                assert_eq!(uuid, MODEL_A);
                queries += 1;
                reply(&mut sync, Reply::Model(Ok(model(MODEL_A, "processing"))))
            }
            Command::Done(result) => {
                assert!(matches!(result, Ok(Outcome::TimedOut { uuid }) if uuid == MODEL_A));
                break;
            }
            other => panic!("unexpected {:?}", other),
        };
    }
    assert!(elapsed >= POLL_TIMEOUT_MILLIS);
    assert!(elapsed < POLL_TIMEOUT_MILLIS + RETRY_INTERVAL_MILLIS);
    assert_eq!(queries, 4998);
    assert!(matches!(sync.phase, Phase::Idle));
}

#[test]
fn slow_clock_cannot_stretch_polling() {
    let mut sync = ready();
    sync.on_event(SynchronizerEvent::Create("/w/part.stl".to_string()));
    let mut c = reply(&mut sync, Reply::Uploaded(Ok(Some(model(MODEL_A, "processing")))));
    let mut queries: u64 = 0;
    loop {
        c = match c {
            Command::Pause { .. } => reply(&mut sync, Reply::Paused { elapsed_millis: 0 }),
            Command::GetModel { .. } => {
                queries += 1;
                reply(&mut sync, Reply::Model(Ok(model(MODEL_A, "uploading"))))
            }
            Command::Done(result) => {
                assert!(matches!(result, Ok(Outcome::TimedOut { .. })));
                break;
            }
            other => panic!("unexpected {:?}", other),
        };
    }
    assert_eq!(queries, 4998);
}

#[test]
fn clock_past_timeout_ends_polling_at_once() {
    let mut sync = ready();
    sync.on_event(SynchronizerEvent::Create("/w/part.stl".to_string()));
    reply(&mut sync, Reply::Uploaded(Ok(Some(model(MODEL_B, "processing")))));
    let c = reply(&mut sync, Reply::Paused { elapsed_millis: POLL_TIMEOUT_MILLIS });
    assert!(matches!(c, Command::Done(Ok(Outcome::TimedOut { uuid })) if uuid == MODEL_B));
}

#[test]
fn failed_query_ends_polling_without_error() {
    let mut sync = ready();
    sync.on_event(SynchronizerEvent::Create("/w/part.stl".to_string()));
    reply(&mut sync, Reply::Uploaded(Ok(Some(model(MODEL_A, "processing")))));
    reply(&mut sync, Reply::Paused { elapsed_millis: 5000 });
    let c = reply(&mut sync, Reply::Model(Err(failure())));
    assert!(matches!(c, Command::Done(Ok(Outcome::Unconfirmed { uuid })) if uuid == MODEL_A));
    assert!(matches!(sync.phase, Phase::Idle));
}

#[test]
fn delete_searches_by_base_name() {
    let mut sync = Synchronizer::new("/w".to_string(), "acme".to_string(), 7, "mm".to_string());
    assert!(sync.init(true).is_ok());
    match sync.on_event(SynchronizerEvent::Delete("/w/sub/part.stl".to_string())) {
        Command::Search { folder_ids, name } => {
            assert_eq!(folder_ids, vec![7]);
            assert_eq!(name, "part");
        }
        other => panic!("unexpected {:?}", other),
    }
}

#[test]
fn scenario_delete_two_matches() {
    let mut sync = ready();
    let c = sync.on_event(SynchronizerEvent::Delete("part.stl".to_string()));
    assert!(matches!(c, Command::Search { ref name, .. } if name == "part"));
    let found = vec![model(MODEL_A, "finished"), model(MODEL_B, "finished")];
    let c = reply(&mut sync, Reply::Found(Ok(found)));
    assert!(matches!(c, Command::DeleteModel { uuid } if uuid == MODEL_A));
    let c = reply(&mut sync, Reply::Deleted(Ok(())));
    assert!(matches!(c, Command::DeleteModel { uuid } if uuid == MODEL_B));
    let c = reply(&mut sync, Reply::Deleted(Ok(())));
    assert!(matches!(c, Command::Done(Ok(Outcome::Removed { count: 2 }))));
    assert!(matches!(sync.phase, Phase::Idle));
}

#[test]
fn delete_without_matches_succeeds() {
    let mut sync = ready();
    sync.on_event(SynchronizerEvent::Delete("/w/part.stl".to_string()));
    let c = reply(&mut sync, Reply::Found(Ok(Vec::new())));
    assert!(matches!(c, Command::Done(Ok(Outcome::Removed { count: 0 }))));
    assert!(matches!(sync.phase, Phase::Idle));
}

#[test]
fn failed_search_is_a_remote_error() {
    let mut sync = ready();
    sync.on_event(SynchronizerEvent::Delete("/w/part.stl".to_string()));
    let c = reply(&mut sync, Reply::Found(Err(failure())));
    assert!(matches!(c, Command::Done(Err(SynchronizerError::PcliError(_)))));
    assert!(matches!(sync.phase, Phase::Idle));
}

#[test]
fn failed_delete_does_not_stop_the_others() {
    let mut sync = ready();
    sync.on_event(SynchronizerEvent::Delete("/w/part.stl".to_string()));
    let found = vec![
        model(MODEL_A, "finished"),
        model(MODEL_B, "failed"),
        model(0x3333, "processing"),
    ];
    reply(&mut sync, Reply::Found(Ok(found)));
    let c = reply(&mut sync, Reply::Deleted(Err(failure())));
    assert!(matches!(c, Command::DeleteModel { uuid } if uuid == MODEL_B));
    let c = reply(&mut sync, Reply::Deleted(Ok(())));
    assert!(matches!(c, Command::DeleteModel { uuid } if uuid == 0x3333));
    let c = reply(&mut sync, Reply::Deleted(Ok(())));
    assert!(matches!(c, Command::Done(Err(SynchronizerError::PcliError(_)))));
    assert!(matches!(sync.phase, Phase::Idle));
}

#[test]
fn replies_out_of_turn_are_not_awaited() {
    let mut sync = ready();
    assert!(!sync.awaits(&Reply::Deleted(Ok(()))));
    sync.on_event(SynchronizerEvent::Create("/w/part.stl".to_string()));
    assert!(sync.awaits(&Reply::Uploaded(Ok(None))));
    assert!(!sync.awaits(&Reply::Found(Ok(Vec::new()))));
    assert!(!sync.awaits(&Reply::Paused { elapsed_millis: 0 }));
}

#[test]
fn configuration_file_sits_in_home() {
    match configuration_file(Some("/home/ana".to_string())) {
        Ok(file) => assert_eq!(file, "/home/ana/.pcli.conf"),
        Err(e) => panic!("unexpected {:?}", e),
    }
    assert!(matches!(configuration_file(None), Err(SynchronizerError::InvalidHomeDirectory)));
}

#[test]
fn polling_queries_until_settled() {
    let mut sync = ready();
    sync.on_event(SynchronizerEvent::Create("/w/part.stl".to_string()));
    let mut c = reply(&mut sync, Reply::Uploaded(Ok(Some(model(MODEL_A, "uploading")))));
    let mut answers = vec!["failed", "processing", "processing"];
    let mut elapsed: u64 = 0;
    let mut queries: u64 = 0;
    loop {
        c = match c {
            Command::Pause { millis } => {
                elapsed += millis;
                reply(&mut sync, Reply::Paused { elapsed_millis: elapsed })
            }
            Command::GetModel { uuid } => {
                assert_eq!(uuid, MODEL_A);
                queries += 1;
                let state = answers.pop().unwrap();
                reply(&mut sync, Reply::Model(Ok(model(MODEL_A, state))))
            }
            Command::Done(result) => {
                match result {
                    Ok(Outcome::Settled { uuid, state }) => {
                        assert_eq!(uuid, MODEL_A);
                        assert_eq!(state, "failed");
                    }
                    other => panic!("unexpected {:?}", other),
                }
                break;
            }
            other => panic!("unexpected {:?}", other),
        };
    }
    assert_eq!(queries, 3);
    assert!(answers.is_empty());
}
