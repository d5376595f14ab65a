use etcd_dump::decoder::DecodeError;
use etcd_dump::limits::LimitError;
use etcd_dump::run::{RunAction, RunError, RunEvent, RunStage, SnapshotRun};
use etcd_dump::task::{
    first_failure, plan_tasks, SnapshotTask, StoreError, TaskAction, TaskError, TaskEvent,
    TaskPhase,
};
use std::collections::BTreeMap;

fn b(s: &str) -> Vec<u8> {
    s.as_bytes().to_vec()
}

/// Drives one task against a store and a decoder given as maps, recording
/// each written file in `files`.
fn drive(
    mut task: SnapshotTask,
    store: &BTreeMap<Vec<u8>, Vec<u8>>,
    decoder: &BTreeMap<Vec<u8>, Result<Vec<u8>, DecodeError>>,
    files: &mut BTreeMap<Vec<u8>, Vec<u8>>,
) -> Result<(), TaskError> {
    let mut action = task.first_action();
    loop {
        let ev = match action {
            TaskAction::Get(k) => TaskEvent::Fetched(Ok(store.get(&k).cloned())),
            TaskAction::Decode(v) => TaskEvent::Decoded(decoder[&v].clone()),
            TaskAction::Write(p, c) => {
                files.insert(p, c);
                TaskEvent::Written(true)
            }
            TaskAction::Finish(r) => return r,
        };
        assert!(task.accepts(&ev));
        action = task.step(ev);
    }
}

fn run_all(
    root: &str,
    keys: &[&str],
    store: &BTreeMap<Vec<u8>, Vec<u8>>,
    decoder: &BTreeMap<Vec<u8>, Result<Vec<u8>, DecodeError>>,
) -> (Result<(), TaskError>, BTreeMap<Vec<u8>, Vec<u8>>) {
    let keys: Vec<Vec<u8>> = keys.iter().map(|k| b(k)).collect();
    let mut files = BTreeMap::new();
    let results: Vec<Result<(), TaskError>> = plan_tasks(&b(root), &keys)
        .into_iter()
        .map(|t| drive(t, store, decoder, &mut files))
        .collect();
    (first_failure(&results), files)
}

#[test]
fn two_keys_are_decoded_into_their_files() {
    let store = BTreeMap::from([(b("/a/b"), b("X")), (b("/c"), b("Y"))]);
    let decoder = BTreeMap::from([(b("X"), Ok(b("decoded-X"))), (b("Y"), Ok(b("decoded-Y")))]);
    let (r, files) = run_all("/tmp/out", &["/a/b", "/c"], &store, &decoder);
    assert_eq!(r, Ok(()));
    assert_eq!(files.len(), 2);
    assert_eq!(files[&b("/tmp/out/a/b")], b("decoded-X"));
    assert_eq!(files[&b("/tmp/out/c")], b("decoded-Y"));
}

#[test]
fn deleted_key_writes_nothing_and_succeeds() {
    let store = BTreeMap::from([(b("/c"), b("Y"))]);
    let decoder = BTreeMap::from([(b("Y"), Ok(b("decoded-Y")))]);
    let (r, files) = run_all("/tmp/out", &["/a/b", "/c"], &store, &decoder);
    assert_eq!(r, Ok(()));
    assert_eq!(files.len(), 1);
    assert!(!files.contains_key(&b("/tmp/out/a/b")));
}

#[test]
fn failed_decode_fails_the_run_without_its_file() {
    let store = BTreeMap::from([(b("/a"), b("X")), (b("/c"), b("Y"))]);
    let decoder = BTreeMap::from([
        (b("X"), Ok(b("decoded-X"))),
        (b("Y"), Err(DecodeError::ServiceError(500))),
    ]);
    let (r, files) = run_all("/o", &["/a", "/c"], &store, &decoder);
    assert_eq!(r, Err(TaskError::Decode(DecodeError::ServiceError(500))));
    assert!(!files.contains_key(&b("/o/c")));
    assert_eq!(files[&b("/o/a")], b("decoded-X"));
}

#[test]
fn task_store_and_write_failures() {
    let mut t = SnapshotTask::new(&b("/o"), &b("/k"));
    assert!(matches!(
        t.step(TaskEvent::Fetched(Err(StoreError::Unavailable))),
        TaskAction::Finish(Err(TaskError::Store(StoreError::Unavailable)))
    ));
    assert_eq!(t.phase, TaskPhase::Failed);

    let mut t = SnapshotTask::new(&b("/o"), &b("/k"));
    t.step(TaskEvent::Fetched(Ok(Some(b("v")))));
    match t.step(TaskEvent::Decoded(Ok(b("d")))) {
        TaskAction::Write(p, c) => {
            assert_eq!(p, b("/o/k"));
            assert_eq!(c, b("d"));
        }
        other => panic!("unexpected {:?}", other),
    }
    assert!(!t.accepts(&TaskEvent::Fetched(Ok(None))));
    assert!(matches!(
        t.step(TaskEvent::Written(false)),
        TaskAction::Finish(Err(TaskError::Filesystem))
    ));
}

#[test]
fn join_reports_first_failure_in_order() {
    let results = vec![
        Ok(()),
        Err(TaskError::Filesystem),
        Err(TaskError::Aborted),
    ];
    assert_eq!(first_failure(&results), Err(TaskError::Filesystem));
    assert_eq!(first_failure(&vec![Ok(()), Ok(())]), Ok(()));
    assert_eq!(first_failure(&Vec::new()), Ok(()));
}

fn step(run: &mut SnapshotRun, ev: RunEvent) -> RunAction {
    assert!(run.accepts(&ev));
    run.step(ev)
}

#[test]
fn empty_store_succeeds_and_stops_decoder() {
    let mut run = SnapshotRun::new(b("/tmp/out"));
    assert!(matches!(run.first_action(), RunAction::RaiseLimit));
    assert!(matches!(step(&mut run, RunEvent::LimitRaised(Ok(()))), RunAction::LaunchDecoder));
    assert!(matches!(step(&mut run, RunEvent::Launched(true)), RunAction::Connect));
    match step(&mut run, RunEvent::Connected(true)) {
        RunAction::ListKeys(p) => assert_eq!(p, b("/")),
        other => panic!("unexpected {:?}", other),
    }
    match step(&mut run, RunEvent::Listed(Ok(Vec::new()))) {
        RunAction::Spawn(tasks) => assert!(tasks.is_empty()),
        other => panic!("unexpected {:?}", other),
    }
    assert!(matches!(step(&mut run, RunEvent::Joined(Ok(()))), RunAction::StopDecoder));
    assert!(matches!(step(&mut run, RunEvent::Stopped), RunAction::Exit(Ok(()))));
    assert_eq!(run.stage, RunStage::Finished);
    assert!(!run.decoder_running);
}

#[test]
fn decoder_launch_failure_ends_before_connecting() {
    let mut run = SnapshotRun::new(b("/tmp/out"));
    step(&mut run, RunEvent::LimitRaised(Ok(())));
    assert!(matches!(
        step(&mut run, RunEvent::Launched(false)),
        RunAction::Exit(Err(RunError::DecoderLaunch))
    ));
    assert!(!run.accepts(&RunEvent::Connected(true)));
}

#[test]
fn limit_failure_ends_the_run() {
    let mut run = SnapshotRun::new(b("/o"));
    assert!(matches!(
        step(&mut run, RunEvent::LimitRaised(Err(LimitError::SetFailed))),
        RunAction::Exit(Err(RunError::Limit(LimitError::SetFailed)))
    ));
}

#[test]
fn store_failures_stop_the_decoder_first() {
    let mut run = SnapshotRun::new(b("/o"));
    step(&mut run, RunEvent::LimitRaised(Ok(())));
    step(&mut run, RunEvent::Launched(true));
    assert!(matches!(step(&mut run, RunEvent::Connected(false)), RunAction::StopDecoder));
    assert!(matches!(
        step(&mut run, RunEvent::Stopped),
        RunAction::Exit(Err(RunError::StoreConnect))
    ));

    let mut run = SnapshotRun::new(b("/o"));
    step(&mut run, RunEvent::LimitRaised(Ok(())));
    step(&mut run, RunEvent::Launched(true));
    step(&mut run, RunEvent::Connected(true));
    assert!(matches!(
        step(&mut run, RunEvent::Listed(Err(StoreError::KeyNotUtf8))),
        RunAction::StopDecoder
    ));
    assert!(matches!(
        step(&mut run, RunEvent::Stopped),
        RunAction::Exit(Err(RunError::Listing(StoreError::KeyNotUtf8)))
    ));
}

#[test]
fn task_failure_is_reported_after_stop() {
    let mut run = SnapshotRun::new(b("/o"));
    step(&mut run, RunEvent::LimitRaised(Ok(())));
    step(&mut run, RunEvent::Launched(true));
    step(&mut run, RunEvent::Connected(true));
    match step(&mut run, RunEvent::Listed(Ok(vec![b("/a/b"), b("/c")]))) {
        RunAction::Spawn(tasks) => {
            assert_eq!(tasks.len(), 2);
            assert_eq!(tasks[0].path, b("/o/a/b"));
            assert_eq!(tasks[1].key, b("/c"));
        }
        other => panic!("unexpected {:?}", other),
    }
    let failure = TaskError::Decode(DecodeError::ProtocolError);
    assert!(matches!(step(&mut run, RunEvent::Joined(Err(failure))), RunAction::StopDecoder));
    assert!(matches!(
        step(&mut run, RunEvent::Stopped),
        RunAction::Exit(Err(RunError::Task(TaskError::Decode(DecodeError::ProtocolError))))
    ));
}
