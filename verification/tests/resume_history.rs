use spine_session::config::{CodexFeature, ManagedFeatures};
use spine_session::error::{CodexErr, ThreadStoreError};
use spine_session::items::RolloutItem;
use spine_session::resume_history::{
    HistoryRead, HistoryReply, ResumeHistoryLoad, ResumeStep, ResumedHistory, StoredThread,
    ThreadHistoryMode,
};

fn thread(mode: ThreadHistoryMode, path: Option<&str>) -> StoredThread {
    StoredThread {
        thread_id: "t-1".to_string(),
        history_mode: mode,
        rollout_path: path.map(|p| p.to_string()),
    }
}

fn items(label: &str) -> Vec<RolloutItem> {
    vec![RolloutItem::Event(label.to_string())]
}

fn jit(on: bool) -> ManagedFeatures {
    let mut features = ManagedFeatures::none();
    if on {
        features.enable(CodexFeature::SpineJit);
    }
    features
}

#[test]
fn legacy_thread_with_rollout_path_reads_by_path() {
    let (mut load, read) =
        ResumeHistoryLoad::start(thread(ThreadHistoryMode::Legacy, Some("/r.jsonl")), &jit(true));
    assert_eq!(
        read,
        HistoryRead::ThreadByRolloutPath {
            rollout_path: "/r.jsonl".to_string(),
            include_archived: true,
            include_history: true,
        }
    );
    let step = load.step(HistoryReply::ThreadByRolloutPath(Ok(Some(items("persisted")))));
    assert_eq!(
        step,
        ResumeStep::Done(Ok(ResumedHistory {
            conversation_id: "t-1".to_string(),
            history: items("persisted"),
            spine_history: None,
            rollout_path: Some("/r.jsonl".to_string()),
        }))
    );
}

#[test]
fn legacy_thread_without_path_reads_by_id() {
    let (_, read) = ResumeHistoryLoad::start(thread(ThreadHistoryMode::Legacy, None), &jit(false));
    assert_eq!(
        read,
        HistoryRead::StoredThread {
            thread_id: "t-1".to_string(),
            include_archived: true,
            include_history: true,
        }
    );
}

#[test]
fn legacy_thread_without_history_is_fatal() {
    let (mut load, _) = ResumeHistoryLoad::start(thread(ThreadHistoryMode::Legacy, None), &jit(true));
    assert_eq!(
        load.step(HistoryReply::StoredThread(Ok(None))),
        ResumeStep::Done(Err(CodexErr::Fatal(
            "thread t-1 did not include persisted history".to_string()
        )))
    );
}

fn store_error() -> ThreadStoreError {
    ThreadStoreError { message: "missing rollout".to_string() }
}

#[test]
fn failed_rollout_reads_become_rollout_read_errors() {
    let (mut load, _) =
        ResumeHistoryLoad::start(thread(ThreadHistoryMode::Legacy, Some("/r")), &jit(true));
    assert_eq!(
        load.step(HistoryReply::ThreadByRolloutPath(Err(store_error()))),
        ResumeStep::Done(Err(CodexErr::RolloutRead(store_error())))
    );
    let (mut load, _) =
        ResumeHistoryLoad::start(thread(ThreadHistoryMode::Paginated, None), &jit(true));
    let step = load.step(HistoryReply::ModelContext(Ok(items("context"))));
    assert!(matches!(step, ResumeStep::Read(HistoryRead::CompleteHistory { .. })));
    assert_eq!(
        load.step(HistoryReply::CompleteHistory(Err(store_error()))),
        ResumeStep::Done(Err(CodexErr::RolloutRead(store_error())))
    );
}

#[test]
fn other_read_errors_pass_through() {
    let error = CodexErr::ThreadNotFound("t-1".to_string());
    let (mut load, _) = ResumeHistoryLoad::start(thread(ThreadHistoryMode::Legacy, None), &jit(true));
    assert_eq!(
        load.step(HistoryReply::StoredThread(Err(error.clone()))),
        ResumeStep::Done(Err(error.clone()))
    );
    let (mut load, _) =
        ResumeHistoryLoad::start(thread(ThreadHistoryMode::Paginated, None), &jit(true));
    assert_eq!(
        load.step(HistoryReply::ModelContext(Err(error.clone()))),
        ResumeStep::Done(Err(error))
    );
}

#[test]
fn legacy_thread_at_a_path_without_history_is_fatal() {
    let (mut load, _) =
        ResumeHistoryLoad::start(thread(ThreadHistoryMode::Legacy, Some("/r")), &jit(false));
    assert_eq!(
        load.step(HistoryReply::ThreadByRolloutPath(Ok(None))),
        ResumeStep::Done(Err(CodexErr::Fatal(
            "thread t-1 did not include persisted history".to_string()
        )))
    );
}

#[test]
fn paginated_resume_stays_bounded_when_jit_is_off() {
    let (mut load, read) =
        ResumeHistoryLoad::start(thread(ThreadHistoryMode::Paginated, Some("/p")), &jit(false));
    assert_eq!(
        read,
        HistoryRead::LatestModelContext { thread_id: "t-1".to_string(), include_archived: true }
    );
    assert_eq!(
        load.step(HistoryReply::ModelContext(Ok(items("context")))),
        ResumeStep::Done(Ok(ResumedHistory {
            conversation_id: "t-1".to_string(),
            history: items("context"),
            spine_history: None,
            rollout_path: Some("/p".to_string()),
        }))
    );
}

#[test]
fn paginated_resume_loads_the_spine_lineage_when_jit_is_on() {
    let (mut load, _) =
        ResumeHistoryLoad::start(thread(ThreadHistoryMode::Paginated, None), &jit(true));
    assert_eq!(
        load.step(HistoryReply::ModelContext(Ok(items("context")))),
        ResumeStep::Read(HistoryRead::CompleteHistory {
            thread_id: "t-1".to_string(),
            include_archived: true,
        })
    );
    assert_eq!(
        load.step(HistoryReply::CompleteHistory(Ok(items("complete")))),
        ResumeStep::Done(Ok(ResumedHistory {
            conversation_id: "t-1".to_string(),
            history: items("context"),
            spine_history: Some(items("complete")),
            rollout_path: None,
        }))
    );
}
