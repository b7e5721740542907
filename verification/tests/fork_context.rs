use spine_session::error::CodexErr;
use spine_session::config::SpineConfiguration;
use spine_session::fork_context::{
    checkpoint_spine_fork_context, project_spine_fork_context, AutoCompactWindow, ForkStep,
    HistoryReconstruction,
};
use spine_session::session_runtime::ReplayMode;
use spine_session::items::{
    ResponseItem, RolloutItem, SessionMetaItem, SpineSamplingStarted, TurnContextItem,
    WorldStateItem,
};

fn user_message(text: &str) -> ResponseItem {
    ResponseItem { role: "user".to_string(), content: text.to_string() }
}

fn meta(id: &str) -> RolloutItem {
    RolloutItem::SessionMeta(SessionMetaItem { thread_id: id.to_string(), cwd: "/w".to_string() })
}

fn window() -> AutoCompactWindow {
    AutoCompactWindow {
        window_number: 3,
        first_window_id: "w1".to_string(),
        previous_window_id: Some("w2".to_string()),
        window_id: "w3".to_string(),
    }
}

fn context_item() -> TurnContextItem {
    TurnContextItem { cwd: "/w".to_string(), model: "m".to_string() }
}

type Configuration = SpineConfiguration<String, Vec<String>>;

fn resolved() -> Configuration {
    Configuration::from_sdk("sdk".to_string(), |_: &String| Ok::<_, String>(vec![])).unwrap()
}

fn reconstruction() -> HistoryReconstruction {
    HistoryReconstruction {
        history: vec![user_message("rebuilt")],
        world_state_baseline: Some("{\"files\":1}".to_string()),
        reference_context_item: Some(context_item()),
    }
}

fn lineage() -> Vec<RolloutItem> {
    vec![meta("parent"), RolloutItem::Event("epoch".to_string())]
}

#[test]
fn a_native_fork_fails_before_any_replay() {
    // A pending configuration is never asked for its SDK on this path.
    let pending = Configuration::pending(None, "/w".to_string(), None, true);
    let step = project_spine_fork_context::<String, Vec<String>, u8>(
        "child",
        &pending,
        vec![meta("parent")],
        lineage(),
        reconstruction(),
        Ok(ReplayMode::Native),
    );
    match step {
        ForkStep::Done(result) => assert_eq!(
            result,
            Err(CodexErr::Fatal("Spine fork requires canonical history".to_string()))
        ),
        ForkStep::Replay(..) => panic!("a native fork replays nothing"),
    }
}

#[test]
fn an_unreadable_replay_mode_fails_the_fork() {
    let configuration = resolved();
    let step = project_spine_fork_context::<String, Vec<String>, u8>(
        "child",
        &configuration,
        vec![],
        lineage(),
        reconstruction(),
        Err("no epoch".to_string()),
    );
    match step {
        ForkStep::Done(result) => {
            assert_eq!(result, Err(CodexErr::Fatal("no epoch".to_string())))
        }
        ForkStep::Replay(..) => panic!("nothing to replay"),
    }
}

#[test]
fn projected_fork_replays_the_lineage_then_keeps_metadata_baseline_and_projection() {
    let configuration = resolved();
    let prefix = vec![
        meta("parent"),
        RolloutItem::ResponseItem(user_message("parent item")),
        RolloutItem::SpineSamplingStarted(SpineSamplingStarted { sdk_config: None }),
        meta("again"),
    ];
    let step = project_spine_fork_context(
        "child",
        &configuration,
        prefix,
        lineage(),
        reconstruction(),
        Ok(ReplayMode::Canonical(4u8)),
    );
    let ForkStep::Replay(replay, pending) = step else {
        panic!("a canonical fork replays");
    };
    assert_eq!(replay.thread_id, "child");
    assert_eq!(replay.sdk, "sdk");
    assert_eq!(replay.effective, lineage());
    assert_eq!(replay.history, vec![user_message("rebuilt")]);
    assert_eq!(replay.canonical, 4);
    let history =
        pending.complete(Ok(vec![user_message("p1"), user_message("p2")])).expect("projected");
    assert_eq!(
        history,
        vec![
            meta("parent"),
            meta("again"),
            RolloutItem::WorldState(WorldStateItem { object: "{\"files\":1}".to_string() }),
            RolloutItem::TurnContext(context_item()),
            RolloutItem::ResponseItem(user_message("p1")),
            RolloutItem::ResponseItem(user_message("p2")),
        ]
    );
}

#[test]
fn projected_fork_reports_the_coordinator_error() {
    let configuration = resolved();
    let step = project_spine_fork_context(
        "child",
        &configuration,
        vec![meta("p")],
        lineage(),
        reconstruction(),
        Ok(ReplayMode::Canonical(1u8)),
    );
    let ForkStep::Replay(_, pending) = step else {
        panic!("a canonical fork replays");
    };
    assert_eq!(
        pending.complete(Err("replay failed".to_string())),
        Err(CodexErr::Fatal("replay failed".to_string()))
    );
}

#[test]
fn fork_checkpoint_leaves_guardian_history_out() {
    let child_item = user_message("child-visible task");
    let reconstruction = HistoryReconstruction {
        history: vec![child_item.clone()],
        world_state_baseline: None,
        reference_context_item: None,
    };
    let history = checkpoint_spine_fork_context(vec![], reconstruction, window(), vec![]);
    let RolloutItem::Compacted(checkpoint) = &history[0] else {
        panic!("fork checkpoint");
    };
    assert_eq!(checkpoint.guardian_history, None);
    assert_eq!(checkpoint.replacement_history, Some(vec![child_item]));
}

#[test]
fn fork_checkpoint_follows_the_prefix_and_precedes_the_baseline() {
    let prefix = vec![meta("parent"), RolloutItem::ResponseItem(user_message("kept"))];
    let reconstruction = HistoryReconstruction {
        history: vec![user_message("child")],
        world_state_baseline: Some("{}".to_string()),
        reference_context_item: Some(context_item()),
    };
    let history = checkpoint_spine_fork_context(
        prefix.clone(),
        reconstruction,
        window(),
        vec!["server/a".to_string()],
    );
    assert_eq!(history.len(), 5);
    assert_eq!(history[..2], prefix[..]);
    let RolloutItem::Compacted(checkpoint) = &history[2] else {
        panic!("fork checkpoint");
    };
    assert_eq!(checkpoint.message, "");
    assert_eq!(checkpoint.window_number, Some(3));
    assert_eq!(checkpoint.first_window_id, Some("w1".to_string()));
    assert_eq!(checkpoint.previous_window_id, Some("w2".to_string()));
    assert_eq!(checkpoint.window_id, Some("w3".to_string()));
    assert_eq!(checkpoint.mcp_resource_origins, vec!["server/a".to_string()]);
    assert_eq!(checkpoint.compaction_response_id, None);
    assert_eq!(checkpoint.latest_token_usage_record, None);
    assert_eq!(history[3], RolloutItem::WorldState(WorldStateItem { object: "{}".to_string() }));
    assert_eq!(history[4], RolloutItem::TurnContext(context_item()));
}
