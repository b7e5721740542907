//! Fork context: the history a forked thread starts from.
//!
//! A projected fork needs canonical history: it asks for a fresh coordinator,
//! for the forked thread and with the session's resolved SDK, to replay the
//! parent's effective lineage, and keeps the parent's session metadata before
//! the coordinator's canonical projection. A checkpointed fork keeps the
//! parent's rollout prefix and appends a compaction checkpoint of the child's
//! own reconstructed history, without rewriting canonical Spine records and
//! without carrying the parent's guardian evidence into the child.
use crate::error::CodexErr;
use crate::config::SpineConfiguration;
use crate::items::{CompactedItem, ResponseItem, RolloutItem, TurnContextItem, WorldStateItem};
use crate::session_runtime::ReplayMode;
use vstd::prelude::*;
use vstd::string::*;

verus! {

/// History rebuilt from a rollout.
#[derive(Clone, Debug, PartialEq, Eq)]
pub struct HistoryReconstruction {
    /// The model items of the rebuilt history.
    pub history: Vec<ResponseItem>,
    /// The full world-state snapshot that the history starts from, if any.
    pub world_state_baseline: Option<String>,
    /// The turn context that the history refers to, if any.
    pub reference_context_item: Option<TurnContextItem>,
}

/// The canonical replay that a projected fork asks for: a fresh coordinator
/// for `thread_id`, built with `sdk`, replays the `effective` lineage onto
/// `history` with the `canonical` records, and answers with its projection.
#[derive(Debug)]
pub struct ForkReplay<'a, S, R> {
    pub thread_id: String,
    pub sdk: &'a S,
    pub effective: Vec<RolloutItem>,
    pub history: Vec<ResponseItem>,
    pub canonical: R,
}

/// A projected fork waiting for its canonical replay.
#[derive(Debug)]
pub struct ForkProjection {
    prefix: Vec<RolloutItem>,
    world_state_baseline: Option<String>,
    reference_context_item: Option<TurnContextItem>,
}

/// What a projected fork does next.
#[derive(Debug)]
pub enum ForkStep<'a, S, R> {
    /// Make this replay, then complete the projection with its answer.
    Replay(ForkReplay<'a, S, R>, ForkProjection),
    /// The fork is over.
    Done(Result<Vec<RolloutItem>, CodexErr>),
}

/// The auto-compact window that a checkpoint opens.
#[derive(Clone, Debug, PartialEq, Eq)]
pub struct AutoCompactWindow {
    pub window_number: u64,
    pub first_window_id: String,
    pub previous_window_id: Option<String>,
    pub window_id: String,
}

/// The message of a fork whose history is not canonical.
pub open spec fn non_canonical_fork_message() -> Seq<char> {
    "Spine fork requires canonical history"@
}

/// Whether a rollout record is session metadata.
pub open spec fn is_session_meta(item: RolloutItem) -> bool {
    item is SessionMeta
}

/// The records that restore a reconstruction's baseline: its world-state
/// snapshot, then its turn context, each where there is one.
pub open spec fn baseline_records(
    world_state_baseline: Option<String>,
    reference_context_item: Option<TurnContextItem>,
) -> Seq<RolloutItem> {
    (match world_state_baseline {
        Some(object) => seq![RolloutItem::WorldState(WorldStateItem { object })],
        None => Seq::empty(),
    }) + (match reference_context_item {
        Some(context) => seq![RolloutItem::TurnContext(context)],
        None => Seq::empty(),
    })
}

/// Model items as rollout records.
pub open spec fn response_records(items: Seq<ResponseItem>) -> Seq<RolloutItem> {
    items.map_values(|item: ResponseItem| RolloutItem::ResponseItem(item))
}

/// The history of a projected fork.
pub open spec fn fork_projection(
    prefix: Seq<RolloutItem>,
    world_state_baseline: Option<String>,
    reference_context_item: Option<TurnContextItem>,
    projected: Seq<ResponseItem>,
) -> Seq<RolloutItem> {
    prefix.filter(|item: RolloutItem| is_session_meta(item)) + baseline_records(
        world_state_baseline,
        reference_context_item,
    ) + response_records(projected)
}

/// The compaction checkpoint of a fork: the child's reconstructed history
/// replaces everything before it; the parent's guardian history stays behind.
pub open spec fn is_fork_checkpoint(
    checkpoint: CompactedItem,
    history: Vec<ResponseItem>,
    window: AutoCompactWindow,
    mcp_resource_origins: Vec<String>,
) -> bool {
    &&& checkpoint.message@ == Seq::<char>::empty()
    &&& checkpoint.replacement_history == Some(history)
    &&& checkpoint.guardian_history is None
    &&& checkpoint.mcp_resource_origins == mcp_resource_origins
    &&& checkpoint.window_number == Some(window.window_number)
    &&& checkpoint.first_window_id == Some(window.first_window_id)
    &&& checkpoint.previous_window_id == window.previous_window_id
    &&& checkpoint.window_id == Some(window.window_id)
    &&& checkpoint.compaction_response_id is None
    &&& checkpoint.latest_token_usage_record is None
}

/// Appends the records that restore a reconstruction's baseline.
fn push_baseline(
    history: &mut Vec<RolloutItem>,
    world_state_baseline: Option<String>,
    reference_context_item: Option<TurnContextItem>,
)
    ensures
        final(history)@ == old(history)@ + baseline_records(
            world_state_baseline,
            reference_context_item,
        ),
{
    let ghost start = history@;
    if let Some(snapshot) = world_state_baseline {
        history.push(RolloutItem::WorldState(WorldStateItem::full(snapshot)));
    }
    if let Some(context) = reference_context_item {
        history.push(RolloutItem::TurnContext(context));
    }
    assert(history@ =~= start + baseline_records(world_state_baseline, reference_context_item));
}

/// Starts projecting the history of a fork of `thread_id` from the parent's
/// rollout `prefix`, whose effective lineage is `effective`, whose
/// reconstruction is `reconstruction` and whose replay mode is `mode`.
/// A mode that could not be read, or native history, ends the fork with a
/// fatal error before any coordinator is built; canonical history asks for
/// the canonical replay.
pub fn project_spine_fork_context<'a, S, T, R>(
    thread_id: &str,
    configuration: &'a SpineConfiguration<S, T>,
    prefix: Vec<RolloutItem>,
    effective: Vec<RolloutItem>,
    reconstruction: HistoryReconstruction,
    mode: Result<ReplayMode<R>, String>,
) -> (step: ForkStep<'a, S, R>)
    requires
        mode matches Ok(ReplayMode::Canonical(_)) ==> configuration.is_resolved(),
    ensures
        match mode {
            Err(error) => step == ForkStep::<'a, S, R>::Done(Err(CodexErr::Fatal(error))),
            Ok(ReplayMode::Native) => step matches ForkStep::Done(Err(CodexErr::Fatal(message)))
                && message@ == non_canonical_fork_message(),
            Ok(ReplayMode::Canonical(canonical)) => step matches ForkStep::Replay(replay, pending)
                && replay.thread_id@ == thread_id@ && *replay.sdk == configuration.resolved_sdk()
                && replay.effective == effective && replay.history == reconstruction.history
                && replay.canonical == canonical && pending.prefix() == prefix
                && pending.world_state_baseline() == reconstruction.world_state_baseline
                && pending.reference_context_item() == reconstruction.reference_context_item,
        },
{
    match mode {
        Err(error) => ForkStep::Done(Err(CodexErr::Fatal(error))),
        Ok(ReplayMode::Native) => ForkStep::Done(
            Err(CodexErr::Fatal(String::from_str("Spine fork requires canonical history"))),
        ),
        Ok(ReplayMode::Canonical(canonical)) => {
            let replay = ForkReplay {
                thread_id: thread_id.to_owned(),
                sdk: configuration.sdk(),
                effective,
                history: reconstruction.history,
                canonical,
            };
            let pending = ForkProjection {
                prefix,
                world_state_baseline: reconstruction.world_state_baseline,
                reference_context_item: reconstruction.reference_context_item,
            };
            ForkStep::Replay(replay, pending)
        },
    }
}

impl ForkProjection {
    /// The parent's rollout prefix.
    pub closed spec fn prefix(&self) -> Vec<RolloutItem> {
        self.prefix
    }

    /// The world-state baseline of the reconstruction.
    pub closed spec fn world_state_baseline(&self) -> Option<String> {
        self.world_state_baseline
    }

    /// The turn context of the reconstruction.
    pub closed spec fn reference_context_item(&self) -> Option<TurnContextItem> {
        self.reference_context_item
    }

    /// Completes the fork with the answer of its canonical replay: the error
    /// of building the coordinator or of replaying into it, or the projected
    /// context. The history is the parent's session metadata, the baseline of
    /// the reconstruction, then the projection.
    pub fn complete(self, projection: Result<Vec<ResponseItem>, String>) -> (history: Result<
        Vec<RolloutItem>,
        CodexErr,
    >)
        ensures
            match projection {
                Err(error) => history == Err::<Vec<RolloutItem>, CodexErr>(CodexErr::Fatal(error)),
                Ok(projected) => history matches Ok(h) && h@ == fork_projection(
                    self.prefix()@,
                    self.world_state_baseline(),
                    self.reference_context_item(),
                    projected@,
                ),
            },
    {
        let projected = match projection {
            Err(error) => {
                return Err(CodexErr::Fatal(error));
            },
            Ok(projected) => projected,
        };
        let ForkProjection { prefix, world_state_baseline, reference_context_item } = self;
        let ghost whole = prefix@;
        let ghost keep = |item: RolloutItem| is_session_meta(item);
        let mut history: Vec<RolloutItem> = Vec::new();
        proof {
            reveal(Seq::filter);
            assert(whole.take(0).filter(keep) =~= Seq::<RolloutItem>::empty());
        }
        for item in iter: prefix.into_iter()
            invariant
                iter.seq() == whole,
                keep == (|item: RolloutItem| is_session_meta(item)),
                history@ == whole.take(iter.index()).filter(keep),
        {
            let ghost i = iter.index();
            let ghost next = whole.take(i + 1);
            assert(next.drop_last() =~= whole.take(i));
            if item.is_session_meta() {
                history.push(item);
            }
            proof {
                reveal(Seq::filter);
                assert(history@ == next.filter(keep));
            }
        }
        assert(whole.take(whole.len() as int) =~= whole);
        push_baseline(&mut history, world_state_baseline, reference_context_item);
        let ghost with_baseline = history@;
        for item in iter: projected.into_iter()
            invariant
                iter.seq() == projected@,
                history@ == with_baseline + response_records(projected@.take(iter.index())),
        {
            history.push(RolloutItem::ResponseItem(item));
        }
        Ok(history)
    }
}

/// The history of a forked thread checkpointed from the parent's rollout
/// `prefix`: the prefix, a compaction checkpoint whose replacement history is
/// the child's reconstructed history, then the reconstruction's baseline.
pub fn checkpoint_spine_fork_context(
    prefix: Vec<RolloutItem>,
    reconstruction: HistoryReconstruction,
    window: AutoCompactWindow,
    mcp_resource_origins: Vec<String>,
) -> (history: Vec<RolloutItem>)
    ensures
        history@.len() == prefix@.len() + 1 + baseline_records(
            reconstruction.world_state_baseline,
            reconstruction.reference_context_item,
        ).len(),
        history@.subrange(0, prefix@.len() as int) == prefix@,
        history@[prefix@.len() as int] matches RolloutItem::Compacted(checkpoint)
            && is_fork_checkpoint(checkpoint, reconstruction.history, window, mcp_resource_origins),
        history@.skip(prefix@.len() as int + 1) == baseline_records(
            reconstruction.world_state_baseline,
            reconstruction.reference_context_item,
        ),
{
    let ghost start = prefix@;
    let mut history = prefix;
    history.push(
        RolloutItem::Compacted(
            CompactedItem {
                message: String::new(),
                replacement_history: Some(reconstruction.history),
                guardian_history: None,
                mcp_resource_origins,
                window_number: Some(window.window_number),
                first_window_id: Some(window.first_window_id),
                previous_window_id: window.previous_window_id,
                window_id: Some(window.window_id),
                compaction_response_id: None,
                latest_token_usage_record: None,
            },
        ),
    );
    let ghost with_checkpoint = history@;
    push_baseline(
        &mut history,
        reconstruction.world_state_baseline,
        reconstruction.reference_context_item,
    );
    assert(history@.subrange(0, start.len() as int) =~= start);
    assert(history@.skip(start.len() as int + 1) =~= baseline_records(
        reconstruction.world_state_baseline,
        reconstruction.reference_context_item,
    ));
    history
}

/// Of the parent's records, a projected fork keeps session metadata only:
/// every record of its history is session metadata, the reconstruction's
/// baseline, or a model item of the projection.
pub proof fn lemma_projected_fork_keeps_only_session_metadata(
    prefix: Seq<RolloutItem>,
    world_state_baseline: Option<String>,
    reference_context_item: Option<TurnContextItem>,
    projected: Seq<ResponseItem>,
)
    ensures
        forall|i: int|
            0 <= i < fork_projection(
                prefix,
                world_state_baseline,
                reference_context_item,
                projected,
            ).len() ==> {
                let item = #[trigger] fork_projection(
                    prefix,
                    world_state_baseline,
                    reference_context_item,
                    projected,
                )[i];
                item is SessionMeta || item is WorldState || item is TurnContext
                    || item is ResponseItem
            },
{
    let keep = |item: RolloutItem| is_session_meta(item);
    let metas = prefix.filter(keep);
    let baseline = baseline_records(world_state_baseline, reference_context_item);
    let whole = fork_projection(prefix, world_state_baseline, reference_context_item, projected);
    assert forall|i: int| 0 <= i < whole.len() implies {
        let item = #[trigger] whole[i];
        item is SessionMeta || item is WorldState || item is TurnContext || item is ResponseItem
    } by {
        if i < metas.len() {
            prefix.lemma_filter_pred(keep, i);
            assert(whole[i] == metas[i]);
        } else if i < metas.len() + baseline.len() {
            assert(whole[i] == baseline[i - metas.len()]);
        } else {
            assert(whole[i] == response_records(projected)[i - metas.len() - baseline.len()]);
        }
    }
}

/// A fork checkpoint carries none of the parent's guardian history, and its
/// replacement history is exactly the child's reconstructed history.
pub proof fn lemma_fork_checkpoint_keeps_guardian_evidence_local(
    checkpoint: CompactedItem,
    history: Vec<ResponseItem>,
    window: AutoCompactWindow,
    mcp_resource_origins: Vec<String>,
)
    requires
        is_fork_checkpoint(checkpoint, history, window, mcp_resource_origins),
    ensures
        checkpoint.guardian_history is None,
        checkpoint.replacement_history matches Some(replacement) && replacement@ == history@,
{
}

/// The records that restore a baseline are a world-state record exactly when
/// there is a world-state snapshot, followed by a turn-context record exactly
/// when there is a reference turn context; each is present independently of
/// the other.
pub proof fn lemma_baseline_records_restore_each_part(
    world_state_baseline: Option<String>,
    reference_context_item: Option<TurnContextItem>,
)
    ensures
        ({
            let records = baseline_records(world_state_baseline, reference_context_item);
            &&& records.len() == (if world_state_baseline is Some { 1int } else { 0 }) + (
            if reference_context_item is Some { 1int } else { 0 })
            &&& world_state_baseline matches Some(object) ==> records[0] == RolloutItem::WorldState(
                WorldStateItem { object },
            )
            &&& reference_context_item matches Some(context) ==> records[records.len() - 1]
                == RolloutItem::TurnContext(context)
            &&& forall|i: int|
                0 <= i < records.len() ==> (#[trigger] records[i] is WorldState
                    || records[i] is TurnContext)
        }),
{
}

/// A projected fork keeps, of the parent's prefix, exactly its session
/// metadata: every session record of the fork comes from the prefix and every
/// session record of the prefix is in the fork; its only world-state and
/// turn-context records are those of the reconstruction's baseline, which are
/// there whenever the reconstruction has them; and its model items are those
/// of the projection.
pub proof fn lemma_projected_fork_is_metadata_baseline_and_projection(
    prefix: Seq<RolloutItem>,
    world_state_baseline: Option<String>,
    reference_context_item: Option<TurnContextItem>,
    projected: Seq<ResponseItem>,
)
    ensures
        ({
            let history = fork_projection(
                prefix,
                world_state_baseline,
                reference_context_item,
                projected,
            );
            &&& forall|i: int|
                0 <= i < history.len() && (#[trigger] history[i]) is SessionMeta
                    ==> prefix.contains(history[i])
            &&& forall|j: int|
                0 <= j < prefix.len() && (#[trigger] prefix[j]) is SessionMeta
                    ==> history.contains(prefix[j])
            &&& forall|i: int|
                0 <= i < history.len() && (#[trigger] history[i]) is TurnContext
                    ==> reference_context_item == Some(history[i]->TurnContext_0)
            &&& forall|i: int|
                0 <= i < history.len() && (#[trigger] history[i]) is WorldState
                    ==> world_state_baseline == Some(history[i]->WorldState_0.object)
            &&& forall|i: int|
                0 <= i < history.len() && (#[trigger] history[i]) is ResponseItem
                    ==> projected.contains(history[i]->ResponseItem_0)
            &&& forall|i: int|
                0 <= i < history.len() ==> {
                    let item = #[trigger] history[i];
                    item is SessionMeta || item is WorldState || item is TurnContext
                        || item is ResponseItem
                }
            &&& reference_context_item matches Some(context) ==> history.contains(
                RolloutItem::TurnContext(context),
            )
            &&& world_state_baseline matches Some(object) ==> history.contains(
                RolloutItem::WorldState(WorldStateItem { object }),
            )
        }),
{
    let keep = |item: RolloutItem| is_session_meta(item);
    let metas = prefix.filter(keep);
    let baseline = baseline_records(world_state_baseline, reference_context_item);
    let responses = response_records(projected);
    let history = fork_projection(prefix, world_state_baseline, reference_context_item, projected);
    lemma_baseline_records_restore_each_part(world_state_baseline, reference_context_item);
    assert(history == metas + baseline + responses);
    assert forall|i: int| 0 <= i < history.len() implies {
        let item = #[trigger] history[i];
        &&& item is SessionMeta ==> prefix.contains(item)
        &&& item is TurnContext ==> reference_context_item == Some(item->TurnContext_0)
        &&& item is WorldState ==> world_state_baseline == Some(item->WorldState_0.object)
        &&& item is ResponseItem ==> projected.contains(item->ResponseItem_0)
        &&& item is SessionMeta || item is WorldState || item is TurnContext
            || item is ResponseItem
    } by {
        if i < metas.len() {
            prefix.lemma_filter_pred(keep, i);
            assert(history[i] == metas[i]);
            assert(metas.contains(metas[i]));
            prefix.lemma_filter_contains_rev(keep, metas[i]);
        } else if i < metas.len() + baseline.len() {
            let k = i - metas.len();
            assert(history[i] == baseline[k]);
            if world_state_baseline is Some && k == 0 {
            } else if world_state_baseline is Some {
                assert(k == 1);
            } else {
                assert(k == 0);
            }
        } else {
            let k = i - metas.len() - baseline.len();
            assert(history[i] == responses[k]);
            assert(responses[k] == RolloutItem::ResponseItem(projected[k]));
            assert(projected.contains(projected[k]));
        }
    }
    assert forall|j: int|
        0 <= j < prefix.len() && (#[trigger] prefix[j]) is SessionMeta implies history.contains(
        prefix[j],
    ) by {
        prefix.lemma_filter_contains(keep, j);
        let k = choose|k: int| 0 <= k < metas.len() && metas[k] == prefix[j];
        assert(history[k] == metas[k]);
    }
    if let Some(context) = reference_context_item {
        let k = metas.len() + baseline.len() - 1;
        assert(history[k] == baseline[baseline.len() - 1]);
    }
    if let Some(object) = world_state_baseline {
        assert(history[metas.len() as int] == baseline[0]);
    }
}

} // verus!
