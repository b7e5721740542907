//! The Spine runtime of one session: the model context that the session shows
//! the model, kept in step with the session's shared Spine coordinator.
//!
//! The coordinator is shared with the rest of the session and may be absent.
//! The session hands each operation a closure that reaches the shared
//! coordinator (answering `None` when it is absent); the operation calls it
//! once, with the inputs its contract names, settles from the answer, and says
//! which call, if any, the session must address to the coordinator next: a
//! refused operation always latches a durability fault carrying the same
//! reason that the operation reports.
use crate::context::ContextManager;
use crate::items::{clone_items, ResponseItem, RolloutItem};
use vstd::prelude::*;
use vstd::string::*;

verus! {

/// Whether Spine runs for this session.
#[derive(Clone, Copy, Debug, PartialEq, Eq)]
pub struct SpineSessionConfig {
    pub enabled: bool,
}

impl SpineSessionConfig {
    pub fn enabled(&self) -> (enabled: bool)
        ensures
            enabled == self.enabled,
    {
        self.enabled
    }
}

/// A token-count observation reported by the model provider.
#[derive(Clone, Copy, Debug, PartialEq, Eq)]
pub struct TokenCountEvent {
    pub input_tokens: u64,
    pub output_tokens: u64,
}

/// A call that the session addresses to its shared coordinator.
#[derive(Clone, Debug, PartialEq, Eq)]
pub enum CoordinatorCall {
    /// Record the provider's token count.
    ObserveTokenCount(TokenCountEvent),
    /// Latch a durability fault with this reason.
    LatchDurabilityFault(String),
    /// Publish the canonical compact that the coordinator holds.
    PublishCanonicalCompact,
}

/// A call that settles a replay (`I`: the record a canonical replay
/// installs).
#[derive(Clone, Debug, PartialEq, Eq)]
pub enum ReplayCall<I> {
    /// Latch a durability fault with this reason.
    LatchDurabilityFault(String),
    /// Publish the sampling boundary of this installed canonical replay.
    PublishCanonicalSampling(I),
}

/// How a rollout is replayed: natively, or from its canonical Spine records
/// (`R`: the thread and records that a canonical replay consumes).
#[derive(Clone, Debug, PartialEq, Eq)]
pub enum ReplayMode<R> {
    Native,
    Canonical(R),
}

/// What the coordinator answered to a replay of a rollout.
#[derive(Clone, Debug, PartialEq, Eq)]
pub enum ReplayOutcome<I> {
    /// The rollout's canonical metadata could not be read; the payload is the
    /// reader's error.
    InvalidMetadata(String),
    /// A rollout without canonical records: the coordinator's observation of
    /// the raw history, or `None` when no coordinator is attached.
    Native(Option<Result<Vec<ResponseItem>, String>>),
    /// A canonical rollout: the record the coordinator installed by replaying
    /// its records, with the context of that record, or `None` when no
    /// coordinator is attached.
    Canonical(Option<Result<(I, Vec<ResponseItem>), String>>),
}

/// The message of a canonical replay that found no coordinator.
pub open spec fn unavailable_during_replay() -> Seq<char> {
    "Spine coordinator is unavailable during replay"@
}

/// The message of a replay whose rollout metadata could not be read.
pub open spec fn invalid_metadata_message(error: Seq<char>) -> Seq<char> {
    "invalid canonical Spine rollout metadata: "@ + error
}

/// How an append settles, given the coordinator's observation of the items.
pub open spec fn append_settles(
    before: Seq<ResponseItem>,
    observed: Option<Result<Vec<ResponseItem>, String>>,
    after: Seq<ResponseItem>,
    result: Result<(), String>,
    call: Option<CoordinatorCall>,
) -> bool {
    match observed {
        None => result is Ok && call is None && after == before,
        Some(Ok(context)) => result is Ok && call is None && after == context@,
        Some(Err(reason)) => {
            &&& result == Err::<(), String>(reason)
            &&& call == Some(CoordinatorCall::LatchDurabilityFault(reason))
            &&& after == before
        },
    }
}

/// How a live compaction settles, given the coordinator's answer.
pub open spec fn compact_settles(
    before: Seq<ResponseItem>,
    replacement: Seq<ResponseItem>,
    compacted: Option<Result<(), String>>,
    after: Seq<ResponseItem>,
    result: Result<(), String>,
    call: Option<CoordinatorCall>,
) -> bool {
    match compacted {
        None => result is Ok && call is None && after == before,
        Some(Ok(())) => result is Ok && call is None && after == replacement,
        Some(Err(reason)) => {
            &&& result == Err::<(), String>(reason)
            &&& call == Some(CoordinatorCall::LatchDurabilityFault(reason))
            &&& after == before
        },
    }
}

/// How a replay settles, given what the coordinator answered.
pub open spec fn replay_settles<I>(
    before: Seq<ResponseItem>,
    outcome: ReplayOutcome<I>,
    after: Seq<ResponseItem>,
    result: Result<(), String>,
    call: Option<ReplayCall<I>>,
) -> bool {
    match outcome {
        ReplayOutcome::InvalidMetadata(error) => {
            &&& result matches Err(reason) && reason@ == invalid_metadata_message(error@)
            &&& call matches Some(ReplayCall::LatchDurabilityFault(latched))
                && latched@ == invalid_metadata_message(error@)
            &&& after == before
        },
        ReplayOutcome::Native(None) => result is Ok && call is None && after == before,
        ReplayOutcome::Native(Some(Ok(context))) => result is Ok && call is None && after
            == context@,
        ReplayOutcome::Native(Some(Err(reason))) => {
            &&& result == Err::<(), String>(reason)
            &&& call == Some(ReplayCall::<I>::LatchDurabilityFault(reason))
            &&& after == before
        },
        ReplayOutcome::Canonical(None) => {
            &&& result matches Err(reason) && reason@ == unavailable_during_replay()
            &&& call is None
            &&& after == before
        },
        ReplayOutcome::Canonical(Some(Ok((installed, context)))) => {
            &&& result is Ok
            &&& call == Some(ReplayCall::PublishCanonicalSampling(installed))
            &&& after == context@
        },
        ReplayOutcome::Canonical(Some(Err(reason))) => {
            &&& result == Err::<(), String>(reason)
            &&& call == Some(ReplayCall::<I>::LatchDurabilityFault(reason))
            &&& after == before
        },
    }
}

/// The Spine state of a session: its model context and its handle on the
/// shared coordinator.
#[derive(Debug)]
pub struct SessionSpineRuntime<C> {
    model_context: ContextManager,
    coordinator: C,
}

impl<C> View for SessionSpineRuntime<C> {
    type V = Seq<ResponseItem>;

    /// The model context.
    closed spec fn view(&self) -> Seq<ResponseItem> {
        self.model_context@
    }
}

impl<C> SessionSpineRuntime<C> {
    /// The handle on the shared coordinator.
    pub closed spec fn shared_coordinator(&self) -> C {
        self.coordinator
    }

    /// A runtime with an empty model context, when Spine is enabled for the
    /// session.
    pub fn new(configuration: &SpineSessionConfig, coordinator: C) -> (runtime: Option<Self>)
        ensures
            configuration.enabled ==> (runtime matches Some(r) && r@ == Seq::<ResponseItem>::empty()
                && r.shared_coordinator() == coordinator),
            !configuration.enabled ==> runtime is None,
    {
        if configuration.enabled() {
            Some(SessionSpineRuntime { model_context: ContextManager::new(), coordinator })
        } else {
            None
        }
    }

    /// The handle on the shared coordinator.
    pub fn coordinator(&self) -> (coordinator: &C)
        ensures
            *coordinator == self.shared_coordinator(),
    {
        &self.coordinator
    }

    /// Appends response items: the coordinator observes exactly `items`,
    /// once, and the append settles from its observation.
    pub fn append_response_items<F>(
        &mut self,
        items: &[ResponseItem],
        observe: F,
    ) -> (settled: (Result<(), String>, Option<CoordinatorCall>)) where
        F: FnOnce(&[ResponseItem]) -> Option<Result<Vec<ResponseItem>, String>>,

        requires
            call_requires(observe, (items,)),
        ensures
            final(self).shared_coordinator() == old(self).shared_coordinator(),
            exists|observed: Option<Result<Vec<ResponseItem>, String>>|
                #[trigger] call_ensures(observe, (items,), observed) && append_settles(
                    old(self)@,
                    observed,
                    final(self)@,
                    settled.0,
                    settled.1,
                ),
    {
        let observed = observe(items);
        self.settle_observation(observed)
    }

    fn settle_observation(&mut self, observed: Option<Result<Vec<ResponseItem>, String>>) -> (settled: (
        Result<(), String>,
        Option<CoordinatorCall>,
    ))
        ensures
            final(self).shared_coordinator() == old(self).shared_coordinator(),
            append_settles(old(self)@, observed, final(self)@, settled.0, settled.1),
    {
        match observed {
            Some(Ok(context)) => {
                self.model_context.replace(context);
                (Ok(()), None)
            },
            Some(Err(reason)) => {
                let latched = reason.clone();
                (Err(reason), Some(CoordinatorCall::LatchDurabilityFault(latched)))
            },
            None => (Ok(()), None),
        }
    }

    /// A copy of the model context.
    pub fn model_context(&self) -> (context: ContextManager)
        ensures
            context@ == self@,
    {
        self.model_context.duplicate()
    }

    /// The call that forwards a token count to the coordinator.
    pub fn observe_token_count(&mut self, event: TokenCountEvent) -> (call: CoordinatorCall)
        ensures
            call == CoordinatorCall::ObserveTokenCount(event),
            *final(self) == *old(self),
    {
        CoordinatorCall::ObserveTokenCount(event)
    }

    /// Compacts live to `replacement_items`: the coordinator is asked, once,
    /// to compact to exactly those items, and the compaction settles from its
    /// answer.
    pub fn compact_live<F>(
        &mut self,
        replacement_items: &[ResponseItem],
        compact: F,
    ) -> (settled: (Result<(), String>, Option<CoordinatorCall>)) where
        F: FnOnce(&[ResponseItem]) -> Option<Result<(), String>>,

        requires
            call_requires(compact, (replacement_items,)),
        ensures
            final(self).shared_coordinator() == old(self).shared_coordinator(),
            exists|compacted: Option<Result<(), String>>|
                #[trigger] call_ensures(compact, (replacement_items,), compacted) && compact_settles(
                    old(self)@,
                    replacement_items@,
                    compacted,
                    final(self)@,
                    settled.0,
                    settled.1,
                ),
    {
        let compacted = compact(replacement_items);
        self.settle_compaction(replacement_items, compacted)
    }

    fn settle_compaction(
        &mut self,
        replacement_items: &[ResponseItem],
        compacted: Option<Result<(), String>>,
    ) -> (settled: (Result<(), String>, Option<CoordinatorCall>))
        ensures
            final(self).shared_coordinator() == old(self).shared_coordinator(),
            compact_settles(
                old(self)@,
                replacement_items@,
                compacted,
                final(self)@,
                settled.0,
                settled.1,
            ),
    {
        match compacted {
            Some(Ok(())) => {
                self.model_context.replace(clone_items(replacement_items));
                (Ok(()), None)
            },
            Some(Err(reason)) => {
                let latched = reason.clone();
                (Err(reason), Some(CoordinatorCall::LatchDurabilityFault(latched)))
            },
            None => (Ok(()), None),
        }
    }

    /// The call that publishes the coordinator's canonical compact.
    pub fn publish_canonical_compact(&mut self) -> (call: CoordinatorCall)
        ensures
            call == CoordinatorCall::PublishCanonicalCompact,
            *final(self) == *old(self),
    {
        CoordinatorCall::PublishCanonicalCompact
    }

    /// Replays a rollout whose effective lineage is `effective` onto
    /// `raw_history`, the host's live context after its latest compaction,
    /// in the replay `mode` read from that lineage:
    /// - a mode that could not be read fails with a latched fault;
    /// - natively, the coordinator observes exactly `raw_history`, once;
    /// - canonically, the coordinator replays, once, the whole `effective`
    ///   lineage onto `raw_history` with the mode's canonical records.
    /// The model context changes only when the replay succeeds with a context.
    pub fn replay<R, I, FO, FC>(
        &mut self,
        effective: &[RolloutItem],
        raw_history: &[ResponseItem],
        mode: Result<ReplayMode<R>, String>,
        observe: FO,
        replay_canonical: FC,
    ) -> (settled: (Result<(), String>, Option<ReplayCall<I>>)) where
        FO: FnOnce(&[ResponseItem]) -> Option<Result<Vec<ResponseItem>, String>>,
        FC: FnOnce(&[RolloutItem], &[ResponseItem], R) -> Option<
            Result<(I, Vec<ResponseItem>), String>,
        >,

        requires
            mode is Ok ==> (mode->Ok_0 is Native ==> call_requires(observe, (raw_history,))),
            mode is Ok ==> (mode->Ok_0 matches ReplayMode::Canonical(canonical) ==> call_requires(
                replay_canonical,
                (effective, raw_history, canonical),
            )),
        ensures
            final(self).shared_coordinator() == old(self).shared_coordinator(),
            match mode {
                Err(error) => replay_settles(
                    old(self)@,
                    ReplayOutcome::<I>::InvalidMetadata(error),
                    final(self)@,
                    settled.0,
                    settled.1,
                ),
                Ok(ReplayMode::Native) => exists|observed: Option<Result<Vec<ResponseItem>, String>>|
                    #[trigger] call_ensures(observe, (raw_history,), observed) && replay_settles(
                        old(self)@,
                        ReplayOutcome::<I>::Native(observed),
                        final(self)@,
                        settled.0,
                        settled.1,
                    ),
                Ok(ReplayMode::Canonical(canonical)) => exists|
                    replayed: Option<Result<(I, Vec<ResponseItem>), String>>,
                |
                    #[trigger] call_ensures(
                        replay_canonical,
                        (effective, raw_history, canonical),
                        replayed,
                    ) && replay_settles(
                        old(self)@,
                        ReplayOutcome::Canonical(replayed),
                        final(self)@,
                        settled.0,
                        settled.1,
                    ),
            },
    {
        match mode {
            Err(error) => {
                let reason = String::from_str("invalid canonical Spine rollout metadata: ").concat(
                    error.as_str(),
                );
                let latched = reason.clone();
                (Err(reason), Some(ReplayCall::LatchDurabilityFault(latched)))
            },
            Ok(ReplayMode::Native) => {
                let observed = observe(raw_history);
                match observed {
                    Some(Ok(context)) => {
                        self.model_context.replace(context);
                        (Ok(()), None)
                    },
                    Some(Err(reason)) => {
                        let latched = reason.clone();
                        (Err(reason), Some(ReplayCall::LatchDurabilityFault(latched)))
                    },
                    None => (Ok(()), None),
                }
            },
            Ok(ReplayMode::Canonical(canonical)) => {
                let replayed = replay_canonical(effective, raw_history, canonical);
                match replayed {
                    Some(Ok((installed, context))) => {
                        self.model_context.replace(context);
                        (Ok(()), Some(ReplayCall::PublishCanonicalSampling(installed)))
                    },
                    Some(Err(reason)) => {
                        let latched = reason.clone();
                        (Err(reason), Some(ReplayCall::LatchDurabilityFault(latched)))
                    },
                    None => (
                        Err(String::from_str("Spine coordinator is unavailable during replay")),
                        None,
                    ),
                }
            },
        }
    }

    /// Replaces the model context by `items`.
    pub fn install_model_context(&mut self, items: Vec<ResponseItem>)
        ensures
            final(self).shared_coordinator() == old(self).shared_coordinator(),
            final(self)@ == items@,
    {
        self.model_context.replace(items);
    }
}

/// A refused append keeps the model context as it was and asks the
/// coordinator to latch a durability fault with the reason it reports.
pub proof fn lemma_refused_append_keeps_context(
    before: Seq<ResponseItem>,
    observed: Option<Result<Vec<ResponseItem>, String>>,
    after: Seq<ResponseItem>,
    reason: String,
    call: Option<CoordinatorCall>,
)
    requires
        append_settles(before, observed, after, Err(reason), call),
    ensures
        after == before,
        call == Some(CoordinatorCall::LatchDurabilityFault(reason)),
{
}

/// A refused live compaction keeps the model context as it was and asks the
/// coordinator to latch a durability fault with the reason it reports.
pub proof fn lemma_refused_compaction_keeps_context(
    before: Seq<ResponseItem>,
    replacement: Seq<ResponseItem>,
    compacted: Option<Result<(), String>>,
    after: Seq<ResponseItem>,
    reason: String,
    call: Option<CoordinatorCall>,
)
    requires
        compact_settles(before, replacement, compacted, after, Err(reason), call),
    ensures
        after == before,
        call == Some(CoordinatorCall::LatchDurabilityFault(reason)),
{
}

/// A refused replay keeps the model context as it was. It asks the
/// coordinator to latch a durability fault with the reason it reports, except
/// when the replay failed because no coordinator was attached.
pub proof fn lemma_refused_replay_keeps_context<I>(
    before: Seq<ResponseItem>,
    outcome: ReplayOutcome<I>,
    after: Seq<ResponseItem>,
    reason: String,
    call: Option<ReplayCall<I>>,
)
    requires
        replay_settles(before, outcome, after, Err(reason), call),
    ensures
        after == before,
        (call matches Some(ReplayCall::LatchDurabilityFault(latched)) && latched@ == reason@) || (
        call is None && reason@ == unavailable_during_replay()),
{
}

/// With no coordinator attached, appends, live compactions and native
/// replays succeed and leave the model context as it was.
pub proof fn lemma_absent_coordinator_keeps_context<I>(
    before: Seq<ResponseItem>,
    replacement: Seq<ResponseItem>,
    after: Seq<ResponseItem>,
    result: Result<(), String>,
    call: Option<CoordinatorCall>,
    replay_call: Option<ReplayCall<I>>,
)
    ensures
        append_settles(before, None, after, result, call) ==> result is Ok && call is None
            && after == before,
        compact_settles(before, replacement, None, after, result, call) ==> result is Ok
            && call is None && after == before,
        replay_settles(before, ReplayOutcome::<I>::Native(None), after, result, replay_call)
            ==> result is Ok && replay_call is None && after == before,
{
}

/// The model context changes only on success, and then it is exactly the
/// context that the coordinator produced (or, for a live compaction, the
/// replacement items).
pub proof fn lemma_context_changes_only_on_success<I>(
    before: Seq<ResponseItem>,
    observed: Option<Result<Vec<ResponseItem>, String>>,
    replacement: Seq<ResponseItem>,
    compacted: Option<Result<(), String>>,
    outcome: ReplayOutcome<I>,
    after: Seq<ResponseItem>,
    result: Result<(), String>,
    call: Option<CoordinatorCall>,
    replay_call: Option<ReplayCall<I>>,
)
    ensures
        append_settles(before, observed, after, result, call) && after != before ==> result is Ok
            && (observed matches Some(Ok(context)) && after == context@),
        compact_settles(before, replacement, compacted, after, result, call) && after != before
            ==> result is Ok && after == replacement,
        replay_settles(before, outcome, after, result, replay_call) && after != before
            ==> result is Ok && (((outcome matches ReplayOutcome::Native(Some(Ok(context)))
            && after == context@) || (outcome matches ReplayOutcome::Canonical(
            Some(Ok((_, context))),
        ) && after == context@))),
{
}

/// A successful canonical replay publishes the sampling boundary of the very
/// record that the coordinator installed, and installs that record's context.
pub proof fn lemma_canonical_replay_publishes_what_it_installed<I>(
    before: Seq<ResponseItem>,
    installed: I,
    context: Vec<ResponseItem>,
    after: Seq<ResponseItem>,
    result: Result<(), String>,
    call: Option<ReplayCall<I>>,
)
    requires
        replay_settles(
            before,
            ReplayOutcome::Canonical(Some(Ok((installed, context)))),
            after,
            result,
            call,
        ),
    ensures
        result is Ok,
        call == Some(ReplayCall::PublishCanonicalSampling(installed)),
        after == context@,
{
}

/// An append, a native replay or a canonical replay that the coordinator
/// answers with a context installs exactly that context, and a live
/// compaction that the coordinator accepts installs exactly the replacement,
/// whatever the model context was before (an empty one included).
pub proof fn lemma_answered_context_is_installed<I>(
    before: Seq<ResponseItem>,
    context: Vec<ResponseItem>,
    replacement: Seq<ResponseItem>,
    installed: I,
    after: Seq<ResponseItem>,
    result: Result<(), String>,
    call: Option<CoordinatorCall>,
    replay_call: Option<ReplayCall<I>>,
)
    ensures
        append_settles(before, Some(Ok(context)), after, result, call) ==> after == context@
            && result is Ok && call is None,
        compact_settles(before, replacement, Some(Ok(())), after, result, call) ==> after
            == replacement && result is Ok && call is None,
        replay_settles(before, ReplayOutcome::<I>::Native(Some(Ok(context))), after, result, replay_call)
            ==> after == context@ && result is Ok && replay_call is None,
        replay_settles(
            before,
            ReplayOutcome::Canonical(Some(Ok((installed, context)))),
            after,
            result,
            replay_call,
        ) ==> after == context@ && result is Ok && replay_call == Some(
            ReplayCall::PublishCanonicalSampling(installed),
        ),
{
}

} // verus!
