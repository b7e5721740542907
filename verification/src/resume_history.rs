//! Loading the history of a resumed thread.
//!
//! Native resume context and canonical Spine lineage stay distinct at every
//! entry point. A legacy thread resumes from its persisted history. A
//! paginated thread resumes from its latest model context, and, when Spine JIT
//! is on, also loads its complete history as the Spine lineage; with JIT off
//! resume stays bounded to the latest model context.
//!
//! The reads are made by the host; [`ResumeHistoryLoad`] decides which read
//! comes next and what the answers amount to. A failed read of a rollout (by
//! its path, or of the complete history) becomes a rollout-read error; the
//! errors of reading a thread by id or its latest model context pass through.
use crate::config::{CodexFeature, ManagedFeatures};
use crate::error::{CodexErr, ThreadStoreError};
use crate::items::{clone_opt_string, RolloutItem};
use vstd::prelude::*;
use vstd::string::*;

verus! {

/// How a thread's history is stored.
#[derive(Clone, Copy, Debug, PartialEq, Eq)]
pub enum ThreadHistoryMode {
    /// One rollout holds the whole history.
    Legacy,
    /// History is stored in pages; the latest model context is kept apart.
    Paginated,
}

/// The stored metadata of a thread.
#[derive(Clone, Debug, PartialEq, Eq)]
pub struct StoredThread {
    pub thread_id: String,
    pub history_mode: ThreadHistoryMode,
    pub rollout_path: Option<String>,
}

/// The history a thread resumes with.
#[derive(Clone, Debug, PartialEq, Eq)]
pub struct ResumedHistory {
    pub conversation_id: String,
    /// The native history the session resumes from.
    pub history: Vec<RolloutItem>,
    /// The complete canonical lineage for Spine, when it was loaded.
    pub spine_history: Option<Vec<RolloutItem>>,
    pub rollout_path: Option<String>,
}

/// A read of the thread store.
#[derive(Clone, Debug, PartialEq, Eq)]
pub enum HistoryRead {
    /// Read the thread stored at a rollout path.
    ThreadByRolloutPath { rollout_path: String, include_archived: bool, include_history: bool },
    /// Read the thread by its id.
    StoredThread { thread_id: String, include_archived: bool, include_history: bool },
    /// Load the thread's latest model context.
    LatestModelContext { thread_id: String, include_archived: bool },
    /// Load the thread's complete history.
    CompleteHistory { thread_id: String, include_archived: bool },
}

/// The thread store's answer to a read.
#[derive(Debug, PartialEq, Eq)]
pub enum HistoryReply {
    /// The thread stored at a rollout path, with its persisted history if it
    /// had one.
    ThreadByRolloutPath(Result<Option<Vec<RolloutItem>>, ThreadStoreError>),
    /// The thread read by its id, with its persisted history if it had one.
    StoredThread(Result<Option<Vec<RolloutItem>>, CodexErr>),
    /// The latest model context.
    ModelContext(Result<Vec<RolloutItem>, CodexErr>),
    /// The complete history.
    CompleteHistory(Result<Vec<RolloutItem>, ThreadStoreError>),
}

/// What the load does next.
#[derive(Debug, PartialEq, Eq)]
pub enum ResumeStep {
    /// Make this read and hand its answer back.
    Read(HistoryRead),
    /// The load is over.
    Done(Result<ResumedHistory, CodexErr>),
}

/// The answer a load waits for.
#[derive(Clone, Copy, Debug, PartialEq, Eq)]
pub enum Awaiting {
    ThreadByRolloutPath,
    StoredThread,
    ModelContext,
    CompleteHistory,
    Nothing,
}

#[derive(Debug)]
enum Phase {
    AwaitingThreadByRolloutPath,
    AwaitingStoredThread,
    AwaitingModelContext,
    AwaitingCompleteHistory(Vec<RolloutItem>),
    Finished,
}

/// The load of a resumed thread's history.
#[derive(Debug)]
pub struct ResumeHistoryLoad {
    thread: StoredThread,
    spine_jit: bool,
    phase: Phase,
}

/// The message of a legacy thread stored without its history.
pub open spec fn missing_history_message(thread_id: Seq<char>) -> Seq<char> {
    "thread "@ + thread_id + " did not include persisted history"@
}

/// The read that a resume starts with.
pub open spec fn first_read(thread: StoredThread) -> HistoryRead {
    match thread.history_mode {
        ThreadHistoryMode::Legacy => match thread.rollout_path {
            Some(rollout_path) => HistoryRead::ThreadByRolloutPath {
                rollout_path,
                include_archived: true,
                include_history: true,
            },
            None => HistoryRead::StoredThread {
                thread_id: thread.thread_id,
                include_archived: true,
                include_history: true,
            },
        },
        ThreadHistoryMode::Paginated => HistoryRead::LatestModelContext {
            thread_id: thread.thread_id,
            include_archived: true,
        },
    }
}

/// The resumed history of `thread`, from its native history and, if loaded,
/// its Spine lineage.
pub open spec fn resumed(
    thread: StoredThread,
    history: Vec<RolloutItem>,
    spine_history: Option<Vec<RolloutItem>>,
) -> ResumedHistory {
    ResumedHistory {
        conversation_id: thread.thread_id,
        history,
        spine_history,
        rollout_path: thread.rollout_path,
    }
}

impl ResumeHistoryLoad {
    /// The thread being resumed.
    pub closed spec fn thread(&self) -> StoredThread {
        self.thread
    }

    /// Whether the load includes the Spine lineage of a paginated thread.
    pub closed spec fn loads_spine_history(&self) -> bool {
        self.spine_jit
    }

    /// The answer the load waits for.
    pub closed spec fn awaiting(&self) -> Awaiting {
        match self.phase {
            Phase::AwaitingThreadByRolloutPath => Awaiting::ThreadByRolloutPath,
            Phase::AwaitingStoredThread => Awaiting::StoredThread,
            Phase::AwaitingModelContext => Awaiting::ModelContext,
            Phase::AwaitingCompleteHistory(_) => Awaiting::CompleteHistory,
            Phase::Finished => Awaiting::Nothing,
        }
    }

    /// The latest model context already loaded, while the complete history is
    /// awaited.
    pub closed spec fn loaded_model_context(&self) -> Vec<RolloutItem>
        recommends
            self.awaiting() == Awaiting::CompleteHistory,
    {
        self.phase->AwaitingCompleteHistory_0
    }

    /// The load waits only for reads that the thread's storage mode calls for.
    pub open spec fn wf(&self) -> bool {
        &&& self.awaiting() == Awaiting::ThreadByRolloutPath ==> self.thread().history_mode
            == ThreadHistoryMode::Legacy
        &&& self.awaiting() == Awaiting::StoredThread ==> self.thread().history_mode
            == ThreadHistoryMode::Legacy
        &&& self.awaiting() == Awaiting::ModelContext ==> self.thread().history_mode
            == ThreadHistoryMode::Paginated
        &&& self.awaiting() == Awaiting::CompleteHistory ==> self.thread().history_mode
            == ThreadHistoryMode::Paginated && self.loads_spine_history()
    }

    /// Whether `reply` answers the read the load waits for.
    pub open spec fn answers(&self, reply: HistoryReply) -> bool {
        match reply {
            HistoryReply::ThreadByRolloutPath(_) => self.awaiting() == Awaiting::ThreadByRolloutPath,
            HistoryReply::StoredThread(_) => self.awaiting() == Awaiting::StoredThread,
            HistoryReply::ModelContext(_) => self.awaiting() == Awaiting::ModelContext,
            HistoryReply::CompleteHistory(_) => self.awaiting() == Awaiting::CompleteHistory,
        }
    }

    /// Starts resuming `metadata` under the host's `features`, with the first
    /// read to make.
    pub fn start(metadata: StoredThread, features: &ManagedFeatures) -> (started: (Self, HistoryRead))
        ensures
            started.0.wf(),
            started.0.thread() == metadata,
            started.0.loads_spine_history() == features.is_enabled(CodexFeature::SpineJit),
            started.1 == first_read(metadata),
            started.0.awaiting() == match metadata.history_mode {
                ThreadHistoryMode::Legacy => if metadata.rollout_path is Some {
                    Awaiting::ThreadByRolloutPath
                } else {
                    Awaiting::StoredThread
                },
                ThreadHistoryMode::Paginated => Awaiting::ModelContext,
            },
    {
        let spine_jit = features.enabled(CodexFeature::SpineJit);
        let (phase, read) = match metadata.history_mode {
            ThreadHistoryMode::Legacy => match &metadata.rollout_path {
                Some(rollout_path) => (
                    Phase::AwaitingThreadByRolloutPath,
                    HistoryRead::ThreadByRolloutPath {
                        rollout_path: rollout_path.clone(),
                        include_archived: true,
                        include_history: true,
                    },
                ),
                None => (
                    Phase::AwaitingStoredThread,
                    HistoryRead::StoredThread {
                        thread_id: metadata.thread_id.clone(),
                        include_archived: true,
                        include_history: true,
                    },
                ),
            },
            ThreadHistoryMode::Paginated => (
                Phase::AwaitingModelContext,
                HistoryRead::LatestModelContext {
                    thread_id: metadata.thread_id.clone(),
                    include_archived: true,
                },
            ),
        };
        (ResumeHistoryLoad { thread: metadata, spine_jit, phase }, read)
    }

    fn finish(
        &mut self,
        history: Vec<RolloutItem>,
        spine_history: Option<Vec<RolloutItem>>,
    ) -> (step: ResumeStep)
        ensures
            final(self).thread() == old(self).thread(),
            final(self).loads_spine_history() == old(self).loads_spine_history(),
            final(self).awaiting() == Awaiting::Nothing,
            step == ResumeStep::Done(Ok(resumed(old(self).thread(), history, spine_history))),
    {
        self.phase = Phase::Finished;
        ResumeStep::Done(
            Ok(
                ResumedHistory {
                    conversation_id: self.thread.thread_id.clone(),
                    history,
                    spine_history,
                    rollout_path: clone_opt_string(&self.thread.rollout_path),
                },
            ),
        )
    }

    fn fail(&mut self, error: CodexErr) -> (step: ResumeStep)
        ensures
            final(self).thread() == old(self).thread(),
            final(self).loads_spine_history() == old(self).loads_spine_history(),
            final(self).awaiting() == Awaiting::Nothing,
            step == ResumeStep::Done(Err(error)),
    {
        self.phase = Phase::Finished;
        ResumeStep::Done(Err(error))
    }

    /// Ends a legacy load with the thread's persisted history, which it must
    /// have.
    fn finish_stored(&mut self, stored: Option<Vec<RolloutItem>>) -> (step: ResumeStep)
        ensures
            final(self).thread() == old(self).thread(),
            final(self).loads_spine_history() == old(self).loads_spine_history(),
            final(self).awaiting() == Awaiting::Nothing,
            match stored {
                None => step matches ResumeStep::Done(Err(CodexErr::Fatal(message))) && message@
                    == missing_history_message(old(self).thread().thread_id@),
                Some(history) => step == ResumeStep::Done(
                    Ok(resumed(old(self).thread(), history, None)),
                ),
            },
    {
        match stored {
            None => {
                let message = String::from_str("thread ").concat(
                    self.thread.thread_id.as_str(),
                ).concat(" did not include persisted history");
                self.fail(CodexErr::Fatal(message))
            },
            Some(history) => self.finish(history, None),
        }
    }

    /// Takes the answer to the awaited read, and says what comes next.
    pub fn step(&mut self, reply: HistoryReply) -> (step: ResumeStep)
        requires
            old(self).wf(),
            old(self).answers(reply),
        ensures
            final(self).wf(),
            final(self).thread() == old(self).thread(),
            final(self).loads_spine_history() == old(self).loads_spine_history(),
            match reply {
                HistoryReply::ThreadByRolloutPath(Err(error)) => step == ResumeStep::Done(
                    Err(CodexErr::RolloutRead(error)),
                ),
                HistoryReply::ThreadByRolloutPath(Ok(None)) => step matches ResumeStep::Done(
                    Err(CodexErr::Fatal(message)),
                ) && message@ == missing_history_message(old(self).thread().thread_id@),
                HistoryReply::ThreadByRolloutPath(Ok(Some(history))) => step == ResumeStep::Done(
                    Ok(resumed(old(self).thread(), history, None)),
                ),
                HistoryReply::StoredThread(Err(error)) => step == ResumeStep::Done(Err(error)),
                HistoryReply::StoredThread(Ok(None)) => step matches ResumeStep::Done(
                    Err(CodexErr::Fatal(message)),
                ) && message@ == missing_history_message(old(self).thread().thread_id@),
                HistoryReply::StoredThread(Ok(Some(history))) => step == ResumeStep::Done(
                    Ok(resumed(old(self).thread(), history, None)),
                ),
                HistoryReply::ModelContext(Err(error)) => step == ResumeStep::Done(Err(error)),
                HistoryReply::ModelContext(Ok(context)) => if old(self).loads_spine_history() {
                    &&& step == ResumeStep::Read(
                        HistoryRead::CompleteHistory {
                            thread_id: old(self).thread().thread_id,
                            include_archived: true,
                        },
                    )
                    &&& final(self).awaiting() == Awaiting::CompleteHistory
                    &&& final(self).loaded_model_context() == context
                } else {
                    step == ResumeStep::Done(Ok(resumed(old(self).thread(), context, None)))
                },
                HistoryReply::CompleteHistory(Err(error)) => step == ResumeStep::Done(
                    Err(CodexErr::RolloutRead(error)),
                ),
                HistoryReply::CompleteHistory(Ok(complete)) => step == ResumeStep::Done(
                    Ok(
                        resumed(
                            old(self).thread(),
                            old(self).loaded_model_context(),
                            Some(complete),
                        ),
                    ),
                ),
            },
            step is Done ==> final(self).awaiting() == Awaiting::Nothing,
            step matches ResumeStep::Read(HistoryRead::CompleteHistory { .. }) ==> old(
                self,
            ).thread().history_mode == ThreadHistoryMode::Paginated
                && old(self).loads_spine_history(),
            step matches ResumeStep::Done(Ok(history)) ==> history.conversation_id == old(
                self,
            ).thread().thread_id && history.rollout_path == old(self).thread().rollout_path,
            step matches ResumeStep::Done(Ok(history)) ==> (history.spine_history is Some <==> (
            old(self).thread().history_mode == ThreadHistoryMode::Paginated
                && old(self).loads_spine_history())),
    {
        match reply {
            HistoryReply::ThreadByRolloutPath(stored) => match stored {
                Err(error) => self.fail(CodexErr::RolloutRead(error)),
                Ok(stored) => self.finish_stored(stored),
            },
            HistoryReply::StoredThread(stored) => match stored {
                Err(error) => self.fail(error),
                Ok(stored) => self.finish_stored(stored),
            },
            HistoryReply::ModelContext(context) => match context {
                Err(error) => self.fail(error),
                Ok(context) => {
                    if self.spine_jit {
                        let read = HistoryRead::CompleteHistory {
                            thread_id: self.thread.thread_id.clone(),
                            include_archived: true,
                        };
                        self.phase = Phase::AwaitingCompleteHistory(context);
                        ResumeStep::Read(read)
                    } else {
                        self.finish(context, None)
                    }
                },
            },
            HistoryReply::CompleteHistory(complete) => match complete {
                Err(error) => self.fail(CodexErr::RolloutRead(error)),
                Ok(complete) => {
                    let mut phase = Phase::Finished;
                    std::mem::swap(&mut phase, &mut self.phase);
                    match phase {
                        Phase::AwaitingCompleteHistory(context) => {
                            let rollout_path = clone_opt_string(&self.thread.rollout_path);
                            ResumeStep::Done(
                                Ok(
                                    ResumedHistory {
                                        conversation_id: self.thread.thread_id.clone(),
                                        history: context,
                                        spine_history: Some(complete),
                                        rollout_path,
                                    },
                                ),
                            )
                        },
                        _ => vstd::pervasive::unreached(),
                    }
                },
            },
        }
    }
}

/// A resumed history is the thread's own: it carries the stored thread's id
/// and rollout path unchanged, with the native history and Spine lineage it
/// was given, whatever the history mode and whether the lineage was loaded.
pub proof fn lemma_resumed_history_keeps_the_thread(
    thread: StoredThread,
    history: Vec<RolloutItem>,
    spine_history: Option<Vec<RolloutItem>>,
)
    ensures
        resumed(thread, history, spine_history).conversation_id == thread.thread_id,
        resumed(thread, history, spine_history).rollout_path == thread.rollout_path,
        resumed(thread, history, spine_history).history == history,
        resumed(thread, history, spine_history).spine_history == spine_history,
{
}

} // verus!
