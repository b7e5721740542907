//! The records that the session layer moves between the model context, the
//! rollout and the Spine coordinator.
//!
//! The session layer never looks inside a model item or a snapshot: it only
//! keeps, orders and copies them. Each record therefore carries its content as
//! plain strings. The records without nested lists have a `clone` proved to
//! give back an equal value; `CompactedItem` and `RolloutItem` derive `Clone`,
//! with nothing proved of it, and the layer never copies them: it moves them.
use vstd::prelude::*;

verus! {

/// One item of the model's conversation context.
#[derive(Debug, PartialEq, Eq)]
pub struct ResponseItem {
    pub role: String,
    pub content: String,
}

impl Clone for ResponseItem {
    fn clone(&self) -> (copy: Self)
        ensures
            copy == *self,
    {
        ResponseItem { role: self.role.clone(), content: self.content.clone() }
    }
}

/// The metadata record that opens a persisted thread.
#[derive(Debug, PartialEq, Eq)]
pub struct SessionMetaItem {
    pub thread_id: String,
    pub cwd: String,
}

impl Clone for SessionMetaItem {
    fn clone(&self) -> (copy: Self)
        ensures
            copy == *self,
    {
        SessionMetaItem { thread_id: self.thread_id.clone(), cwd: self.cwd.clone() }
    }
}

/// The turn context that a reconstruction of history refers to.
#[derive(Debug, PartialEq, Eq)]
pub struct TurnContextItem {
    pub cwd: String,
    pub model: String,
}

impl Clone for TurnContextItem {
    fn clone(&self) -> (copy: Self)
        ensures
            copy == *self,
    {
        TurnContextItem { cwd: self.cwd.clone(), model: self.model.clone() }
    }
}

/// A full world-state snapshot, serialized as an object.
#[derive(Debug, PartialEq, Eq)]
pub struct WorldStateItem {
    pub object: String,
}

impl WorldStateItem {
    /// A record that carries the whole snapshot.
    pub fn full(object: String) -> (item: Self)
        ensures
            item.object == object,
    {
        WorldStateItem { object }
    }
}

impl Clone for WorldStateItem {
    fn clone(&self) -> (copy: Self)
        ensures
            copy == *self,
    {
        WorldStateItem { object: self.object.clone() }
    }
}

/// The record written when a Spine sampling transaction starts; it may hold the
/// SDK configuration, as TOML, that the transaction was sampled with.
#[derive(Debug, PartialEq, Eq)]
pub struct SpineSamplingStarted {
    pub sdk_config: Option<String>,
}

impl Clone for SpineSamplingStarted {
    fn clone(&self) -> (copy: Self)
        ensures
            copy == *self,
    {
        SpineSamplingStarted { sdk_config: clone_opt_string(&self.sdk_config) }
    }
}

/// A compaction checkpoint: the history that replaces everything before it.
#[derive(Clone, Debug, PartialEq, Eq)]
pub struct CompactedItem {
    pub message: String,
    pub replacement_history: Option<Vec<ResponseItem>>,
    pub guardian_history: Option<Vec<ResponseItem>>,
    pub mcp_resource_origins: Vec<String>,
    pub window_number: Option<u64>,
    pub first_window_id: Option<String>,
    pub previous_window_id: Option<String>,
    pub window_id: Option<String>,
    pub compaction_response_id: Option<String>,
    pub latest_token_usage_record: Option<String>,
}

/// One record of a thread's rollout.
#[derive(Clone, Debug, PartialEq, Eq)]
pub enum RolloutItem {
    SessionMeta(SessionMetaItem),
    ResponseItem(ResponseItem),
    Compacted(CompactedItem),
    TurnContext(TurnContextItem),
    WorldState(WorldStateItem),
    SpineSamplingStarted(SpineSamplingStarted),
    Event(String),
}

impl RolloutItem {
    pub fn is_session_meta(&self) -> (meta: bool)
        ensures
            meta == (*self is SessionMeta),
    {
        match self {
            RolloutItem::SessionMeta(_) => true,
            _ => false,
        }
    }
}

pub fn clone_opt_string(s: &Option<String>) -> (copy: Option<String>)
    ensures
        copy == *s,
{
    match s {
        Some(v) => Some(v.clone()),
        None => None,
    }
}

/// A copy of a slice of model items.
pub fn clone_items(items: &[ResponseItem]) -> (copy: Vec<ResponseItem>)
    ensures
        copy@ == items@,
{
    let mut out: Vec<ResponseItem> = Vec::new();
    for i in 0..items.len()
        invariant
            out@ == items@.subrange(0, i as int),
    {
        out.push(items[i].clone());
    }
    assert(out@ =~= items@);
    out
}

} // verus!
