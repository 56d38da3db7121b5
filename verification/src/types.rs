use vstd::prelude::*;

use crate::columnar::ColumnBatch;

verus! {

/// A monotonic clock reading. It is carried through untouched; nothing in
/// this crate looks inside one.
#[verifier::external_type_specification]
#[verifier::external_body]
pub struct ExInstant(std::time::Instant);

/// Scheduling class of a unit of work.
#[derive(Clone, Copy, Debug, PartialEq, Eq, Structural, Hash)]
pub enum TaskClass {
    Interactive,
    Background,
    Maintenance,
}

/// What the scheduler knows about a batch.
#[derive(Clone, Copy, Debug)]
pub struct BatchMeta {
    /// 128-bit identifier, unique per submission.
    pub id: u128,
    pub class: TaskClass,
    pub arrival_ts: std::time::Instant,
    /// Estimated total tokens the request will consume.
    pub est_tokens: usize,
}

/// The unit that flows through the scheduler: an opaque payload and its
/// metadata.
#[derive(Debug)]
pub struct GoniBatch {
    pub data: ColumnBatch,
    pub meta: BatchMeta,
}

impl Clone for GoniBatch {
    /// A copy of the descriptor; the payload is shared, not copied.
    fn clone(&self) -> (other: GoniBatch)
        ensures
            other == *self,
    {
        GoniBatch { data: self.data.clone(), meta: self.meta }
    }
}

/// Identifier of one page of key-value cache in device memory.
#[derive(Clone, Copy, Debug, PartialEq, Eq, Structural, Hash)]
pub struct KvPageId(pub u64);

/// Which candidates were chosen, in picking order, and what they cost.
#[derive(Clone, Debug)]
pub struct ContextSelection {
    /// Indices into the candidate set, in the order they were picked.
    pub indices: Vec<u32>,
    /// Sum of the token counts of the picked candidates.
    pub total_tokens: usize,
}

/// Coarse class of inference backend.
#[derive(Clone, Copy, Debug, PartialEq, Eq, Structural, Hash)]
pub enum ModelTier {
    LocalSmall,
    LocalLarge,
    RemoteHeavy,
}

/// One request handed to the inference engine.
#[derive(Clone, Debug)]
pub struct LlmRequest {
    pub prompt: String,
    pub context: ContextSelection,
    pub model_tier: ModelTier,
    pub max_tokens: usize,
}

/// What a job may do when it is cancelled.
#[derive(Clone, Copy, Debug, PartialEq, Eq, Structural)]
pub enum CancelPolicy {
    BestEffort,
    MustStopBeforeSideEffect,
}

/// Resource ceilings of a job.
#[derive(Clone, Copy, Debug)]
pub struct Budgets {
    pub max_tokens: u64,
    pub max_wall_ms: u64,
    pub max_tool_calls: u32,
}

/// Contract of a unit of scheduler-visible work.
#[derive(Clone, Debug)]
pub struct JobSpec {
    pub job_id: u128,
    pub class: TaskClass,
    pub priority: u32,
    pub deadline: Option<String>,
    pub cancel_policy: CancelPolicy,
    pub budgets: Budgets,
    pub required_capabilities: Vec<String>,
}

} // verus!
