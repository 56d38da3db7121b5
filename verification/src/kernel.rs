//! The orchestrator's bookkeeping: queries are registered as pending and
//! queued with a scheduler; a dispatch takes the next batch and the pending
//! record it belongs to. Retrieval, selection scoring and inference happen
//! around this module; what they need decided is decided here.

use std::collections::HashMap;

use vstd::prelude::*;
use vstd::string::StringExecFns;

use crate::columnar::{batch_columns, batch_rows, ColumnBatch};
use crate::context::{chunk_views, CandidateBuildError, CandidateChunk, ChunkView};
use crate::sched::{QueuesView, SchedError, Scheduler};
use crate::text::{
    lowercase, parse_usize, parsed_usize, split_whitespace, str_eq, to_lowercase, whitespace_words,
};
use crate::types::{BatchMeta, ContextSelection, GoniBatch, LlmRequest, ModelTier, TaskClass};

verus! {

/// How many candidates are asked of the data plane for one query.
pub const CANDIDATE_LIMIT: usize = 128;

/// Token budget of the context of one query.
pub const CONTEXT_BUDGET: usize = 2048;

/// Token budget of the context when only the demo chunk is at hand.
pub const DEMO_CONTEXT_BUDGET: usize = 64;

/// How many tokens the inference engine is asked for.
pub const RESPONSE_TOKENS: usize = 512;

/// Dimension of the query embedding when none is configured.
pub const DEFAULT_EMBED_DIM: usize = 1024;

/// A query that was submitted and not yet dispatched. `tx` is the handle
/// on which the answer is delivered, once.
pub struct PendingRequest<T> {
    pub prompt: String,
    pub class: TaskClass,
    pub tx: T,
}

/// What one turn of the executor found.
pub enum Dispatch<T> {
    /// Nothing was queued.
    Idle,
    /// A batch was queued that no pending record belongs to. It is dropped.
    Orphan(GoniBatch),
    /// A batch and its pending record, which is no longer pending: solve
    /// the prompt and deliver the answer on `tx`.
    Run(GoniBatch, PendingRequest<T>),
}

/// The estimated token count of a prompt: its number of words, at least
/// one.
pub open spec fn estimated_tokens(prompt: Seq<char>) -> nat {
    if whitespace_words(prompt).len() == 0 {
        1
    } else {
        whitespace_words(prompt).len()
    }
}

/// The estimated token count of a prompt.
pub fn estimate_tokens(prompt: &str) -> (n: usize)
    ensures
        n == estimated_tokens(prompt@),
{
    let words = split_whitespace(prompt);
    if words.len() == 0 {
        1
    } else {
        words.len()
    }
}

/// The orchestrator's state: a scheduler and the table of pending queries,
/// keyed by batch id.
pub struct GoniKernel<S: Scheduler, T> {
    scheduler: S,
    pending: HashMap<u128, PendingRequest<T>>,
}

impl<S: Scheduler, T> GoniKernel<S, T> {
    /// The pending queries, by batch id.
    pub closed spec fn pending(&self) -> Map<u128, PendingRequest<T>> {
        self.pending@
    }

    /// The scheduler.
    pub closed spec fn sched(&self) -> S {
        self.scheduler
    }

    /// The queues of the scheduler.
    pub open spec fn queues(&self) -> QueuesView {
        self.sched().queues()
    }

    /// The scheduler.
    pub fn scheduler(&self) -> (s: &S)
        ensures
            *s == self.sched(),
    {
        &self.scheduler
    }

    /// A kernel over a scheduler, with nothing pending.
    pub fn new(scheduler: S) -> (kernel: GoniKernel<S, T>)
        ensures
            kernel.sched() == scheduler,
            kernel.pending() == Map::<u128, PendingRequest<T>>::empty(),
    {
        GoniKernel { scheduler, pending: HashMap::new() }
    }

    /// Whether a query is still pending.
    pub fn is_pending(&self, batch_id: u128) -> (p: bool)
        ensures
            p == self.pending().dom().contains(batch_id),
    {
        self.pending.contains_key(&batch_id)
    }

    /// Submits a query under a fresh batch id: registers it as pending and
    /// queues a batch that carries nothing but its metadata. If the
    /// scheduler refuses the batch, the pending record is removed again and
    /// the scheduler's refusal is passed on as it is.
    pub fn submit_user_query(
        &mut self,
        batch_id: u128,
        prompt: &str,
        class: TaskClass,
        arrival_ts: std::time::Instant,
        tx: T,
    ) -> (r: Result<GoniBatch, SchedError>)
        ensures
            exists|batch: GoniBatch|
                {
                    &&& #[trigger] query_batch(batch, batch_id, prompt@, class, arrival_ts)
                    &&& r.is_ok() == old(self).sched().admits(batch)
                    &&& r matches Ok(queued) ==> queued == batch
                    &&& r matches Err(e) ==> e.message@ == old(self).sched().refusal(batch)
                    &&& final(self).queues() == if r.is_ok() {
                        old(self).queues().enqueue(batch)
                    } else {
                        old(self).queues()
                    }
                },
            r.is_ok() ==> final(self).pending() == old(self).pending().insert(
                batch_id,
                PendingRequest { prompt: final(self).pending()[batch_id].prompt, class, tx },
            ) && final(self).pending()[batch_id].prompt@ == prompt@,
            r.is_err() ==> final(self).pending() == old(self).pending().remove(batch_id),
    {
        let meta = BatchMeta { id: batch_id, class, arrival_ts, est_tokens: estimate_tokens(prompt) };
        let batch = GoniBatch { data: ColumnBatch::empty(), meta };
        let queued = batch.clone();
        self.pending.insert(batch_id, PendingRequest { prompt: prompt.to_owned(), class, tx });
        let ghost registered = self.pending@;
        assert(query_batch(batch, batch_id, prompt@, class, arrival_ts));
        match self.scheduler.submit(batch) {
            Ok(_) => {
                assert(self.pending@ == old(self).pending@.insert(batch_id, registered[batch_id]));
                Ok(queued)
            },
            Err(e) => {
                self.pending.remove(&batch_id);
                assert(self.pending@ == old(self).pending@.remove(batch_id));
                Err(e)
            },
        }
    }

    /// One turn of the executor: takes the next batch from the scheduler,
    /// if there is one, and the pending record with its id out of the
    /// table. A batch without a pending record is an orphan; the table
    /// stays as it was.
    pub fn run_scheduler_once(&mut self) -> (d: Dispatch<T>)
        ensures
            match old(self).sched().serves() {
                None => {
                    &&& d is Idle
                    &&& final(self).queues() == old(self).queues()
                    &&& final(self).pending() == old(self).pending()
                },
                Some(c) => {
                    let batch = old(self).queues().queue(c)[0];
                    &&& final(self).queues() == old(self).queues().dequeue(c)
                    &&& if old(self).pending().dom().contains(batch.meta.id) {
                        &&& d == Dispatch::Run(batch, old(self).pending()[batch.meta.id])
                        &&& final(self).pending() == old(self).pending().remove(batch.meta.id)
                    } else {
                        &&& d == Dispatch::<T>::Orphan(batch)
                        &&& final(self).pending() == old(self).pending()
                    }
                },
            },
    {
        match self.scheduler.next() {
            None => Dispatch::Idle,
            Some(batch) => match self.pending.remove(&batch.meta.id) {
                Some(request) => Dispatch::Run(batch, request),
                None => {
                    assert(self.pending@ == old(self).pending@);
                    Dispatch::Orphan(batch)
                },
            },
        }
    }
}

/// Whether `batch` is the batch that stands for a query in the scheduler:
/// it has no payload, and its metadata are the id, the class and the
/// arrival time of the query and the estimated token count of its prompt.
pub open spec fn query_batch(
    batch: GoniBatch,
    batch_id: u128,
    prompt: Seq<char>,
    class: TaskClass,
    arrival_ts: std::time::Instant,
) -> bool {
    &&& batch.meta.id == batch_id
    &&& batch.meta.class == class
    &&& batch.meta.arrival_ts == arrival_ts
    &&& batch.meta.est_tokens == estimated_tokens(prompt)
    &&& batch_columns(batch.data).len() == 0
    &&& batch_rows(batch.data) == 0
}

/// The line that one chunk adds to the context block: its text, or its id
/// if it has no text, after `- ` and before a line break.
pub open spec fn context_line(chunk: ChunkView) -> Seq<char> {
    "- "@ + (match chunk.text {
        Some(t) => t,
        None => chunk.id,
    }) + "\n"@
}

/// The context block of a selection: one line per selected chunk, in
/// selection order. An index that names no chunk adds nothing.
pub open spec fn context_block(chunks: Seq<ChunkView>, indices: Seq<u32>) -> Seq<char>
    decreases indices.len(),
{
    if indices.len() == 0 {
        Seq::empty()
    } else {
        let before = context_block(chunks, indices.drop_last());
        if (indices.last() as int) < chunks.len() {
            before + context_line(chunks[indices.last() as int])
        } else {
            before
        }
    }
}

/// The prompt with the context block appended under the heading
/// `Context:`, or the prompt unchanged if the block is empty.
pub open spec fn augmented(prompt: Seq<char>, block: Seq<char>) -> Seq<char> {
    if block.len() == 0 {
        prompt
    } else {
        prompt + "\n\nContext:\n"@ + block
    }
}

/// Appends the selected chunks to a prompt. An empty selection leaves the
/// prompt unchanged.
pub fn augment_prompt(
    prompt: &str,
    candidates: &[CandidateChunk],
    selection: &ContextSelection,
) -> (out: String)
    ensures
        out@ == augmented(prompt@, context_block(chunk_views(candidates@), selection.indices@)),
{
    let ghost chunks = chunk_views(candidates@);
    let ghost indices = selection.indices@;
    let mut block = String::new();
    let mut k: usize = 0;
    while k < selection.indices.len()
        invariant
            k <= selection.indices.len(),
            chunks == chunk_views(candidates@),
            indices == selection.indices@,
            block@ == context_block(chunks, indices.take(k as int)),
        decreases selection.indices.len() - k,
    {
        assert(indices.take(k as int + 1).drop_last() == indices.take(k as int));
        let idx = selection.indices[k] as usize;
        if idx < candidates.len() {
            let chunk = &candidates[idx];
            assert(chunks[idx as int] == chunk@);
            block.append("- ");
            match chunk.text {
                Some(text) => block.append(text),
                None => block.append(chunk.id),
            }
            block.append("\n");
        }
        k = k + 1;
    }
    assert(indices.take(k as int) == indices);
    let mut out = prompt.to_owned();
    if block.as_str().is_empty() {
        out
    } else {
        out.append("\n\nContext:\n");
        out.append(block.as_str());
        out
    }
}

/// The prompt with the demo chunk appended, for use when retrieval failed
/// and the demo context is switched on.
pub fn demo_prompt(prompt: &str) -> (out: String)
    ensures
        out@ == prompt@ + "\n\nContext:\n- demo context"@,
{
    let mut out = prompt.to_owned();
    out.append("\n\nContext:\n- demo context");
    out
}

/// The request that goes to the inference engine.
pub fn llm_request(prompt: String, context: ContextSelection, model_tier: ModelTier) -> (req:
    LlmRequest)
    ensures
        req.prompt == prompt,
        req.context == context,
        req.model_tier == model_tier,
        req.max_tokens == RESPONSE_TOKENS,
{
    LlmRequest { prompt, context, model_tier, max_tokens: RESPONSE_TOKENS }
}

/// The embedding dimension that a setting stands for: the number it
/// spells, or the default if it is absent or spells none.
pub fn embed_dim_setting(value: Option<&str>) -> (dim: usize)
    ensures
        dim == match value {
            Some(v) => match parsed_usize(v@) {
                Some(n) => n,
                None => DEFAULT_EMBED_DIM,
            },
            None => DEFAULT_EMBED_DIM,
        },
{
    match value {
        Some(v) => match parse_usize(v) {
            Some(n) => n,
            None => DEFAULT_EMBED_DIM,
        },
        None => DEFAULT_EMBED_DIM,
    }
}

/// Whether a setting switches a flag on: it does if it is `1` or, in any
/// letter case, `true`.
pub open spec fn flag_is_on(value: Option<&str>) -> bool {
    match value {
        Some(v) => v@ == "1"@ || lowercase(v@) == "true"@,
        None => false,
    }
}

/// Whether a setting switches a flag on.
pub fn flag_setting(value: Option<&str>) -> (on: bool)
    ensures
        on == flag_is_on(value),
{
    match value {
        Some(v) => str_eq(v, "1") || str_eq(to_lowercase(v).as_str(), "true"),
        None => false,
    }
}

/// The candidates to select among after the attempt to read them out of
/// the retrieved batch: what was read, or none at all if the batch could
/// not be read. The failure is handed back beside them, to be logged; the
/// query goes on.
pub fn candidates_or_empty<'a>(
    built: Result<Vec<CandidateChunk<'a>>, CandidateBuildError>,
) -> (r: (Vec<CandidateChunk<'a>>, Option<CandidateBuildError>))
    ensures
        match built {
            Ok(chunks) => r.0 == chunks && r.1.is_none(),
            Err(e) => r.0@.len() == 0 && r.1 == Some(e),
        },
{
    match built {
        Ok(chunks) => (chunks, None),
        Err(e) => (Vec::new(), Some(e)),
    }
}

/// How a query goes on when retrieval failed.
pub enum Fallback {
    /// With this selection, which is empty, and this prompt, which is the
    /// query's own.
    PromptOnly(ContextSelection, String),
    /// With a selection made among this one chunk under this budget, and
    /// with this prompt, which names the chunk.
    DemoContext(CandidateChunk<'static>, usize, String),
}

/// The chunk that stands in for retrieved context when the demo context is
/// switched on.
pub open spec fn demo_chunk() -> ChunkView {
    ChunkView { id: "demo"@, text: Some("demo context"@), tokens: 1, row: 0 }
}

/// Decides how a query goes on when retrieval failed: with the prompt alone
/// and an empty selection, unless the demo setting is on; then with the
/// demo chunk as the only candidate, the demo budget, and the prompt with
/// the demo chunk appended.
pub fn retrieval_fallback(demo_setting: Option<&str>, prompt: &str) -> (f: Fallback)
    ensures
        match f {
            Fallback::PromptOnly(context, out) => {
                &&& !flag_is_on(demo_setting)
                &&& context.indices@.len() == 0
                &&& context.total_tokens == 0
                &&& out@ == prompt@
            },
            Fallback::DemoContext(chunk, budget, out) => {
                &&& flag_is_on(demo_setting)
                &&& chunk@ == demo_chunk()
                &&& budget == DEMO_CONTEXT_BUDGET
                &&& out@ == prompt@ + "\n\nContext:\n- demo context"@
            },
        },
{
    if flag_setting(demo_setting) {
        let chunk = CandidateChunk { id: "demo", text: Some("demo context"), tokens: 1, row: 0 };
        Fallback::DemoContext(chunk, DEMO_CONTEXT_BUDGET, demo_prompt(prompt))
    } else {
        Fallback::PromptOnly(
            ContextSelection { indices: Vec::new(), total_tokens: 0 },
            prompt.to_owned(),
        )
    }
}

} // verus!
