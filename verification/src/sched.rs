//! Two dispatch disciplines over three per-class FIFO queues: MaxWeight,
//! which serves the class with the largest weight times queue length, and
//! strict priority with a work-in-progress ceiling per class.

use std::collections::VecDeque;
use std::sync::Arc;

use vstd::prelude::*;

use crate::types::{GoniBatch, TaskClass};

verus! {

/// Why a batch was not admitted.
#[derive(Debug)]
pub struct SchedError {
    pub message: String,
}

/// Admission and dispatch of batches. Whatever the discipline, a batch that
/// is admitted joins the back of the queue of its class, a batch that is
/// refused changes nothing, and a dispatch takes the head of the queue that
/// the discipline serves, or finds all queues empty.
pub trait Scheduler {
    /// The three queues, oldest batch first.
    spec fn queues(&self) -> QueuesView;

    /// Whether the scheduler admits this batch as things stand.
    spec fn admits(&self, batch: GoniBatch) -> bool;

    /// The message with which the scheduler refuses this batch, if it does
    /// not admit it.
    spec fn refusal(&self, batch: GoniBatch) -> Seq<char>;

    /// The class whose head is dispatched next as things stand; `None` if
    /// nothing is queued.
    spec fn serves(&self) -> Option<TaskClass>;

    /// Offers a batch to the scheduler.
    fn submit(&mut self, batch: GoniBatch) -> (r: Result<(), SchedError>)
        ensures
            r.is_ok() == old(self).admits(batch),
            r matches Err(e) ==> e.message@ == old(self).refusal(batch),
            r.is_ok() ==> final(self).queues() == old(self).queues().enqueue(batch),
            r.is_err() ==> final(self).queues() == old(self).queues(),
            old(self).queues().by_class() ==> final(self).queues().by_class(),
    ;

    /// Takes the next batch to run, if any is queued. Never waits.
    fn next(&mut self) -> (r: Option<GoniBatch>)
        ensures
            match old(self).serves() {
                Some(c) => {
                    &&& old(self).queues().queue(c).len() > 0
                    &&& r == Some(old(self).queues().queue(c)[0])
                    &&& final(self).queues() == old(self).queues().dequeue(c)
                },
                None => {
                    &&& old(self).queues().all_empty()
                    &&& r.is_none()
                    &&& final(self).queues() == old(self).queues()
                },
            },
            old(self).queues().by_class() ==> final(self).queues().by_class(),
    ;
}

/// Position of a class in the class order Interactive, Background,
/// Maintenance.
pub open spec fn class_index(class: TaskClass) -> int {
    match class {
        TaskClass::Interactive => 0,
        TaskClass::Background => 1,
        TaskClass::Maintenance => 2,
    }
}

/// Position of a class in the class order.
pub fn idx_for(class: TaskClass) -> (i: usize)
    ensures
        i == class_index(class),
{
    match class {
        TaskClass::Interactive => 0,
        TaskClass::Background => 1,
        TaskClass::Maintenance => 2,
    }
}

/// The three queues as sequences of batches, oldest first.
pub struct QueuesView {
    pub interactive: Seq<GoniBatch>,
    pub background: Seq<GoniBatch>,
    pub maintenance: Seq<GoniBatch>,
}

impl QueuesView {
    /// Three empty queues.
    pub open spec fn empty() -> QueuesView {
        QueuesView {
            interactive: Seq::empty(),
            background: Seq::empty(),
            maintenance: Seq::empty(),
        }
    }

    /// The queue of a class.
    pub open spec fn queue(self, class: TaskClass) -> Seq<GoniBatch> {
        match class {
            TaskClass::Interactive => self.interactive,
            TaskClass::Background => self.background,
            TaskClass::Maintenance => self.maintenance,
        }
    }

    /// These queues with the queue of one class replaced.
    pub open spec fn with_queue(self, class: TaskClass, q: Seq<GoniBatch>) -> QueuesView {
        match class {
            TaskClass::Interactive => QueuesView { interactive: q, ..self },
            TaskClass::Background => QueuesView { background: q, ..self },
            TaskClass::Maintenance => QueuesView { maintenance: q, ..self },
        }
    }

    /// These queues after a batch joined the back of its class queue.
    pub open spec fn enqueue(self, batch: GoniBatch) -> QueuesView {
        self.with_queue(batch.meta.class, self.queue(batch.meta.class).push(batch))
    }

    /// These queues after the head of a class queue left.
    pub open spec fn dequeue(self, class: TaskClass) -> QueuesView {
        self.with_queue(class, self.queue(class).drop_first())
    }

    /// These queues after each batch of a sequence joined in turn.
    pub open spec fn enqueue_all(self, batches: Seq<GoniBatch>) -> QueuesView
        decreases batches.len(),
    {
        if batches.len() == 0 {
            self
        } else {
            self.enqueue_all(batches.drop_last()).enqueue(batches.last())
        }
    }

    /// Whether every queued batch sits in the queue of its own class.
    pub open spec fn by_class(self) -> bool {
        forall|c: TaskClass, i: int|
            0 <= i < self.queue(c).len() ==> (#[trigger] self.queue(c)[i]).meta.class == c
    }

    /// Whether all three queues are empty.
    pub open spec fn all_empty(self) -> bool {
        self.interactive.len() == 0 && self.background.len() == 0 && self.maintenance.len() == 0
    }

    /// The first class in class order whose queue is not empty.
    pub open spec fn first_nonempty(self) -> Option<TaskClass> {
        if self.interactive.len() > 0 {
            Some(TaskClass::Interactive)
        } else if self.background.len() > 0 {
            Some(TaskClass::Background)
        } else if self.maintenance.len() > 0 {
            Some(TaskClass::Maintenance)
        } else {
            None
        }
    }
}

/// Per-class weights of the MaxWeight discipline.
#[derive(Clone, Copy, Debug)]
pub struct ClassWeights {
    pub interactive: u64,
    pub background: u64,
    pub maintenance: u64,
}

impl ClassWeights {
    /// The weight of a class.
    pub open spec fn weight(self, class: TaskClass) -> int {
        match class {
            TaskClass::Interactive => self.interactive as int,
            TaskClass::Background => self.background as int,
            TaskClass::Maintenance => self.maintenance as int,
        }
    }

    /// The recommended weights 1000 : 10 : 1.
    pub open spec fn recommended() -> ClassWeights {
        ClassWeights { interactive: 1000, background: 10, maintenance: 1 }
    }
}

/// The score of a class: its weight times the length of its queue.
pub open spec fn score(q: QueuesView, w: ClassWeights, class: TaskClass) -> int {
    w.weight(class) * q.queue(class).len()
}

/// Whether MaxWeight serves `class`: its queue is not empty, no non-empty
/// class scores more, and none earlier in class order scores as much.
pub open spec fn max_weight_serves(q: QueuesView, w: ClassWeights, class: TaskClass) -> bool {
    &&& q.queue(class).len() > 0
    &&& forall|c: TaskClass| #[trigger]
        q.queue(c).len() > 0 ==> score(q, w, c) <= score(q, w, class)
    &&& forall|c: TaskClass|
        #[trigger] q.queue(c).len() > 0 && class_index(c) < class_index(class) ==> score(q, w, c)
            < score(q, w, class)
}

/// The class that MaxWeight serves, worked out by comparing the scores in
/// class order; `None` if all queues are empty.
pub open spec fn max_weight_class(q: QueuesView, w: ClassWeights) -> Option<TaskClass> {
    let first = if q.interactive.len() > 0 {
        Some(TaskClass::Interactive)
    } else {
        None
    };
    let second = if q.background.len() > 0 && (first matches Some(c) ==> score(
        q,
        w,
        TaskClass::Background,
    ) > score(q, w, c)) {
        Some(TaskClass::Background)
    } else {
        first
    };
    if q.maintenance.len() > 0 && (second matches Some(c) ==> score(q, w, TaskClass::Maintenance)
        > score(q, w, c)) {
        Some(TaskClass::Maintenance)
    } else {
        second
    }
}

/// The class that `max_weight_class` works out is the one that MaxWeight
/// serves by definition, and the only one; it finds none only if all queues
/// are empty.
pub proof fn lemma_max_weight_class(q: QueuesView, w: ClassWeights)
    ensures
        match max_weight_class(q, w) {
            Some(c) => max_weight_serves(q, w, c),
            None => q.all_empty(),
        },
        forall|c: TaskClass| #[trigger]
            max_weight_serves(q, w, c) ==> max_weight_class(q, w) == Some(c),
{
    assert forall|c: TaskClass| #[trigger] max_weight_serves(q, w, c) implies max_weight_class(
        q,
        w,
    ) == Some(c) by {
        assert(q.queue(c).len() > 0);
        match max_weight_class(q, w) {
            Some(found) => {
                lemma_max_weight_class_serves(q, w);
                lemma_served_class_is_unique(q, w, c, found);
            },
            None => {},
        }
    }
    lemma_max_weight_class_serves(q, w);
}

/// The class that `max_weight_class` works out is served by definition.
proof fn lemma_max_weight_class_serves(q: QueuesView, w: ClassWeights)
    ensures
        match max_weight_class(q, w) {
            Some(c) => max_weight_serves(q, w, c),
            None => q.all_empty(),
        },
{
    match max_weight_class(q, w) {
        Some(class) => {
            assert forall|c: TaskClass| #[trigger] q.queue(c).len() > 0 implies score(q, w, c)
                <= score(q, w, class) by {
                match c {
                    TaskClass::Interactive => {},
                    TaskClass::Background => {},
                    TaskClass::Maintenance => {},
                }
            }
            assert forall|c: TaskClass|
                #[trigger] q.queue(c).len() > 0 && class_index(c) < class_index(
                    class,
                ) implies score(q, w, c) < score(q, w, class) by {
                match c {
                    TaskClass::Interactive => {},
                    TaskClass::Background => {},
                    TaskClass::Maintenance => {},
                }
            }
        },
        None => {},
    }
}

/// The batches that a queue of shared handles holds.
pub open spec fn batches_of(q: Seq<Arc<GoniBatch>>) -> Seq<GoniBatch> {
    q.map_values(|a: Arc<GoniBatch>| *a)
}

/// Takes a batch out of its shared handle.
///
/// Trusted: `Arc::unwrap_or_clone` returns the inner value if this is the
/// only handle, and a clone of it otherwise; a clone of a batch equals the
/// batch.
#[verifier::external_body]
fn take_batch(handle: Arc<GoniBatch>) -> (batch: GoniBatch)
    ensures
        batch == *handle,
{
    Arc::unwrap_or_clone(handle)
}

/// Pops the head of a queue of shared handles.
fn pop_head(q: &mut VecDeque<Arc<GoniBatch>>) -> (head: Option<GoniBatch>)
    ensures
        match head {
            Some(b) => old(q)@.len() > 0 && b == batches_of(old(q)@)[0] && batches_of(final(q)@)
                == batches_of(old(q)@).drop_first(),
            None => old(q)@.len() == 0 && final(q)@ == old(q)@,
        },
{
    match q.pop_front() {
        Some(handle) => {
            assert(batches_of(q@) == batches_of(old(q)@).drop_first());
            Some(take_batch(handle))
        },
        None => None,
    }
}

/// Pushes a batch on the back of a queue of shared handles.
fn push_back(q: &mut VecDeque<Arc<GoniBatch>>, batch: GoniBatch)
    ensures
        batches_of(final(q)@) == batches_of(old(q)@).push(batch),
{
    q.push_back(Arc::new(batch));
    assert(batches_of(q@) == batches_of(old(q)@).push(batch));
}

/// In-memory MaxWeight scheduler.
pub struct InMemoryScheduler {
    interactive: VecDeque<Arc<GoniBatch>>,
    background: VecDeque<Arc<GoniBatch>>,
    maintenance: VecDeque<Arc<GoniBatch>>,
    weights: ClassWeights,
}

impl View for InMemoryScheduler {
    type V = QueuesView;

    closed spec fn view(&self) -> QueuesView {
        QueuesView {
            interactive: batches_of(self.interactive@),
            background: batches_of(self.background@),
            maintenance: batches_of(self.maintenance@),
        }
    }
}

impl InMemoryScheduler {
    /// The weights this scheduler dispatches by.
    pub closed spec fn weights(&self) -> ClassWeights {
        self.weights
    }

    /// An empty scheduler with the recommended weights.
    pub fn new() -> (s: InMemoryScheduler)
        ensures
            s@ == QueuesView::empty(),
            s.weights() == ClassWeights::recommended(),
    {
        let s = InMemoryScheduler {
            interactive: VecDeque::new(),
            background: VecDeque::new(),
            maintenance: VecDeque::new(),
            weights: ClassWeights { interactive: 1000, background: 10, maintenance: 1 },
        };
        assert(batches_of(s.interactive@) == Seq::<GoniBatch>::empty());
        assert(batches_of(s.background@) == Seq::<GoniBatch>::empty());
        assert(batches_of(s.maintenance@) == Seq::<GoniBatch>::empty());
        s
    }

    /// Number of batches queued for a class.
    pub fn queue_len(&self, class: TaskClass) -> (n: usize)
        ensures
            n == self@.queue(class).len(),
    {
        match class {
            TaskClass::Interactive => self.interactive.len(),
            TaskClass::Background => self.background.len(),
            TaskClass::Maintenance => self.maintenance.len(),
        }
    }
}

impl Scheduler for InMemoryScheduler {
    open spec fn queues(&self) -> QueuesView {
        self@
    }

    /// Every batch is admitted.
    open spec fn admits(&self, batch: GoniBatch) -> bool {
        true
    }

    /// No batch is refused, so there is nothing to say.
    open spec fn refusal(&self, batch: GoniBatch) -> Seq<char> {
        Seq::empty()
    }

    /// The class that MaxWeight serves.
    open spec fn serves(&self) -> Option<TaskClass> {
        max_weight_class(self@, self.weights())
    }

    /// Queues the batch behind the others of its class. Never refuses.
    fn submit(&mut self, batch: GoniBatch) -> (r: Result<(), SchedError>)
        ensures
            r.is_ok(),
            final(self)@ == old(self)@.enqueue(batch),
            final(self).weights() == old(self).weights(),
    {
        match batch.meta.class {
            TaskClass::Interactive => push_back(&mut self.interactive, batch),
            TaskClass::Background => push_back(&mut self.background, batch),
            TaskClass::Maintenance => push_back(&mut self.maintenance, batch),
        }
        proof {
            if old(self)@.by_class() {
                lemma_enqueue_keeps_by_class(old(self)@, batch);
            }
        }
        Ok(())
    }

    /// Dispatches the head of the class that MaxWeight serves: the
    /// non-empty class with the largest weight times queue length, the
    /// earliest in class order if several score the same. Returns `None`,
    /// without waiting, when all queues are empty.
    fn next(&mut self) -> (r: Option<GoniBatch>)
        ensures
            final(self).weights() == old(self).weights(),
            old(self).serves() matches Some(c) ==> max_weight_serves(
                old(self)@,
                old(self).weights(),
                c,
            ),
    {
        let li = self.interactive.len();
        let lb = self.background.len();
        let lm = self.maintenance.len();
        let si: u128 = weigh(self.weights.interactive, li);
        let sb: u128 = weigh(self.weights.background, lb);
        let sm: u128 = weigh(self.weights.maintenance, lm);
        let mut best: Option<TaskClass> = None;
        let mut best_score: u128 = 0;
        if li > 0 {
            best = Some(TaskClass::Interactive);
            best_score = si;
        }
        if lb > 0 && (best.is_none() || sb > best_score) {
            best = Some(TaskClass::Background);
            best_score = sb;
        }
        if lm > 0 && (best.is_none() || sm > best_score) {
            best = Some(TaskClass::Maintenance);
            best_score = sm;
        }
        let ghost q = self@;
        proof {
            lemma_max_weight_class(q, self.weights);
            assert(best == max_weight_class(q, self.weights));
        }
        match best {
            None => None,
            Some(class) => {
                let head = match class {
                    TaskClass::Interactive => pop_head(&mut self.interactive),
                    TaskClass::Background => pop_head(&mut self.background),
                    TaskClass::Maintenance => pop_head(&mut self.maintenance),
                };
                assert(head == Some(q.queue(class)[0]));
                assert(self@ == q.dequeue(class));
                proof {
                    if q.by_class() {
                        lemma_dequeue_keeps_by_class(q, class);
                    }
                }
                head
            },
        }
    }
}

/// A weight times a queue length, in a width that holds every product.
fn weigh(weight: u64, len: usize) -> (s: u128)
    ensures
        s == weight as int * len as int,
{
    assert(weight as int * len as int <= 0xffff_ffff_ffff_ffff * 0xffff_ffff_ffff_ffff)
        by (nonlinear_arith)
        requires
            0 <= weight as int <= 0xffff_ffff_ffff_ffff,
            0 <= len as int <= 0xffff_ffff_ffff_ffff,
    ;
    (weight as u128) * (len as u128)
}

/// Strict-priority scheduler with a work-in-progress ceiling per class.
/// Interactive work has no ceiling short of the machine word.
pub struct QoSScheduler {
    interactive: VecDeque<Arc<GoniBatch>>,
    background: VecDeque<Arc<GoniBatch>>,
    maintenance: VecDeque<Arc<GoniBatch>>,
    max_background: usize,
    max_maintenance: usize,
}

impl View for QoSScheduler {
    type V = QueuesView;

    closed spec fn view(&self) -> QueuesView {
        QueuesView {
            interactive: batches_of(self.interactive@),
            background: batches_of(self.background@),
            maintenance: batches_of(self.maintenance@),
        }
    }
}

impl QoSScheduler {
    /// The most batches that may be queued for a class.
    pub closed spec fn ceiling(&self, class: TaskClass) -> usize {
        match class {
            TaskClass::Interactive => usize::MAX,
            TaskClass::Background => self.max_background,
            TaskClass::Maintenance => self.max_maintenance,
        }
    }

    /// An empty scheduler with the given ceilings.
    pub fn new(max_background: usize, max_maintenance: usize) -> (s: QoSScheduler)
        ensures
            s@ == QueuesView::empty(),
            s.ceiling(TaskClass::Interactive) == usize::MAX,
            s.ceiling(TaskClass::Background) == max_background,
            s.ceiling(TaskClass::Maintenance) == max_maintenance,
    {
        let s = QoSScheduler {
            interactive: VecDeque::new(),
            background: VecDeque::new(),
            maintenance: VecDeque::new(),
            max_background,
            max_maintenance,
        };
        assert(batches_of(s.interactive@) == Seq::<GoniBatch>::empty());
        assert(batches_of(s.background@) == Seq::<GoniBatch>::empty());
        assert(batches_of(s.maintenance@) == Seq::<GoniBatch>::empty());
        s
    }

    /// Number of batches queued for a class.
    pub fn queue_len(&self, class: TaskClass) -> (n: usize)
        ensures
            n == self@.queue(class).len(),
    {
        match class {
            TaskClass::Interactive => self.interactive.len(),
            TaskClass::Background => self.background.len(),
            TaskClass::Maintenance => self.maintenance.len(),
        }
    }
}

impl Scheduler for QoSScheduler {
    open spec fn queues(&self) -> QueuesView {
        self@
    }

    /// A batch is admitted while its class is below its ceiling.
    open spec fn admits(&self, batch: GoniBatch) -> bool {
        self@.queue(batch.meta.class).len() < self.ceiling(batch.meta.class)
    }

    /// A batch whose class is at its ceiling is refused with
    /// `wip_limit_reached`.
    open spec fn refusal(&self, batch: GoniBatch) -> Seq<char> {
        "wip_limit_reached"@
    }

    /// The first non-empty class in class order.
    open spec fn serves(&self) -> Option<TaskClass> {
        self@.first_nonempty()
    }

    /// Queues the batch behind the others of its class, unless the class is
    /// at its ceiling: then the batch is refused with `wip_limit_reached`
    /// and the queues stay as they were.
    fn submit(&mut self, batch: GoniBatch) -> (r: Result<(), SchedError>)
        ensures
            forall|c: TaskClass| final(self).ceiling(c) == old(self).ceiling(c),
            r matches Err(e) ==> e.message@ == "wip_limit_reached"@,
    {
        let class = batch.meta.class;
        let limit = match class {
            TaskClass::Interactive => usize::MAX,
            TaskClass::Background => self.max_background,
            TaskClass::Maintenance => self.max_maintenance,
        };
        if self.queue_len(class) >= limit {
            return Err(SchedError { message: "wip_limit_reached".to_owned() });
        }
        match class {
            TaskClass::Interactive => push_back(&mut self.interactive, batch),
            TaskClass::Background => push_back(&mut self.background, batch),
            TaskClass::Maintenance => push_back(&mut self.maintenance, batch),
        }
        proof {
            if old(self)@.by_class() {
                lemma_enqueue_keeps_by_class(old(self)@, batch);
            }
        }
        Ok(())
    }

    /// Dispatches the head of the first non-empty queue in class order.
    /// Returns `None`, without waiting, when all queues are empty.
    fn next(&mut self) -> (r: Option<GoniBatch>)
        ensures
            forall|c: TaskClass| final(self).ceiling(c) == old(self).ceiling(c),
    {
        let ghost q = self@;
        let r = if self.interactive.len() > 0 {
            pop_head(&mut self.interactive)
        } else if self.background.len() > 0 {
            pop_head(&mut self.background)
        } else {
            pop_head(&mut self.maintenance)
        };
        proof {
            match q.first_nonempty() {
                Some(c) => {
                    assert(q.queue(c).len() > 0);
                    assert(self@ == q.dequeue(c));
                    if q.by_class() {
                        lemma_dequeue_keeps_by_class(q, c);
                    }
                },
                None => {},
            }
        }
        r
    }
}

/// MaxWeight serves at most one class: dispatch is a function of the queues
/// and the weights.
pub proof fn lemma_served_class_is_unique(
    q: QueuesView,
    w: ClassWeights,
    a: TaskClass,
    b: TaskClass,
)
    requires
        max_weight_serves(q, w, a),
        max_weight_serves(q, w, b),
    ensures
        a == b,
{
    assert(q.queue(a).len() > 0);
    assert(q.queue(b).len() > 0);
    if class_index(a) < class_index(b) {
        assert(score(q, w, a) < score(q, w, b));
    } else if class_index(b) < class_index(a) {
        assert(score(q, w, b) < score(q, w, a));
    }
}

/// Joining a queue keeps every batch in the queue of its own class.
pub proof fn lemma_enqueue_keeps_by_class(q: QueuesView, batch: GoniBatch)
    requires
        q.by_class(),
    ensures
        q.enqueue(batch).by_class(),
{
    let after = q.enqueue(batch);
    assert forall|c: TaskClass, i: int| 0 <= i < after.queue(c).len() implies (
    #[trigger] after.queue(c)[i]).meta.class == c by {
        if c == batch.meta.class {
            if i < q.queue(c).len() {
                assert(after.queue(c)[i] == q.queue(c)[i]);
            }
        } else {
            assert(after.queue(c) == q.queue(c));
            assert(after.queue(c)[i] == q.queue(c)[i]);
        }
    }
}

/// Leaving a queue keeps every batch in the queue of its own class.
pub proof fn lemma_dequeue_keeps_by_class(q: QueuesView, class: TaskClass)
    requires
        q.by_class(),
        q.queue(class).len() > 0,
    ensures
        q.dequeue(class).by_class(),
{
    let after = q.dequeue(class);
    assert forall|c: TaskClass, i: int| 0 <= i < after.queue(c).len() implies (
    #[trigger] after.queue(c)[i]).meta.class == c by {
        if c == class {
            assert(after.queue(c)[i] == q.queue(c)[i + 1]);
        } else {
            assert(after.queue(c) == q.queue(c));
            assert(after.queue(c)[i] == q.queue(c)[i]);
        }
    }
}

/// The batches of one class among a sequence of batches, in order.
pub open spec fn of_class(batches: Seq<GoniBatch>, class: TaskClass) -> Seq<GoniBatch>
    decreases batches.len(),
{
    if batches.len() == 0 {
        Seq::empty()
    } else if batches.last().meta.class == class {
        of_class(batches.drop_last(), class).push(batches.last())
    } else {
        of_class(batches.drop_last(), class)
    }
}

/// Each queue is first in, first out: after any sequence of admissions to
/// empty queues, the queue of a class holds the admitted batches of that
/// class in the order they were admitted, and a dispatch takes from the
/// front.
pub proof fn law_queues_keep_submission_order(batches: Seq<GoniBatch>, class: TaskClass)
    ensures
        QueuesView::empty().enqueue_all(batches).queue(class) == of_class(batches, class),
        QueuesView::empty().enqueue_all(batches).by_class(),
    decreases batches.len(),
{
    if batches.len() > 0 {
        let before = QueuesView::empty().enqueue_all(batches.drop_last());
        law_queues_keep_submission_order(batches.drop_last(), class);
        lemma_enqueue_keeps_by_class(before, batches.last());
        if batches.last().meta.class != class {
            assert(before.enqueue(batches.last()).queue(class) == before.queue(class));
        }
    } else {
        assert(QueuesView::empty().queue(class) == Seq::<GoniBatch>::empty());
    }
}

/// Queues that only ever received Background batches hold them, in order,
/// in the Background queue and nothing elsewhere.
pub proof fn lemma_background_backlog(backlog: Seq<GoniBatch>)
    requires
        forall|i: int| 0 <= i < backlog.len() ==> (#[trigger] backlog[i]).meta.class
            == TaskClass::Background,
    ensures
        QueuesView::empty().enqueue_all(backlog) == (QueuesView {
            interactive: Seq::empty(),
            background: backlog,
            maintenance: Seq::empty(),
        }),
    decreases backlog.len(),
{
    if backlog.len() > 0 {
        let front = backlog.drop_last();
        assert forall|i: int| 0 <= i < front.len() implies (#[trigger] front[i]).meta.class
            == TaskClass::Background by {
            assert(front[i] == backlog[i]);
        }
        lemma_background_backlog(front);
        assert(backlog.last().meta.class == TaskClass::Background);
        assert(front.push(backlog.last()) == backlog);
    } else {
        assert(backlog == Seq::<GoniBatch>::empty());
    }
}

/// With the recommended weights, an Interactive batch that joins empty
/// queues after a backlog of Background batches is the next one dispatched,
/// as long as the backlog is no longer than the ratio of the two weights,
/// 100 batches.
pub proof fn law_interactive_dispatched_after_background(
    backlog: Seq<GoniBatch>,
    batch: GoniBatch,
)
    requires
        forall|i: int| 0 <= i < backlog.len() ==> (#[trigger] backlog[i]).meta.class
            == TaskClass::Background,
        backlog.len() <= 100,
        batch.meta.class == TaskClass::Interactive,
    ensures
        ({
            let q = QueuesView::empty().enqueue_all(backlog).enqueue(batch);
            &&& max_weight_class(q, ClassWeights::recommended()) == Some(TaskClass::Interactive)
            &&& q.queue(TaskClass::Interactive)[0] == batch
        }),
{
    lemma_background_backlog(backlog);
    let q = QueuesView::empty().enqueue_all(backlog).enqueue(batch);
    let w = ClassWeights::recommended();
    assert(q.interactive == Seq::<GoniBatch>::empty().push(batch));
    assert(q.background == backlog);
    assert(q.maintenance.len() == 0);
    assert(score(q, w, TaskClass::Interactive) == 1000);
    assert(score(q, w, TaskClass::Background) == 10 * backlog.len());
}

} // verus!
