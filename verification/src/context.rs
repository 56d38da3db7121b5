//! Candidate chunks read out of a columnar batch, and the bookkeeping of a
//! token-budgeted greedy selection over them.

use vstd::prelude::*;
use vstd::string::StringExecFns;

use crate::columnar::{
    batch_columns, batch_rows, find_column, int32_cell, uint32_cell, utf8_cell, Column,
    ColumnBatch, ColumnData, ColumnKind,
};
use crate::text::{decimal, usize_to_decimal};
use crate::types::{ContextSelection, KvPageId};

verus! {

/// One candidate for the context window. The strings borrow from the batch
/// the chunk was read from; the embedding stays in the batch and is found
/// again by `row`: it is the `row`-th list of the embedding column.
#[derive(Clone, Copy, Debug)]
pub struct CandidateChunk<'a> {
    pub id: &'a str,
    pub text: Option<&'a str>,
    pub tokens: usize,
    pub row: usize,
}

/// A candidate chunk as plain values.
pub struct ChunkView {
    pub id: Seq<char>,
    pub text: Option<Seq<char>>,
    pub tokens: nat,
    pub row: nat,
}

impl<'a> View for CandidateChunk<'a> {
    type V = ChunkView;

    open spec fn view(&self) -> ChunkView {
        ChunkView {
            id: self.id@,
            text: match self.text {
                Some(t) => Some(t@),
                None => None,
            },
            tokens: self.tokens as nat,
            row: self.row as nat,
        }
    }
}

/// Why a batch could not be read as candidates.
#[derive(Debug)]
pub enum CandidateBuildError {
    MissingColumn(String),
    InvalidColumnType(String),
    EmbeddingDimMismatch { expected: usize, actual: usize },
}

/// A build error as plain values.
pub enum BuildErrorView {
    MissingColumn(Seq<char>),
    InvalidColumnType(Seq<char>),
    EmbeddingDimMismatch { expected: usize, actual: usize },
}

impl View for CandidateBuildError {
    type V = BuildErrorView;

    open spec fn view(&self) -> BuildErrorView {
        match self {
            CandidateBuildError::MissingColumn(name) => BuildErrorView::MissingColumn(name@),
            CandidateBuildError::InvalidColumnType(name) => BuildErrorView::InvalidColumnType(
                name@,
            ),
            CandidateBuildError::EmbeddingDimMismatch { expected, actual } =>
                BuildErrorView::EmbeddingDimMismatch { expected: *expected, actual: *actual },
        }
    }
}

impl CandidateBuildError {
    /// The message of this error.
    pub fn message(&self) -> (text: String)
        ensures
            text@ == self@.message(),
    {
        match self {
            CandidateBuildError::MissingColumn(name) => {
                let mut text = "missing column '".to_owned();
                text.append(name.as_str());
                text.append("'");
                text
            },
            CandidateBuildError::InvalidColumnType(name) => {
                let mut text = "invalid type for column '".to_owned();
                text.append(name.as_str());
                text.append("'");
                text
            },
            CandidateBuildError::EmbeddingDimMismatch { expected, actual } => {
                let mut text = "embedding dimension mismatch; expected ".to_owned();
                text.append(usize_to_decimal(*expected).as_str());
                text.append(", got ");
                text.append(usize_to_decimal(*actual).as_str());
                text
            },
        }
    }
}

impl BuildErrorView {
    /// The message of this error.
    pub open spec fn message(self) -> Seq<char> {
        match self {
            BuildErrorView::MissingColumn(name) => "missing column '"@ + name + "'"@,
            BuildErrorView::InvalidColumnType(name) => "invalid type for column '"@ + name + "'"@,
            BuildErrorView::EmbeddingDimMismatch { expected, actual } =>
                "embedding dimension mismatch; expected "@ + decimal(expected as nat) + ", got "@
                    + decimal(actual as nat),
        }
    }
}

/// The views of a sequence of chunks.
pub open spec fn chunk_views(chunks: Seq<CandidateChunk>) -> Seq<ChunkView> {
    chunks.map_values(|c: CandidateChunk| c@)
}

/// A list width as the unsigned machine word it is compared as: a negative
/// width wraps around.
pub open spec fn width_as_usize(width: i32) -> usize {
    if width >= 0 {
        width as usize
    } else {
        (usize::MAX + 1 + width) as usize
    }
}

/// The optional text column: the first column called `text`, if it holds
/// UTF-8 strings.
pub open spec fn text_column(columns: Seq<Column>) -> Option<int> {
    match find_column(columns, "text"@) {
        Some(i) => if columns[i].data is Utf8 {
            Some(i)
        } else {
            None
        },
        None => None,
    }
}

/// The chunk that one row yields, if it yields one: rows with a null id are
/// skipped, and so are rows of a signed token column whose count is not
/// positive.
pub open spec fn row_chunk(
    columns: Seq<Column>,
    id_col: int,
    text_col: Option<int>,
    tokens_col: int,
    row: int,
) -> Option<ChunkView> {
    match utf8_cell(columns, id_col, row) {
        None => None,
        Some(id) => {
            let text = match text_col {
                Some(t) => utf8_cell(columns, t, row),
                None => None,
            };
            match columns[tokens_col].data {
                ColumnData::Int32(_) => {
                    let v = int32_cell(columns, tokens_col, row);
                    if v <= 0 {
                        None
                    } else {
                        Some(ChunkView { id, text, tokens: v as nat, row: row as nat })
                    }
                },
                ColumnData::UInt32(_) => Some(
                    ChunkView {
                        id,
                        text,
                        tokens: uint32_cell(columns, tokens_col, row) as nat,
                        row: row as nat,
                    },
                ),
                _ => None,
            }
        },
    }
}

/// The chunks that the first `rows` rows yield, in row order.
pub open spec fn chunks_of_rows(
    columns: Seq<Column>,
    id_col: int,
    text_col: Option<int>,
    tokens_col: int,
    rows: nat,
) -> Seq<ChunkView>
    decreases rows,
{
    if rows == 0 {
        Seq::empty()
    } else {
        let before = chunks_of_rows(columns, id_col, text_col, tokens_col, (rows - 1) as nat);
        match row_chunk(columns, id_col, text_col, tokens_col, rows - 1) {
            Some(c) => before.push(c),
            None => before,
        }
    }
}

/// What reading a batch as candidates gives: the chunks, or the first
/// failure in this order: a missing id, token or embedding column; an id
/// column that is not UTF-8; an embedding column that is not a fixed-size
/// list of 32-bit floats; a list width other than `dim`; a token column that
/// is neither signed nor unsigned 32-bit.
pub open spec fn candidate_outcome(
    columns: Seq<Column>,
    rows: nat,
    id_col: Seq<char>,
    tokens_col: Seq<char>,
    embedding_col: Seq<char>,
    dim: usize,
) -> Result<Seq<ChunkView>, BuildErrorView> {
    match find_column(columns, id_col) {
        None => Err(BuildErrorView::MissingColumn(id_col)),
        Some(id_idx) => match find_column(columns, tokens_col) {
            None => Err(BuildErrorView::MissingColumn(tokens_col)),
            Some(tokens_idx) => match find_column(columns, embedding_col) {
                None => Err(BuildErrorView::MissingColumn(embedding_col)),
                Some(emb_idx) => if !(columns[id_idx].data is Utf8) {
                    Err(BuildErrorView::InvalidColumnType(id_col))
                } else {
                    match columns[emb_idx].data {
                        ColumnData::FixedSizeList { width, float32 } => if !float32 {
                            Err(BuildErrorView::InvalidColumnType(embedding_col))
                        } else if width < 0 || width != dim {
                            Err(
                                BuildErrorView::EmbeddingDimMismatch {
                                    expected: dim,
                                    actual: width_as_usize(width),
                                },
                            )
                        } else if !(columns[tokens_idx].data is Int32
                            || columns[tokens_idx].data is UInt32) {
                            Err(BuildErrorView::InvalidColumnType(tokens_col))
                        } else {
                            Ok(
                                chunks_of_rows(
                                    columns,
                                    id_idx,
                                    text_column(columns),
                                    tokens_idx,
                                    rows,
                                ),
                            )
                        },
                        _ => Err(BuildErrorView::InvalidColumnType(embedding_col)),
                    }
                },
            },
        },
    }
}

/// Reads a batch as candidate chunks without copying its strings.
///
/// `id_col` must name a UTF-8 column, `tokens_col` a signed or unsigned
/// 32-bit column and `embedding_col` a fixed-size list of 32-bit floats whose
/// width is `query_dim`, the length of the query embedding. A UTF-8 column
/// called `text`, if there is one, supplies the chunk texts.
pub fn record_batch_to_candidate_chunks<'a>(
    batch: &'a ColumnBatch,
    id_col: &str,
    tokens_col: &str,
    embedding_col: &str,
    query_dim: usize,
) -> (result: Result<Vec<CandidateChunk<'a>>, CandidateBuildError>)
    ensures
        match result {
            Ok(chunks) => candidate_outcome(
                batch_columns(*batch),
                batch_rows(*batch),
                id_col@,
                tokens_col@,
                embedding_col@,
                query_dim,
            ) == Ok::<Seq<ChunkView>, BuildErrorView>(chunk_views(chunks@)),
            Err(e) => candidate_outcome(
                batch_columns(*batch),
                batch_rows(*batch),
                id_col@,
                tokens_col@,
                embedding_col@,
                query_dim,
            ) == Err::<Seq<ChunkView>, BuildErrorView>(e@),
        },
{
    let ghost columns = batch_columns(*batch);
    let id_idx = match batch.index_of(id_col) {
        Some(i) => i,
        None => { return Err(CandidateBuildError::MissingColumn(id_col.to_owned())); },
    };
    let tokens_idx = match batch.index_of(tokens_col) {
        Some(i) => i,
        None => { return Err(CandidateBuildError::MissingColumn(tokens_col.to_owned())); },
    };
    let emb_idx = match batch.index_of(embedding_col) {
        Some(i) => i,
        None => { return Err(CandidateBuildError::MissingColumn(embedding_col.to_owned())); },
    };
    proof {
        lemma_find_column_in_range(columns, id_col@);
        lemma_find_column_in_range(columns, tokens_col@);
        lemma_find_column_in_range(columns, embedding_col@);
        lemma_find_column_in_range(columns, "text"@);
    }
    let text_idx: Option<usize> = match batch.index_of("text") {
        Some(i) => match batch.column_kind(i) {
            ColumnKind::Utf8 => Some(i),
            _ => None,
        },
        None => None,
    };
    match batch.column_kind(id_idx) {
        ColumnKind::Utf8 => {},
        _ => { return Err(CandidateBuildError::InvalidColumnType(id_col.to_owned())); },
    }
    let width: i32 = match batch.column_kind(emb_idx) {
        ColumnKind::FixedSizeList { width, float32 } => {
            if !float32 {
                return Err(CandidateBuildError::InvalidColumnType(embedding_col.to_owned()));
            }
            width
        },
        _ => { return Err(CandidateBuildError::InvalidColumnType(embedding_col.to_owned())); },
    };
    if width < 0 {
        let below: usize = (-(width + 1)) as usize;
        return Err(
            CandidateBuildError::EmbeddingDimMismatch {
                expected: query_dim,
                actual: usize::MAX - below,
            },
        );
    }
    if width as usize != query_dim {
        return Err(
            CandidateBuildError::EmbeddingDimMismatch {
                expected: query_dim,
                actual: width as usize,
            },
        );
    }
    let tokens_kind = batch.column_kind(tokens_idx);
    let signed: bool = match tokens_kind {
        ColumnKind::Int32 => true,
        ColumnKind::UInt32 => false,
        _ => { return Err(CandidateBuildError::InvalidColumnType(tokens_col.to_owned())); },
    };
    let ghost text_col: Option<int> = text_column(columns);
    assert(text_col == match text_idx {
        Some(t) => Some(t as int),
        None => None,
    });

    let num_rows = batch.num_rows();
    let mut chunks: Vec<CandidateChunk<'a>> = Vec::new();
    let mut row: usize = 0;
    while row < num_rows
        invariant
            row <= num_rows,
            num_rows == batch_rows(*batch),
            columns == batch_columns(*batch),
            id_idx < columns.len(),
            tokens_idx < columns.len(),
            columns[id_idx as int].data is Utf8,
            signed ==> columns[tokens_idx as int].data is Int32,
            !signed ==> columns[tokens_idx as int].data is UInt32,
            text_col == match text_idx {
                Some(t) => Some(t as int),
                None => None,
            },
            text_idx matches Some(t) ==> t < columns.len() && columns[t as int].data is Utf8,
            chunk_views(chunks@) == chunks_of_rows(
                columns,
                id_idx as int,
                text_col,
                tokens_idx as int,
                row as nat,
            ),
        decreases num_rows - row,
    {
        let ghost before = chunks@;
        let mut kept: Option<CandidateChunk<'a>> = None;
        if !batch.utf8_is_null(id_idx, row) {
            let id = batch.utf8_value(id_idx, row);
            let text: Option<&'a str> = match text_idx {
                Some(t) => if batch.utf8_is_null(t, row) {
                    None
                } else {
                    Some(batch.utf8_value(t, row))
                },
                None => None,
            };
            if signed {
                let v = batch.int32_value(tokens_idx, row);
                if v > 0 {
                    kept = Some(CandidateChunk { id, text, tokens: v as usize, row });
                }
            } else {
                let v = batch.uint32_value(tokens_idx, row);
                kept = Some(CandidateChunk { id, text, tokens: v as usize, row });
            }
        }
        assert(match kept {
            Some(c) => Some(c@),
            None => None,
        } == row_chunk(columns, id_idx as int, text_col, tokens_idx as int, row as int));
        match kept {
            Some(c) => {
                chunks.push(c);
                assert(chunk_views(chunks@) == chunk_views(before).push(c@));
            },
            None => {},
        }
        row = row + 1;
    }
    Ok(chunks)
}

/// `find_column` answers with a position inside the sequence, whose column
/// has the name asked for.
pub proof fn lemma_find_column_in_range(columns: Seq<Column>, name: Seq<char>)
    ensures
        find_column(columns, name) matches Some(i) ==> 0 <= i < columns.len() && columns[i].name
            == name,
    decreases columns.len(),
{
    if columns.len() > 0 {
        lemma_find_column_in_range(columns.drop_last(), name);
    }
}

/// Failure of a pager.
#[derive(Debug)]
pub struct KvError {
    pub message: String,
}

/// Keeps pages of key-value cache resident on the device.
pub trait KvPager {
    /// Makes sure these pages are resident on the device.
    fn ensure_resident(&self, pages: &[KvPageId]) -> Result<(), KvError>;

    /// Takes note of newly created pages and names the pages to evict.
    fn on_new_pages(&self, new_pages: &[KvPageId]) -> Result<Vec<KvPageId>, KvError>;

    /// Takes note of the pages touched by the last forward pass.
    fn report_access(&self, accessed: &[KvPageId]) -> Result<(), KvError>;
}

/// A pager that does nothing and never evicts.
#[derive(Clone, Copy, Debug)]
pub struct NullKvPager;

impl KvPager for NullKvPager {
    fn ensure_resident(&self, pages: &[KvPageId]) -> (r: Result<(), KvError>)
        ensures
            r.is_ok(),
    {
        Ok(())
    }

    fn on_new_pages(&self, new_pages: &[KvPageId]) -> (r: Result<Vec<KvPageId>, KvError>)
        ensures
            r matches Ok(evict) && evict@.len() == 0,
    {
        Ok(Vec::new())
    }

    fn report_access(&self, accessed: &[KvPageId]) -> (r: Result<(), KvError>)
        ensures
            r.is_ok(),
    {
        Ok(())
    }
}

/// The state of a greedy selection as plain values.
pub struct SelectionView {
    /// Token count of each candidate.
    pub tokens: Seq<usize>,
    /// Which candidates have been picked.
    pub selected: Seq<bool>,
    /// The picked candidates, in picking order.
    pub indices: Seq<u32>,
    /// What is left of the budget.
    pub remaining: nat,
    /// The budget the selection started with.
    pub budget: nat,
}

/// The tokens that a sequence of picks costs.
pub open spec fn spent(tokens: Seq<usize>, indices: Seq<u32>) -> nat
    decreases indices.len(),
{
    if indices.len() == 0 {
        0
    } else {
        spent(tokens, indices.drop_last()) + tokens[indices.last() as int] as nat
    }
}

impl SelectionView {
    /// The invariant of a selection: every pick is a candidate, no candidate
    /// is picked twice, the mask marks exactly the picks, and what was spent
    /// plus what remains is the budget.
    pub open spec fn wf(self) -> bool {
        &&& self.selected.len() == self.tokens.len()
        &&& self.tokens.len() <= u32::MAX
        &&& forall|k: int| 0 <= k < self.indices.len() ==> (#[trigger] self.indices[k] as int)
            < self.tokens.len()
        &&& forall|k: int, l: int|
            0 <= k < l < self.indices.len() ==> self.indices[k] != self.indices[l]
        &&& forall|j: int|
            0 <= j < self.tokens.len() ==> (#[trigger] self.selected[j]
                <==> self.indices.contains(j as u32))
        &&& spent(self.tokens, self.indices) + self.remaining == self.budget
    }

    /// Whether candidate `j` may be picked now: it is a candidate, it has
    /// not been picked, budget is left and its tokens fit in it.
    pub open spec fn eligible(self, j: int) -> bool {
        &&& 0 <= j < self.tokens.len()
        &&& !self.selected[j]
        &&& self.remaining > 0
        &&& self.tokens[j] <= self.remaining
    }

    /// Whether `j` is the pick of a round with these gains: it is eligible,
    /// its gain is positive, no eligible candidate gains more, and none
    /// before it gains as much.
    pub open spec fn is_best(self, gains: Seq<u32>, j: int) -> bool {
        &&& self.eligible(j)
        &&& gains[j] > 0
        &&& forall|k: int| #[trigger] self.eligible(k) ==> gains[k] <= gains[j]
        &&& forall|k: int| #[trigger] self.eligible(k) && k < j ==> gains[k] < gains[j]
    }

    /// Whether a round with these gains picks nothing: no eligible
    /// candidate has a positive gain.
    pub open spec fn no_pick(self, gains: Seq<u32>) -> bool {
        forall|k: int| #[trigger] self.eligible(k) ==> gains[k] == 0
    }

    /// Whether a round with these gains answers `picked` and leaves `after`:
    /// either `picked` is the pick of the round and `after` the state with
    /// it picked, or the round picks nothing and the state stays.
    pub open spec fn round(self, gains: Seq<u32>, picked: Option<int>, after: SelectionView) -> bool {
        match picked {
            Some(j) => self.is_best(gains, j) && after == self.pick(j),
            None => self.no_pick(gains) && after == self,
        }
    }

    /// The state after picking candidate `j`.
    pub open spec fn pick(self, j: int) -> SelectionView {
        SelectionView {
            tokens: self.tokens,
            selected: self.selected.update(j, true),
            indices: self.indices.push(j as u32),
            remaining: (self.remaining - self.tokens[j]) as nat,
            budget: self.budget,
        }
    }
}

/// A greedy selection under a token budget, one round at a time.
///
/// Each round the caller scores the candidates and hands the scores to
/// `step`, which picks the best candidate that still fits. A score is an
/// ordered key: zero stands for a gain that is not positive, and a larger
/// key for a larger gain.
pub struct GreedySelection {
    tokens: Vec<usize>,
    selected: Vec<bool>,
    indices: Vec<u32>,
    remaining: usize,
    budget: usize,
}

impl View for GreedySelection {
    type V = SelectionView;

    closed spec fn view(&self) -> SelectionView {
        SelectionView {
            tokens: self.tokens@,
            selected: self.selected@,
            indices: self.indices@,
            remaining: self.remaining as nat,
            budget: self.budget as nat,
        }
    }
}

impl GreedySelection {
    /// A selection over candidates with these token counts, with nothing
    /// picked yet.
    pub fn new(tokens: Vec<usize>, budget: usize) -> (s: GreedySelection)
        requires
            tokens.len() <= u32::MAX,
        ensures
            s@.wf(),
            s@.tokens == tokens@,
            s@.selected == Seq::new(tokens.len() as nat, |j: int| false),
            s@.indices == Seq::<u32>::empty(),
            s@.remaining == budget,
            s@.budget == budget,
    {
        let n = tokens.len();
        let mut selected: Vec<bool> = Vec::new();
        let mut j: usize = 0;
        while j < n
            invariant
                j <= n,
                selected@ == Seq::new(j as nat, |k: int| false),
            decreases n - j,
        {
            selected.push(false);
            j = j + 1;
        }
        GreedySelection { tokens, selected, indices: Vec::new(), remaining: budget, budget }
    }

    /// Number of candidates.
    pub fn len(&self) -> (n: usize)
        ensures
            n == self@.tokens.len(),
    {
        self.tokens.len()
    }

    /// What is left of the budget.
    pub fn remaining_tokens(&self) -> (r: usize)
        ensures
            r == self@.remaining,
    {
        self.remaining
    }

    /// Whether candidate `j` may be picked now.
    pub fn is_eligible(&self, j: usize) -> (e: bool)
        requires
            self@.wf(),
        ensures
            e == self@.eligible(j as int),
    {
        j < self.tokens.len() && !self.selected[j] && self.remaining > 0 && self.tokens[j]
            <= self.remaining
    }

    /// One round: picks the eligible candidate with the largest positive
    /// gain, the first of them if several gain the same, and debits its
    /// tokens. Returns `None`, and changes nothing, when no eligible
    /// candidate has a positive gain; that is so once the budget is used up.
    pub fn step(&mut self, gains: &[u32]) -> (picked: Option<usize>)
        requires
            old(self)@.wf(),
            gains@.len() == old(self)@.tokens.len(),
        ensures
            final(self)@.wf(),
            old(self)@.round(
                gains@,
                match picked {
                    Some(j) => Some(j as int),
                    None => None,
                },
                final(self)@,
            ),
    {
        let n = self.tokens.len();
        let mut best: Option<usize> = None;
        let mut best_gain: u32 = 0;
        let mut j: usize = 0;
        while j < n
            invariant
                j <= n,
                n == self@.tokens.len(),
                gains@.len() == n,
                self@.wf(),
                self@ == old(self)@,
                best matches Some(b) ==> b < j && self@.eligible(b as int) && gains@[b as int]
                    == best_gain && best_gain > 0,
                best is None ==> best_gain == 0,
                forall|k: int| 0 <= k < j && #[trigger] self@.eligible(k) ==> gains@[k] <= best_gain,
                best matches Some(b) ==> forall|k: int|
                    0 <= k < b && #[trigger] self@.eligible(k) ==> gains@[k] < best_gain,
            decreases n - j,
        {
            if self.is_eligible(j) && gains[j] > best_gain {
                best_gain = gains[j];
                best = Some(j);
            }
            j = j + 1;
        }
        match best {
            Some(b) => {
                proof {
                    lemma_pick_keeps_wf(self@, b as int);
                }
                self.selected.set(b, true);
                self.indices.push(b as u32);
                self.remaining = self.remaining - self.tokens[b];
                Some(b)
            },
            None => None,
        }
    }

    /// The selection so far: the picks in picking order and their total
    /// token count, which never exceeds the budget.
    pub fn selection(&self) -> (sel: ContextSelection)
        requires
            self@.wf(),
        ensures
            sel.indices@ == self@.indices,
            sel.total_tokens == spent(self@.tokens, self@.indices),
            sel.total_tokens <= self@.budget,
    {
        ContextSelection {
            indices: self.indices.clone(),
            total_tokens: self.budget - self.remaining,
        }
    }
}

/// Picking an eligible candidate keeps the invariant of a selection.
pub proof fn lemma_pick_keeps_wf(s: SelectionView, j: int)
    requires
        s.wf(),
        s.eligible(j),
    ensures
        s.pick(j).wf(),
{
    let t = s.pick(j);
    assert(!s.indices.contains(j as u32));
    assert(t.indices.drop_last() == s.indices);
    assert forall|k: int, l: int| 0 <= k < l < t.indices.len() implies t.indices[k]
        != t.indices[l] by {
        if l == s.indices.len() {
            assert(s.indices.contains(s.indices[k]));
        }
    }
    assert forall|i: int| 0 <= i < t.tokens.len() implies (#[trigger] t.selected[i]
        <==> t.indices.contains(i as u32)) by {
        if i == j {
            assert(t.indices[s.indices.len() as int] == j as u32);
        } else {
            if s.indices.contains(i as u32) {
                let k = choose|k: int| 0 <= k < s.indices.len() && s.indices[k] == i as u32;
                assert(t.indices[k] == i as u32);
            }
            if t.indices.contains(i as u32) {
                let k = choose|k: int| 0 <= k < t.indices.len() && t.indices[k] == i as u32;
                assert(k < s.indices.len());
                assert(s.indices[k] == i as u32);
            }
        }
    }
}

/// A round is a function of the state and the gains: the same state and
/// the same gains give the same pick and the same state after it.
pub proof fn law_round_is_deterministic(
    s: SelectionView,
    gains: Seq<u32>,
    picked1: Option<int>,
    after1: SelectionView,
    picked2: Option<int>,
    after2: SelectionView,
)
    requires
        s.round(gains, picked1, after1),
        s.round(gains, picked2, after2),
    ensures
        picked1 == picked2,
        after1 == after2,
{
}

/// Whatever was picked, the tokens of the picks never exceed the budget, no
/// candidate is picked twice, and every pick is a candidate.
pub proof fn law_selection_within_budget(s: SelectionView)
    requires
        s.wf(),
    ensures
        spent(s.tokens, s.indices) <= s.budget,
        forall|k: int, l: int| 0 <= k < l < s.indices.len() ==> s.indices[k] != s.indices[l],
        forall|k: int| 0 <= k < s.indices.len() ==> (#[trigger] s.indices[k] as int)
            < s.tokens.len(),
{
}

} // verus!
