//! The data plane as far as it can be decided without talking to a backend:
//! the planes that hold nothing, the in-memory spine tables, the rule that
//! routes an append to the retrieval backend, and the checks that the
//! retrieval backend makes on what it sends and receives.

use vstd::prelude::*;
use vstd::string::StringExecFns;

use crate::columnar::{
    batch_columns, batch_rows, find_column, uint32_cell, utf8_cell, Column, ColumnBatch,
    ColumnKind,
};
use crate::context::lemma_find_column_in_range;
use crate::text::str_eq;

verus! {

/// Failure of a data plane.
#[derive(Debug)]
pub struct DataError {
    pub message: String,
}

impl DataError {
    /// An error with the given message.
    fn of(message: &str) -> (e: DataError)
        ensures
            e.message@ == message@,
    {
        DataError { message: message.to_owned() }
    }
}

/// A data plane that holds nothing.
#[derive(Clone, Copy, Debug)]
pub struct NullDataPlane;

impl NullDataPlane {
    /// No batches, whatever the query.
    pub fn query(&self, sql: &str) -> (r: Result<Vec<ColumnBatch>, DataError>)
        ensures
            r matches Ok(batches) && batches@.len() == 0,
    {
        Ok(Vec::new())
    }

    /// Accepts the batches and drops them.
    pub fn append_batches(&self, table: &str, batches: Vec<ColumnBatch>) -> (r: Result<
        (),
        DataError,
    >)
        ensures
            r.is_ok(),
    {
        Ok(())
    }

    /// Always fails: this plane has no retrieval.
    pub fn rag_candidates(&self, collection: &str, top_k: usize) -> (r: Result<
        ColumnBatch,
        DataError,
    >)
        ensures
            r matches Err(e) && e.message@ == "NullDataPlane has no RAG"@,
    {
        Err(DataError::of("NullDataPlane has no RAG"))
    }
}

/// Whether a batch has the shape of a retrieval ingest: columns called
/// `id`, `text` and `tokens`, and none called `row_id`.
pub open spec fn rag_shaped(columns: Seq<Column>) -> bool {
    &&& find_column(columns, "id"@).is_some()
    &&& find_column(columns, "text"@).is_some()
    &&& find_column(columns, "tokens"@).is_some()
    &&& find_column(columns, "row_id"@).is_none()
}

/// Whether a batch has the shape of a retrieval ingest.
pub fn looks_like_rag_ingest(batch: &ColumnBatch) -> (r: bool)
    ensures
        r == rag_shaped(batch_columns(*batch)),
{
    batch.index_of("id").is_some() && batch.index_of("text").is_some() && batch.index_of(
        "tokens",
    ).is_some() && batch.index_of("row_id").is_none()
}

/// Whether an append goes to the retrieval backend rather than to the
/// spine: it does if any of its batches has the shape of a retrieval ingest.
pub fn routes_to_rag(batches: &Vec<ColumnBatch>) -> (r: bool)
    ensures
        r == exists|i: int|
            0 <= i < batches@.len() && rag_shaped(#[trigger] batch_columns(batches@[i])),
{
    let mut i: usize = 0;
    while i < batches.len()
        invariant
            i <= batches.len(),
            forall|k: int| 0 <= k < i ==> !rag_shaped(#[trigger] batch_columns(batches@[k])),
        decreases batches.len() - i,
    {
        if looks_like_rag_ingest(&batches[i]) {
            return true;
        }
        i = i + 1;
    }
    false
}

/// One spine table: its name and the batches appended to it, oldest first.
pub struct SpineTable {
    pub name: String,
    pub batches: Vec<ColumnBatch>,
}

/// The batches of the first table called `name` among the first `n`.
pub open spec fn lookup(tables: Seq<SpineTable>, name: Seq<char>, n: int) -> Option<int>
    decreases n,
{
    if n <= 0 {
        None
    } else {
        match lookup(tables, name, n - 1) {
            Some(i) => Some(i),
            None => if tables[n - 1].name@ == name {
                Some(n - 1)
            } else {
                None
            },
        }
    }
}

/// A table found among the first `n` is found among any more, at the same
/// place; and a place that is found lies among the first `n` and bears the
/// name.
pub proof fn lemma_lookup(tables: Seq<SpineTable>, name: Seq<char>, n: int, m: int)
    requires
        0 <= n <= m,
    ensures
        lookup(tables, name, n) matches Some(i) ==> 0 <= i < n && tables[i].name@ == name
            && lookup(tables, name, m) == Some(i),
        lookup(tables, name, m) is None ==> lookup(tables, name, n) is None,
    decreases m,
{
    if n > 0 {
        lemma_lookup(tables, name, n - 1, n - 1);
    }
    if n < m {
        lemma_lookup(tables, name, n, m - 1);
    }
}

/// Append-only tables kept in memory. Nothing is durable, and there are no
/// queries.
pub struct InMemorySpineDataPlane {
    tables: Vec<SpineTable>,
}

impl InMemorySpineDataPlane {
    /// The batches appended to a table so far, oldest first; none for a
    /// table that was never appended to.
    pub closed spec fn table(&self, name: Seq<char>) -> Seq<ColumnBatch> {
        match lookup(self.tables@, name, self.tables@.len() as int) {
            Some(i) => self.tables@[i].batches@,
            None => Seq::empty(),
        }
    }

    /// A plane without tables.
    pub fn new() -> (plane: InMemorySpineDataPlane)
        ensures
            forall|name: Seq<char>| #[trigger] plane.table(name) == Seq::<ColumnBatch>::empty(),
    {
        InMemorySpineDataPlane { tables: Vec::new() }
    }

    /// Position of the table called `name`, if there is one.
    fn position(&self, name: &str) -> (r: Option<usize>)
        ensures
            match r {
                Some(i) => lookup(self.tables@, name@, self.tables@.len() as int) == Some(
                    i as int,
                ) && i < self.tables@.len(),
                None => lookup(self.tables@, name@, self.tables@.len() as int).is_none(),
            },
    {
        let mut i: usize = 0;
        while i < self.tables.len()
            invariant
                i <= self.tables.len(),
                lookup(self.tables@, name@, i as int).is_none(),
            decreases self.tables.len() - i,
        {
            if str_eq(self.tables[i].name.as_str(), name) {
                proof {
                    assert(lookup(self.tables@, name@, i as int + 1) == Some(i as int));
                    lemma_lookup(self.tables@, name@, i as int + 1, self.tables@.len() as int);
                }
                return Some(i);
            }
            i = i + 1;
        }
        None
    }

    /// The batches appended to a table so far, oldest first.
    pub fn get_table(&self, table: &str) -> (batches: Vec<ColumnBatch>)
        ensures
            batches@ == self.table(table@),
    {
        match self.position(table) {
            Some(i) => {
                let stored = &self.tables[i].batches;
                let mut batches: Vec<ColumnBatch> = Vec::new();
                let mut k: usize = 0;
                while k < stored.len()
                    invariant
                        k <= stored.len(),
                        batches@ == stored@.take(k as int),
                    decreases stored.len() - k,
                {
                    batches.push(stored[k].clone());
                    assert(stored@.take(k as int + 1) == stored@.take(k as int).push(
                        stored@[k as int],
                    ));
                    k = k + 1;
                }
                assert(stored@.take(k as int) == stored@);
                batches
            },
            None => Vec::new(),
        }
    }

    /// Always fails: this plane has no queries.
    pub fn query(&self, sql: &str) -> (r: Result<Vec<ColumnBatch>, DataError>)
        ensures
            r matches Err(e) && e.message@
                == "InMemorySpineDataPlane does not support SQL queries"@,
    {
        Err(DataError::of("InMemorySpineDataPlane does not support SQL queries"))
    }

    /// Appends batches to a table, which comes into being with its first
    /// append. No other table changes. Never fails.
    pub fn append_batches(&mut self, table: &str, batches: Vec<ColumnBatch>) -> (r: Result<
        (),
        DataError,
    >)
        ensures
            r.is_ok(),
            final(self).table(table@) == old(self).table(table@) + batches@,
            forall|other: Seq<char>|
                other != table@ ==> #[trigger] final(self).table(other) == old(self).table(other),
    {
        let ghost before = self.tables@;
        let mut batches = batches;
        match self.position(table) {
            Some(i) => {
                let mut entry = self.tables.remove(i);
                entry.batches.append(&mut batches);
                self.tables.insert(i, entry);
                proof {
                    let after = self.tables@;
                    assert(after.len() == before.len());
                    assert forall|k: int| 0 <= k < after.len() implies (#[trigger] after[k]).name
                        == before[k].name by {}
                    assert forall|k: int| 0 <= k < after.len() && k != i implies #[trigger] after[k]
                        == before[k] by {}
                    lemma_lookup_by_names(before, after, table@, after.len() as int);
                    assert forall|other: Seq<char>| other != table@ implies #[trigger] self.table(
                        other,
                    ) == old(self).table(other) by {
                        lemma_lookup_by_names(before, after, other, after.len() as int);
                        lemma_lookup(before, other, before.len() as int, before.len() as int);
                        lemma_lookup(before, table@, before.len() as int, before.len() as int);
                        match lookup(before, other, before.len() as int) {
                            Some(j) => {
                                assert(j != i);
                                assert(after[j] == before[j]);
                            },
                            None => {},
                        }
                    }
                }
            },
            None => {
                self.tables.push(SpineTable { name: table.to_owned(), batches });
                proof {
                    let after = self.tables@;
                    let n = before.len() as int;
                    lemma_lookup_prefix(before, after, table@, n);
                    assert(lookup(after, table@, n + 1) == Some(n));
                    assert(Seq::<ColumnBatch>::empty() + after[n].batches@ == after[n].batches@);
                    assert forall|other: Seq<char>| other != table@ implies #[trigger] self.table(
                        other,
                    ) == old(self).table(other) by {
                        lemma_lookup_prefix(before, after, other, n);
                        lemma_lookup(before, other, n, n);
                        assert(after[n].name@ == table@);
                        assert(lookup(after, other, n + 1) == lookup(after, other, n));
                    }
                }
            },
        }
        Ok(())
    }

    /// Always fails: this plane has no retrieval.
    pub fn rag_candidates(&self, collection: &str, top_k: usize) -> (r: Result<
        ColumnBatch,
        DataError,
    >)
        ensures
            r matches Err(e) && e.message@ == "InMemorySpineDataPlane has no RAG"@,
    {
        Err(DataError::of("InMemorySpineDataPlane has no RAG"))
    }
}

/// Two table lists that bear the same names in the same places find a name
/// at the same place.
pub proof fn lemma_lookup_by_names(
    a: Seq<SpineTable>,
    b: Seq<SpineTable>,
    name: Seq<char>,
    n: int,
)
    requires
        0 <= n <= a.len(),
        a.len() == b.len(),
        forall|k: int| 0 <= k < a.len() ==> (#[trigger] b[k]).name == a[k].name,
    ensures
        lookup(a, name, n) == lookup(b, name, n),
    decreases n,
{
    if n > 0 {
        lemma_lookup_by_names(a, b, name, n - 1);
    }
}

/// A table list that extends another finds a name among the first `n` where
/// the other does.
pub proof fn lemma_lookup_prefix(a: Seq<SpineTable>, b: Seq<SpineTable>, name: Seq<char>, n: int)
    requires
        0 <= n <= a.len() <= b.len(),
        forall|k: int| 0 <= k < a.len() ==> #[trigger] b[k] == a[k],
    ensures
        lookup(a, name, n) == lookup(b, name, n),
    decreases n,
{
    if n > 0 {
        lemma_lookup_prefix(a, b, name, n - 1);
    }
}

/// Where a collection of the retrieval backend at `base_url` is searched.
pub fn search_url(base_url: &str, collection: &str) -> (url: String)
    ensures
        url@ == base_url@ + "/collections/"@ + collection@ + "/points/search"@,
{
    let mut url = base_url.to_owned();
    url.append("/collections/");
    url.append(collection);
    url.append("/points/search");
    url
}

/// Where points are written to a collection of the retrieval backend at
/// `base_url`, waiting for the write to land.
pub fn upsert_url(base_url: &str, collection: &str) -> (url: String)
    ensures
        url@ == base_url@ + "/collections/"@ + collection@ + "/points?wait=true"@,
{
    let mut url = base_url.to_owned();
    url.append("/collections/");
    url.append(collection);
    url.append("/points?wait=true");
    url
}

/// The token count that a search result carries: the low 32 bits of the
/// number in its payload, or zero if the payload holds no such number.
pub fn payload_tokens(value: Option<u64>) -> (tokens: u32)
    ensures
        tokens == match value {
            Some(v) => v % 0x1_0000_0000,
            None => 0,
        },
{
    match value {
        Some(v) => (v % 0x1_0000_0000) as u32,
        None => 0,
    }
}

/// The width shared by the embeddings of a search result: all must be as
/// long as the first, and not empty.
pub open spec fn shared_width(widths: Seq<usize>) -> Result<usize, Seq<char>> {
    if exists|k: int| 0 <= k < widths.len() && #[trigger] widths[k] != widths[0] {
        Err("embedding dimension mismatch across results"@)
    } else if widths.len() == 0 || widths[0] == 0 {
        Err("qdrant returned no embeddings"@)
    } else {
        Ok(widths[0])
    }
}

/// The width shared by the embeddings of a search result, given the length
/// of each.
pub fn result_width(widths: &[usize]) -> (r: Result<usize, DataError>)
    ensures
        match r {
            Ok(w) => shared_width(widths@) == Ok::<usize, Seq<char>>(w),
            Err(e) => shared_width(widths@) == Err::<usize, Seq<char>>(e.message@),
        },
{
    let mut k: usize = 0;
    while k < widths.len()
        invariant
            k <= widths.len(),
            forall|j: int| 0 <= j < k ==> #[trigger] widths@[j] == widths@[0],
        decreases widths.len() - k,
    {
        if widths[k] != widths[0] {
            return Err(DataError::of("embedding dimension mismatch across results"));
        }
        k = k + 1;
    }
    if widths.len() == 0 || widths[0] == 0 {
        return Err(DataError::of("qdrant returned no embeddings"));
    }
    Ok(widths[0])
}

/// One row to be sent to the retrieval backend.
#[derive(Clone, Copy, Debug)]
pub struct IngestRow<'a> {
    pub id: &'a str,
    pub text: &'a str,
    pub tokens: u32,
}

/// An ingest row as plain values.
pub struct IngestRowView {
    pub id: Seq<char>,
    pub text: Seq<char>,
    pub tokens: u32,
}

impl<'a> View for IngestRow<'a> {
    type V = IngestRowView;

    open spec fn view(&self) -> IngestRowView {
        IngestRowView { id: self.id@, text: self.text@, tokens: self.tokens }
    }
}

/// The views of a sequence of ingest rows.
pub open spec fn ingest_views(rows: Seq<IngestRow>) -> Seq<IngestRowView> {
    rows.map_values(|r: IngestRow| r@)
}

/// The ingest rows that the first `rows` rows of a batch yield: a row whose
/// id or text is null is skipped.
pub open spec fn ingest_of_rows(
    columns: Seq<Column>,
    id_col: int,
    text_col: int,
    tokens_col: int,
    rows: nat,
) -> Seq<IngestRowView>
    decreases rows,
{
    if rows == 0 {
        Seq::empty()
    } else {
        let before = ingest_of_rows(columns, id_col, text_col, tokens_col, (rows - 1) as nat);
        match (utf8_cell(columns, id_col, rows - 1), utf8_cell(columns, text_col, rows - 1)) {
            (Some(id), Some(text)) => before.push(
                IngestRowView { id, text, tokens: uint32_cell(columns, tokens_col, rows - 1) },
            ),
            _ => before,
        }
    }
}

/// What reading a batch for ingest gives: the rows, or the message of the
/// first failure in this order: a missing `id`, `text` or `tokens` column;
/// an `id` or `text` column that is not UTF-8; a `tokens` column that is not
/// unsigned 32-bit.
pub open spec fn ingest_outcome(columns: Seq<Column>, rows: nat) -> Result<
    Seq<IngestRowView>,
    Seq<char>,
> {
    match find_column(columns, "id"@) {
        None => Err("missing id column"@),
        Some(id_idx) => match find_column(columns, "text"@) {
            None => Err("missing text column"@),
            Some(text_idx) => match find_column(columns, "tokens"@) {
                None => Err("missing tokens column"@),
                Some(tokens_idx) => if !(columns[id_idx].data is Utf8) {
                    Err("id column not utf8"@)
                } else if !(columns[text_idx].data is Utf8) {
                    Err("text column not utf8"@)
                } else if !(columns[tokens_idx].data is UInt32) {
                    Err("tokens column not u32"@)
                } else {
                    Ok(ingest_of_rows(columns, id_idx, text_idx, tokens_idx, rows))
                },
            },
        },
    }
}

/// Reads a batch as rows to ingest, without copying its strings.
pub fn ingest_rows<'a>(batch: &'a ColumnBatch) -> (r: Result<Vec<IngestRow<'a>>, DataError>)
    ensures
        match r {
            Ok(rows) => ingest_outcome(batch_columns(*batch), batch_rows(*batch)) == Ok::<
                Seq<IngestRowView>,
                Seq<char>,
            >(ingest_views(rows@)),
            Err(e) => ingest_outcome(batch_columns(*batch), batch_rows(*batch)) == Err::<
                Seq<IngestRowView>,
                Seq<char>,
            >(e.message@),
        },
{
    let ghost columns = batch_columns(*batch);
    let id_idx = match batch.index_of("id") {
        Some(i) => i,
        None => { return Err(DataError::of("missing id column")); },
    };
    let text_idx = match batch.index_of("text") {
        Some(i) => i,
        None => { return Err(DataError::of("missing text column")); },
    };
    let tokens_idx = match batch.index_of("tokens") {
        Some(i) => i,
        None => { return Err(DataError::of("missing tokens column")); },
    };
    proof {
        lemma_find_column_in_range(columns, "id"@);
        lemma_find_column_in_range(columns, "text"@);
        lemma_find_column_in_range(columns, "tokens"@);
    }
    match batch.column_kind(id_idx) {
        ColumnKind::Utf8 => {},
        _ => { return Err(DataError::of("id column not utf8")); },
    }
    match batch.column_kind(text_idx) {
        ColumnKind::Utf8 => {},
        _ => { return Err(DataError::of("text column not utf8")); },
    }
    match batch.column_kind(tokens_idx) {
        ColumnKind::UInt32 => {},
        _ => { return Err(DataError::of("tokens column not u32")); },
    }
    let num_rows = batch.num_rows();
    let mut rows: Vec<IngestRow<'a>> = Vec::new();
    let mut row: usize = 0;
    while row < num_rows
        invariant
            row <= num_rows,
            num_rows == batch_rows(*batch),
            columns == batch_columns(*batch),
            id_idx < columns.len(),
            text_idx < columns.len(),
            tokens_idx < columns.len(),
            columns[id_idx as int].data is Utf8,
            columns[text_idx as int].data is Utf8,
            columns[tokens_idx as int].data is UInt32,
            ingest_views(rows@) == ingest_of_rows(
                columns,
                id_idx as int,
                text_idx as int,
                tokens_idx as int,
                row as nat,
            ),
        decreases num_rows - row,
    {
        let ghost before = rows@;
        if !batch.utf8_is_null(id_idx, row) && !batch.utf8_is_null(text_idx, row) {
            let kept = IngestRow {
                id: batch.utf8_value(id_idx, row),
                text: batch.utf8_value(text_idx, row),
                tokens: batch.uint32_value(tokens_idx, row),
            };
            rows.push(kept);
            assert(ingest_views(rows@) == ingest_views(before).push(kept@));
        }
        row = row + 1;
    }
    Ok(rows)
}

} // verus!
