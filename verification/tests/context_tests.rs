use std::sync::Arc;

use arrow::array::{ArrayRef, FixedSizeListArray, Float32Array, Int32Array, StringArray, UInt32Array};
use arrow::datatypes::{DataType, Field, Schema};
use arrow::record_batch::RecordBatch;
use goni_kernel::columnar::ColumnBatch;
use goni_kernel::context::{
    record_batch_to_candidate_chunks, CandidateBuildError, GreedySelection, KvPager, NullKvPager,
};
use goni_kernel::types::{ContextSelection, KvPageId};

fn embedding_column(values: Vec<f32>, width: i32) -> ArrayRef {
    let item = Arc::new(Field::new("item", DataType::Float32, false));
    Arc::new(FixedSizeListArray::try_new(item, width, Arc::new(Float32Array::from(values)), None).unwrap())
}

fn rag_batch() -> ColumnBatch {
    let item = Arc::new(Field::new("item", DataType::Float32, false));
    let schema = Arc::new(Schema::new(vec![
        Field::new("id", DataType::Utf8, true),
        Field::new("text", DataType::Utf8, true),
        Field::new("tokens", DataType::Int32, false),
        Field::new("embedding", DataType::FixedSizeList(item, 2), false),
    ]));
    let columns: Vec<ArrayRef> = vec![
        Arc::new(StringArray::from(vec![Some("a"), None, Some("c"), Some("d")])),
        Arc::new(StringArray::from(vec![Some("foo"), Some("bar"), None, Some("baz")])),
        Arc::new(Int32Array::from(vec![3, 2, 10, 0])),
        embedding_column(vec![1.0, 0.0, 0.0, 1.0, 0.7, 0.7, 0.5, 0.5], 2),
    ];
    ColumnBatch { inner: Arc::new(RecordBatch::try_new(schema, columns).unwrap()) }
}

#[test]
fn builder_skips_null_ids_and_non_positive_tokens() {
    let batch = rag_batch();
    let chunks = record_batch_to_candidate_chunks(&batch, "id", "tokens", "embedding", 2).unwrap();
    assert_eq!(chunks.len(), 2);
    assert_eq!(chunks[0].id, "a");
    assert_eq!(chunks[0].text, Some("foo"));
    assert_eq!(chunks[0].tokens, 3);
    assert_eq!(chunks[0].row, 0);
    assert_eq!(chunks[1].id, "c");
    assert_eq!(chunks[1].text, None);
    assert_eq!(chunks[1].tokens, 10);
    assert_eq!(chunks[1].row, 2);
}

#[test]
fn builder_reports_missing_column() {
    let batch = rag_batch();
    let err = record_batch_to_candidate_chunks(&batch, "ident", "tokens", "embedding", 2).unwrap_err();
    assert!(matches!(&err, CandidateBuildError::MissingColumn(name) if name == "ident"));
    assert_eq!(err.message(), "missing column 'ident'");
}

#[test]
fn builder_reports_dimension_mismatch() {
    let batch = rag_batch();
    let err = record_batch_to_candidate_chunks(&batch, "id", "tokens", "embedding", 3).unwrap_err();
    assert!(matches!(err, CandidateBuildError::EmbeddingDimMismatch { expected: 3, actual: 2 }));
    assert_eq!(err.message(), "embedding dimension mismatch; expected 3, got 2");
}

#[test]
fn builder_reports_invalid_column_type() {
    let batch = rag_batch();
    let err = record_batch_to_candidate_chunks(&batch, "tokens", "tokens", "embedding", 2).unwrap_err();
    assert!(matches!(&err, CandidateBuildError::InvalidColumnType(name) if name == "tokens"));
    let err = record_batch_to_candidate_chunks(&batch, "id", "tokens", "text", 2).unwrap_err();
    assert!(matches!(&err, CandidateBuildError::InvalidColumnType(name) if name == "text"));
    let err = record_batch_to_candidate_chunks(&batch, "id", "text", "embedding", 2).unwrap_err();
    assert_eq!(err.message(), "invalid type for column 'text'");
}

#[test]
fn builder_accepts_unsigned_tokens_including_zero() {
    let item = Arc::new(Field::new("item", DataType::Float32, false));
    let schema = Arc::new(Schema::new(vec![
        Field::new("id", DataType::Utf8, false),
        Field::new("tokens", DataType::UInt32, false),
        Field::new("embedding", DataType::FixedSizeList(item, 1), false),
    ]));
    let columns: Vec<ArrayRef> = vec![
        Arc::new(StringArray::from(vec!["x", "y"])),
        Arc::new(UInt32Array::from(vec![0u32, 7])),
        embedding_column(vec![1.0, 2.0], 1),
    ];
    let batch = ColumnBatch { inner: Arc::new(RecordBatch::try_new(schema, columns).unwrap()) };
    let chunks = record_batch_to_candidate_chunks(&batch, "id", "tokens", "embedding", 1).unwrap();
    assert_eq!(chunks.len(), 2);
    assert_eq!(chunks[0].tokens, 0);
    assert_eq!(chunks[0].text, None);
    assert_eq!(chunks[1].tokens, 7);
    assert_eq!(chunks[1].row, 1);
}

#[test]
fn greedy_step_picks_first_best_that_fits() {
    let mut s = GreedySelection::new(vec![3, 2, 10], 4);
    // candidate 2 does not fit; 0 and 1 tie, so the first wins
    assert_eq!(s.step(&[5, 5, 9]), Some(0));
    assert_eq!(s.remaining_tokens(), 1);
    // nothing fits in what is left
    assert_eq!(s.step(&[5, 5, 9]), None);
    let sel = s.selection();
    assert_eq!(sel.indices, vec![0]);
    assert_eq!(sel.total_tokens, 3);
}

fn cosine(a: &[f32], b: &[f32]) -> f32 {
    let dot: f32 = a.iter().zip(b).map(|(x, y)| x * y).sum();
    let na: f32 = a.iter().map(|x| x * x).sum::<f32>().sqrt();
    let nb: f32 = b.iter().map(|x| x * x).sum::<f32>().sqrt();
    if na == 0.0 || nb == 0.0 {
        0.0
    } else {
        dot / (na * nb)
    }
}

fn gain_key(gain: f32) -> u32 {
    if gain > 0.0 {
        gain.to_bits()
    } else {
        0
    }
}

/// Facility-location greedy selection: the scores are computed here in
/// floating point, the picks and the budget are kept by the library.
fn select(gamma: f32, embeddings: &[Vec<f32>], relevance: &[f32], tokens: &[usize], budget: usize) -> ContextSelection {
    let n = tokens.len();
    let mut sim = vec![0.0f32; n * n];
    for i in 0..n {
        for j in 0..n {
            sim[i * n + j] = cosine(&embeddings[i], &embeddings[j]).max(0.0);
        }
    }
    let mut coverage = vec![0.0f32; n];
    let mut state = GreedySelection::new(tokens.to_vec(), budget);
    loop {
        let mut gains = vec![0u32; n];
        for j in 0..n {
            if state.is_eligible(j) {
                let mut gain_cov = 0.0f32;
                for i in 0..n {
                    let s = sim[i * n + j];
                    let new_cov = if s > coverage[i] { s } else { coverage[i] };
                    gain_cov += new_cov - coverage[i];
                }
                gains[j] = gain_key(gain_cov + gamma * relevance[j]);
            }
        }
        match state.step(&gains) {
            Some(j) => {
                for i in 0..n {
                    let s = sim[i * n + j];
                    if s > coverage[i] {
                        coverage[i] = s;
                    }
                }
            }
            None => break,
        }
    }
    state.selection()
}

#[test]
fn selector_respects_budget_and_is_deterministic() {
    let embeddings = vec![vec![1.0f32, 0.0], vec![0.0, 1.0], vec![0.7, 0.7]];
    let relevance = [0.9f32, 0.8, 0.5];
    let tokens = [3usize, 2, 10];

    let sel1 = select(0.1, &embeddings, &relevance, &tokens, 4);
    let sel2 = select(0.1, &embeddings, &relevance, &tokens, 4);

    assert!(sel1.total_tokens <= 4);
    assert_eq!(sel1.indices, sel2.indices, "deterministic selection");
    assert!(!sel1.indices.is_empty(), "should select at least one chunk");
    assert_eq!(sel1.indices[0], 0);
    assert_eq!(sel1.indices, vec![0]);
    assert_eq!(sel1.total_tokens, 3);
}

#[test]
fn selector_edge_cases_give_empty_selection() {
    let embeddings = vec![vec![1.0f32, 0.0], vec![0.0, 1.0]];
    let relevance = [0.9f32, 0.8];
    // no candidates
    let sel = select(0.1, &[], &[], &[], 10);
    assert!(sel.indices.is_empty());
    assert_eq!(sel.total_tokens, 0);
    // no budget
    let sel = select(0.1, &embeddings, &relevance, &[3, 2], 0);
    assert!(sel.indices.is_empty());
    assert_eq!(sel.total_tokens, 0);
    // nothing fits
    let sel = select(0.1, &embeddings, &relevance, &[30, 20], 10);
    assert!(sel.indices.is_empty());
    assert_eq!(sel.total_tokens, 0);
    // zero-norm embeddings cover nothing, so only relevance counts
    let flat = vec![vec![0.0f32, 0.0], vec![0.0, 0.0]];
    let sel = select(0.5, &flat, &[0.1, 0.4], &[1, 1], 1);
    assert_eq!(sel.indices, vec![1]);
    assert_eq!(sel.total_tokens, 1);
}

#[test]
fn selector_fills_budget_in_picking_order() {
    let embeddings = vec![vec![1.0f32, 0.0], vec![0.0, 1.0], vec![0.7, 0.7]];
    let relevance = [0.9f32, 0.8, 0.5];
    // with room for it, the chunk between the other two covers most
    let sel = select(0.1, &embeddings, &relevance, &[3, 2, 10], 15);
    assert_eq!(sel.indices, vec![2, 0, 1]);
    assert_eq!(sel.total_tokens, 15);
    let sel = select(0.1, &embeddings, &relevance, &[3, 2, 10], 14);
    assert_eq!(sel.indices, vec![2, 0]);
    assert_eq!(sel.total_tokens, 13);
}

#[test]
fn greedy_step_ignores_ineligible_and_stops_at_zero_budget() {
    let mut s = GreedySelection::new(vec![2, 0, 2], 2);
    assert_eq!(s.len(), 3);
    assert!(s.is_eligible(0));
    assert!(!s.is_eligible(3));
    assert_eq!(s.step(&[1, 0, 7]), Some(2));
    assert_eq!(s.remaining_tokens(), 0);
    // a candidate of zero tokens is not picked once the budget is used up
    assert!(!s.is_eligible(1));
    assert_eq!(s.step(&[1, 9, 7]), None);
    assert_eq!(s.selection().indices, vec![2]);
    // zero gains pick nothing
    let mut s = GreedySelection::new(vec![1, 1], 5);
    assert_eq!(s.step(&[0, 0]), None);
    assert_eq!(s.selection().total_tokens, 0);
}

#[test]
fn null_pager_accepts_everything() {
    let pager = NullKvPager;
    let pages = [KvPageId(1), KvPageId(2)];
    assert!(pager.ensure_resident(&pages).is_ok());
    assert_eq!(pager.on_new_pages(&pages).unwrap(), Vec::<KvPageId>::new());
    assert!(pager.report_access(&pages).is_ok());
}
