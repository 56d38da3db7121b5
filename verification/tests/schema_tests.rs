use std::sync::Arc;

use arrow::array::{ArrayRef, LargeStringArray, StringArray, UInt32Array};
use arrow::datatypes::{DataType, Field, Schema};
use arrow::record_batch::RecordBatch;
use goni_kernel::columnar::ColumnBatch;
use goni_kernel::plane::Plane;
use goni_kernel::schema::{ColumnType, SchemaError, TableDef, TableSchema, __check_txt_invariants};
use goni_kernel::tables::{
    AgentManifests, AuditRecords, CapabilityTokens, Chunks, ChunksDef, ContextItems, Docs, DocsDef,
    Embeddings, LatentSummaries, LlmCalls, LlmCallsDef, MemoryEntries, Metrics, PlatformCapabilities,
    PlatformSignals, Prompts, PromptsDef, RedactionEvents, RedactionProfiles, Requests, RequestsDef,
    StateDeltas, StateSnapshots, Tasks,
};

fn batch_with_large_text(column: &str) -> ColumnBatch {
    let schema = Arc::new(Schema::new(vec![
        Field::new("n", DataType::UInt32, false),
        Field::new(column, DataType::LargeUtf8, false),
        Field::new("other", DataType::LargeUtf8, false),
    ]));
    let columns: Vec<ArrayRef> = vec![
        Arc::new(UInt32Array::from(vec![1u32])),
        Arc::new(LargeStringArray::from(vec!["long text"])),
        Arc::new(LargeStringArray::from(vec!["more"])),
    ];
    ColumnBatch { inner: Arc::new(RecordBatch::try_new(schema, columns).unwrap()) }
}

fn empty_batch() -> ColumnBatch {
    ColumnBatch { inner: Arc::new(RecordBatch::new_empty(Arc::new(Schema::empty()))) }
}

fn batch_without_large_text() -> ColumnBatch {
    let schema = Arc::new(Schema::new(vec![
        Field::new("n", DataType::UInt32, false),
        Field::new("s", DataType::Utf8, false),
    ]));
    let columns: Vec<ArrayRef> =
        vec![Arc::new(UInt32Array::from(vec![1u32])), Arc::new(StringArray::from(vec!["short"]))];
    ColumnBatch { inner: Arc::new(RecordBatch::try_new(schema, columns).unwrap()) }
}

fn has_large_text(schema: &TableSchema) -> bool {
    schema.fields.iter().any(|f| f.ty == ColumnType::LargeUtf8)
}

#[test]
fn txt_axiom_holds_for_planes() {
    // Building a schema runs its declaration.
    let _ = Docs::schema();
    let _ = Chunks::schema();
    let _ = Embeddings::schema();
    let _ = Requests::schema();
    let _ = Tasks::schema();
    let _ = RedactionProfiles::schema();
    let _ = RedactionEvents::schema();
    let _ = Prompts::schema();
    let _ = ContextItems::schema();
    let _ = MemoryEntries::schema();
    let _ = LlmCalls::schema();
    let _ = PlatformSignals::schema();
    let _ = PlatformCapabilities::schema();
    let _ = Metrics::schema();
}

#[test]
fn control_and_execution_tables_declare_no_large_text() {
    assert!(!has_large_text(&Requests::schema()));
    assert!(!has_large_text(&Tasks::schema()));
    assert!(!has_large_text(&AuditRecords::schema()));
    assert!(!has_large_text(&CapabilityTokens::schema()));
    assert!(!has_large_text(&RedactionProfiles::schema()));
    assert!(!has_large_text(&RedactionEvents::schema()));
    assert!(!has_large_text(&AgentManifests::schema()));
    assert!(!has_large_text(&LlmCalls::schema()));
    assert!(!has_large_text(&PlatformSignals::schema()));
    assert!(!has_large_text(&PlatformCapabilities::schema()));
    assert!(!has_large_text(&Metrics::schema()));
    // large text lives in the knowledge and context planes
    assert!(has_large_text(&Docs::schema()));
    assert!(has_large_text(&Chunks::schema()));
    assert!(has_large_text(&Prompts::schema()));
    assert!(!has_large_text(&StateSnapshots::schema()));
    assert!(!has_large_text(&StateDeltas::schema()));
    assert!(!has_large_text(&LatentSummaries::schema()));
}

#[test]
fn every_schema_starts_with_the_spine() {
    let schema = Chunks::schema();
    let names: Vec<&str> = schema.fields.iter().map(|f| f.name).collect();
    assert_eq!(
        names,
        vec![
            "row_id",
            "tenant_id",
            "plane",
            "kind",
            "schema_version",
            "ts_created",
            "ts_valid_from",
            "chunk_id",
            "doc_id",
            "ordinal",
            "text",
            "token_count",
            "section_path",
        ]
    );
    assert_eq!(schema.fields[0].ty, ColumnType::FixedSizeBinary(16));
    assert_eq!(schema.fields[1].ty, ColumnType::FixedSizeBinary(16));
    assert_eq!(schema.fields[2].ty, ColumnType::UInt8);
    assert_eq!(schema.fields[3].ty, ColumnType::DictU8Utf8);
    assert_eq!(schema.fields[4].ty, ColumnType::UInt16);
    assert_eq!(schema.fields[5].ty, ColumnType::TimestampMsUtc);
    assert_eq!(schema.fields[6].ty, ColumnType::TimestampMsUtc);
    assert!(schema.fields[..7].iter().all(|f| !f.nullable));
    assert!(schema.fields[7..].iter().all(|f| f.nullable));
    assert_eq!(schema.fields[10].ty, ColumnType::LargeUtf8);
    assert_eq!(schema.fields[9].ty, ColumnType::UInt32);
    assert_eq!(schema.fields[12].ty, ColumnType::ListUtf8);

    let schema = Embeddings::schema();
    assert_eq!(schema.fields.len(), 12);
    assert_eq!(schema.fields[10].name, "vector");
    assert_eq!(schema.fields[10].ty, ColumnType::FixedSizeListF32(1536));
    assert_eq!(Metrics::schema().fields.len(), 12);
    assert_eq!(PlatformSignals::schema().fields.len(), 27);
}

#[test]
fn declarations_name_their_plane_and_kind() {
    assert_eq!(DocsDef::plane(), Plane::Knowledge);
    assert_eq!(DocsDef::kind(), "Docs");
    assert_eq!(ChunksDef::plane(), Plane::Knowledge);
    assert_eq!(PromptsDef::plane(), Plane::Context);
    assert_eq!(PromptsDef::kind(), "Prompts");
    assert_eq!(RequestsDef::plane(), Plane::Control);
    assert_eq!(LlmCallsDef::plane(), Plane::Execution);
    assert_eq!(LlmCallsDef::kind(), "LlmCalls");
    assert_eq!(ChunksDef::payload().len(), 6);
}

#[test]
fn plane_tags_are_zero_to_three() {
    assert_eq!(Plane::Knowledge.tag(), 0);
    assert_eq!(Plane::Context.tag(), 1);
    assert_eq!(Plane::Control.tag(), 2);
    assert_eq!(Plane::Execution.tag(), 3);
    assert_eq!(Plane::Execution.name(), "Execution");
}

#[test]
fn batch_check_names_the_first_large_text_column() {
    let batch = batch_with_large_text("body");
    let err = __check_txt_invariants("Requests", &Plane::Control, &batch).unwrap_err();
    let SchemaError::TxtAxiomViolated { table, plane, column } = &err;
    assert_eq!(table, "Requests");
    assert_eq!(*plane, Plane::Control);
    assert_eq!(column, "body");
    assert_eq!(
        err.message(),
        "TXT axiom violated: table Requests in plane Control has LargeUtf8 column body"
    );
    let err = __check_txt_invariants("Metrics", &Plane::Execution, &batch).unwrap_err();
    assert_eq!(
        err.message(),
        "TXT axiom violated: table Metrics in plane Execution has LargeUtf8 column body"
    );
}

#[test]
fn batch_check_passes_where_large_text_may_live() {
    let batch = batch_with_large_text("body");
    assert!(__check_txt_invariants("Docs", &Plane::Knowledge, &batch).is_ok());
    assert!(__check_txt_invariants("Prompts", &Plane::Context, &batch).is_ok());
    let batch = batch_without_large_text();
    assert!(__check_txt_invariants("Requests", &Plane::Control, &batch).is_ok());
    assert!(__check_txt_invariants("Metrics", &Plane::Execution, &batch).is_ok());
    assert!(__check_txt_invariants("Requests", &Plane::Control, &empty_batch()).is_ok());
}

#[test]
fn typed_wrappers_recheck_the_axiom() {
    assert!(Requests::new(batch_with_large_text("body")).is_err());
    assert!(LlmCalls::new(batch_with_large_text("body")).is_err());
    assert!(Docs::new(batch_with_large_text("body")).is_ok());
    let batch = batch_without_large_text();
    let wrapped = Tasks::new(batch.clone()).unwrap();
    assert!(Arc::ptr_eq(&wrapped.inner().inner, &batch.inner));
    assert_eq!(wrapped.inner().inner.num_rows(), 1);
}
