//! The tables of the four planes. Each declaration names a plane, a kind and
//! the payload columns; `Payload::with` refuses a large-text column in a
//! Control or Execution table, so such a declaration does not verify.

use vstd::prelude::*;

use crate::plane::Plane;
use crate::schema::{column, ColumnType, FieldDef, FieldView, Payload, Table, TableDef};

verus! {

/// Declaration of the `Docs` table of the Knowledge plane.
pub struct DocsDef;

impl TableDef for DocsDef {
    open spec fn table_plane() -> Plane {
        Plane::Knowledge
    }

    open spec fn table_kind() -> Seq<char> {
        "Docs"@
    }

    open spec fn table_payload() -> Seq<FieldView> {
        seq![
            column("doc_id"@, ColumnType::FixedSizeBinary(16)),
            column("source_uri"@, ColumnType::LargeUtf8),
            column("mime_type"@, ColumnType::Utf8),
            column("title"@, ColumnType::Utf8),
            column("tags"@, ColumnType::ListUtf8),
            column("metadata"@, ColumnType::MapUtf8Utf8),
        ]
    }

    fn plane() -> (p: Plane) {
        Plane::Knowledge
    }

    fn kind() -> (k: &'static str) {
        "Docs"
    }

    fn payload() -> (fields: Vec<FieldDef>) {
        let p = Payload::new(Plane::Knowledge)
            .with("doc_id", ColumnType::FixedSizeBinary(16))
            .with("source_uri", ColumnType::LargeUtf8)
            .with("mime_type", ColumnType::Utf8)
            .with("title", ColumnType::Utf8)
            .with("tags", ColumnType::ListUtf8)
            .with("metadata", ColumnType::MapUtf8Utf8);
        assert(p.fields() == Self::table_payload());
        p.finish()
    }
}

/// Source documents.
pub type Docs = Table<DocsDef>;

/// Declaration of the `Chunks` table of the Knowledge plane.
pub struct ChunksDef;

impl TableDef for ChunksDef {
    open spec fn table_plane() -> Plane {
        Plane::Knowledge
    }

    open spec fn table_kind() -> Seq<char> {
        "Chunks"@
    }

    open spec fn table_payload() -> Seq<FieldView> {
        seq![
            column("chunk_id"@, ColumnType::FixedSizeBinary(16)),
            column("doc_id"@, ColumnType::FixedSizeBinary(16)),
            column("ordinal"@, ColumnType::UInt32),
            column("text"@, ColumnType::LargeUtf8),
            column("token_count"@, ColumnType::UInt32),
            column("section_path"@, ColumnType::ListUtf8),
        ]
    }

    fn plane() -> (p: Plane) {
        Plane::Knowledge
    }

    fn kind() -> (k: &'static str) {
        "Chunks"
    }

    fn payload() -> (fields: Vec<FieldDef>) {
        let p = Payload::new(Plane::Knowledge)
            .with("chunk_id", ColumnType::FixedSizeBinary(16))
            .with("doc_id", ColumnType::FixedSizeBinary(16))
            .with("ordinal", ColumnType::UInt32)
            .with("text", ColumnType::LargeUtf8)
            .with("token_count", ColumnType::UInt32)
            .with("section_path", ColumnType::ListUtf8);
        assert(p.fields() == Self::table_payload());
        p.finish()
    }
}

/// Chunks of documents, with their text.
pub type Chunks = Table<ChunksDef>;

/// Declaration of the `Embeddings` table of the Knowledge plane.
pub struct EmbeddingsDef;

impl TableDef for EmbeddingsDef {
    open spec fn table_plane() -> Plane {
        Plane::Knowledge
    }

    open spec fn table_kind() -> Seq<char> {
        "Embeddings"@
    }

    open spec fn table_payload() -> Seq<FieldView> {
        seq![
            column("embedding_id"@, ColumnType::FixedSizeBinary(16)),
            column("chunk_id"@, ColumnType::FixedSizeBinary(16)),
            column("model_id"@, ColumnType::DictU8Utf8),
            column("vector"@, ColumnType::FixedSizeListF32(1536)),
            column("dim"@, ColumnType::UInt16),
        ]
    }

    fn plane() -> (p: Plane) {
        Plane::Knowledge
    }

    fn kind() -> (k: &'static str) {
        "Embeddings"
    }

    fn payload() -> (fields: Vec<FieldDef>) {
        let p = Payload::new(Plane::Knowledge)
            .with("embedding_id", ColumnType::FixedSizeBinary(16))
            .with("chunk_id", ColumnType::FixedSizeBinary(16))
            .with("model_id", ColumnType::DictU8Utf8)
            .with("vector", ColumnType::FixedSizeListF32(1536))
            .with("dim", ColumnType::UInt16);
        assert(p.fields() == Self::table_payload());
        p.finish()
    }
}

/// Embedding vectors of chunks.
pub type Embeddings = Table<EmbeddingsDef>;

/// Declaration of the `Requests` table of the Control plane.
pub struct RequestsDef;

impl TableDef for RequestsDef {
    open spec fn table_plane() -> Plane {
        Plane::Control
    }

    open spec fn table_kind() -> Seq<char> {
        "Requests"@
    }

    open spec fn table_payload() -> Seq<FieldView> {
        seq![
            column("request_id"@, ColumnType::FixedSizeBinary(16)),
            column("session_id"@, ColumnType::FixedSizeBinary(16)),
            column("prompt_hash"@, ColumnType::FixedSizeBinary(32)),
            column("prompt_tokens_est"@, ColumnType::UInt32),
            column("budget_tokens"@, ColumnType::UInt32),
            column("task_class"@, ColumnType::DictU8Utf8),
        ]
    }

    fn plane() -> (p: Plane) {
        Plane::Control
    }

    fn kind() -> (k: &'static str) {
        "Requests"
    }

    fn payload() -> (fields: Vec<FieldDef>) {
        let p = Payload::new(Plane::Control)
            .with("request_id", ColumnType::FixedSizeBinary(16))
            .with("session_id", ColumnType::FixedSizeBinary(16))
            .with("prompt_hash", ColumnType::FixedSizeBinary(32))
            .with("prompt_tokens_est", ColumnType::UInt32)
            .with("budget_tokens", ColumnType::UInt32)
            .with("task_class", ColumnType::DictU8Utf8);
        assert(p.fields() == Self::table_payload());
        p.finish()
    }
}

/// User requests, by hash and budget.
pub type Requests = Table<RequestsDef>;

/// Declaration of the `Tasks` table of the Control plane.
pub struct TasksDef;

impl TableDef for TasksDef {
    open spec fn table_plane() -> Plane {
        Plane::Control
    }

    open spec fn table_kind() -> Seq<char> {
        "Tasks"@
    }

    open spec fn table_payload() -> Seq<FieldView> {
        seq![
            column("task_id"@, ColumnType::FixedSizeBinary(16)),
            column("request_id"@, ColumnType::FixedSizeBinary(16)),
            column("task_type"@, ColumnType::DictU8Utf8),
            column("state"@, ColumnType::DictU8Utf8),
            column("queue_id"@, ColumnType::DictU8Utf8),
            column("expected_cost_tokens"@, ColumnType::UInt32),
        ]
    }

    fn plane() -> (p: Plane) {
        Plane::Control
    }

    fn kind() -> (k: &'static str) {
        "Tasks"
    }

    fn payload() -> (fields: Vec<FieldDef>) {
        let p = Payload::new(Plane::Control)
            .with("task_id", ColumnType::FixedSizeBinary(16))
            .with("request_id", ColumnType::FixedSizeBinary(16))
            .with("task_type", ColumnType::DictU8Utf8)
            .with("state", ColumnType::DictU8Utf8)
            .with("queue_id", ColumnType::DictU8Utf8)
            .with("expected_cost_tokens", ColumnType::UInt32);
        assert(p.fields() == Self::table_payload());
        p.finish()
    }
}

/// Tasks spawned by requests.
pub type Tasks = Table<TasksDef>;

/// Declaration of the `AuditRecords` table of the Control plane.
pub struct AuditRecordsDef;

impl TableDef for AuditRecordsDef {
    open spec fn table_plane() -> Plane {
        Plane::Control
    }

    open spec fn table_kind() -> Seq<char> {
        "AuditRecords"@
    }

    open spec fn table_payload() -> Seq<FieldView> {
        seq![
            column("audit_id"@, ColumnType::FixedSizeBinary(16)),
            column("agent_id"@, ColumnType::FixedSizeBinary(16)),
            column("policy_hash"@, ColumnType::FixedSizeBinary(32)),
            column("state_snapshot_id"@, ColumnType::FixedSizeBinary(16)),
            column("capability_token_id"@, ColumnType::FixedSizeBinary(16)),
            column("tool_id"@, ColumnType::DictU8Utf8),
            column("args_hash"@, ColumnType::FixedSizeBinary(32)),
            column("result_hash"@, ColumnType::FixedSizeBinary(32)),
            column("timestamp"@, ColumnType::TimestampMsUtc),
            column("provenance"@, ColumnType::MapUtf8Utf8),
        ]
    }

    fn plane() -> (p: Plane) {
        Plane::Control
    }

    fn kind() -> (k: &'static str) {
        "AuditRecords"
    }

    fn payload() -> (fields: Vec<FieldDef>) {
        let p = Payload::new(Plane::Control)
            .with("audit_id", ColumnType::FixedSizeBinary(16))
            .with("agent_id", ColumnType::FixedSizeBinary(16))
            .with("policy_hash", ColumnType::FixedSizeBinary(32))
            .with("state_snapshot_id", ColumnType::FixedSizeBinary(16))
            .with("capability_token_id", ColumnType::FixedSizeBinary(16))
            .with("tool_id", ColumnType::DictU8Utf8)
            .with("args_hash", ColumnType::FixedSizeBinary(32))
            .with("result_hash", ColumnType::FixedSizeBinary(32))
            .with("timestamp", ColumnType::TimestampMsUtc)
            .with("provenance", ColumnType::MapUtf8Utf8);
        assert(p.fields() == Self::table_payload());
        p.finish()
    }
}

/// Audit records of tool calls.
pub type AuditRecords = Table<AuditRecordsDef>;

/// Declaration of the `CapabilityTokens` table of the Control plane.
pub struct CapabilityTokensDef;

impl TableDef for CapabilityTokensDef {
    open spec fn table_plane() -> Plane {
        Plane::Control
    }

    open spec fn table_kind() -> Seq<char> {
        "CapabilityTokens"@
    }

    open spec fn table_payload() -> Seq<FieldView> {
        seq![
            column("capability_token_id"@, ColumnType::FixedSizeBinary(16)),
            column("agent_id"@, ColumnType::FixedSizeBinary(16)),
            column("policy_hash"@, ColumnType::FixedSizeBinary(32)),
            column("tools"@, ColumnType::ListUtf8),
            column("fs_read_roots"@, ColumnType::ListUtf8),
            column("fs_write_roots"@, ColumnType::ListUtf8),
            column("net_allowlist"@, ColumnType::ListUtf8),
            column("budgets"@, ColumnType::MapUtf8Utf8),
            column("issued_at"@, ColumnType::TimestampMsUtc),
            column("expires_at"@, ColumnType::TimestampMsUtc),
            column("provenance"@, ColumnType::MapUtf8Utf8),
        ]
    }

    fn plane() -> (p: Plane) {
        Plane::Control
    }

    fn kind() -> (k: &'static str) {
        "CapabilityTokens"
    }

    fn payload() -> (fields: Vec<FieldDef>) {
        let p = Payload::new(Plane::Control)
            .with("capability_token_id", ColumnType::FixedSizeBinary(16))
            .with("agent_id", ColumnType::FixedSizeBinary(16))
            .with("policy_hash", ColumnType::FixedSizeBinary(32))
            .with("tools", ColumnType::ListUtf8)
            .with("fs_read_roots", ColumnType::ListUtf8)
            .with("fs_write_roots", ColumnType::ListUtf8)
            .with("net_allowlist", ColumnType::ListUtf8)
            .with("budgets", ColumnType::MapUtf8Utf8)
            .with("issued_at", ColumnType::TimestampMsUtc)
            .with("expires_at", ColumnType::TimestampMsUtc)
            .with("provenance", ColumnType::MapUtf8Utf8);
        assert(p.fields() == Self::table_payload());
        p.finish()
    }
}

/// Capability tokens issued to agents.
pub type CapabilityTokens = Table<CapabilityTokensDef>;

/// Declaration of the `RedactionProfiles` table of the Control plane.
pub struct RedactionProfilesDef;

impl TableDef for RedactionProfilesDef {
    open spec fn table_plane() -> Plane {
        Plane::Control
    }

    open spec fn table_kind() -> Seq<char> {
        "RedactionProfiles"@
    }

    open spec fn table_payload() -> Seq<FieldView> {
        seq![
            column("redaction_profile_id"@, ColumnType::FixedSizeBinary(16)),
            column("name"@, ColumnType::Utf8),
            column("mode"@, ColumnType::DictU8Utf8),
            column("ruleset_hash"@, ColumnType::FixedSizeBinary(32)),
            column("created_at"@, ColumnType::TimestampMsUtc),
        ]
    }

    fn plane() -> (p: Plane) {
        Plane::Control
    }

    fn kind() -> (k: &'static str) {
        "RedactionProfiles"
    }

    fn payload() -> (fields: Vec<FieldDef>) {
        let p = Payload::new(Plane::Control)
            .with("redaction_profile_id", ColumnType::FixedSizeBinary(16))
            .with("name", ColumnType::Utf8)
            .with("mode", ColumnType::DictU8Utf8)
            .with("ruleset_hash", ColumnType::FixedSizeBinary(32))
            .with("created_at", ColumnType::TimestampMsUtc);
        assert(p.fields() == Self::table_payload());
        p.finish()
    }
}

/// Redaction profiles.
pub type RedactionProfiles = Table<RedactionProfilesDef>;

/// Declaration of the `RedactionEvents` table of the Control plane.
pub struct RedactionEventsDef;

impl TableDef for RedactionEventsDef {
    open spec fn table_plane() -> Plane {
        Plane::Control
    }

    open spec fn table_kind() -> Seq<char> {
        "RedactionEvents"@
    }

    open spec fn table_payload() -> Seq<FieldView> {
        seq![
            column("redaction_event_id"@, ColumnType::FixedSizeBinary(16)),
            column("request_id"@, ColumnType::FixedSizeBinary(16)),
            column("redaction_profile_id"@, ColumnType::FixedSizeBinary(16)),
            column("timestamp"@, ColumnType::TimestampMsUtc),
            column("before_hash"@, ColumnType::FixedSizeBinary(32)),
            column("after_hash"@, ColumnType::FixedSizeBinary(32)),
            column("redaction_summary"@, ColumnType::MapUtf8Utf8),
        ]
    }

    fn plane() -> (p: Plane) {
        Plane::Control
    }

    fn kind() -> (k: &'static str) {
        "RedactionEvents"
    }

    fn payload() -> (fields: Vec<FieldDef>) {
        let p = Payload::new(Plane::Control)
            .with("redaction_event_id", ColumnType::FixedSizeBinary(16))
            .with("request_id", ColumnType::FixedSizeBinary(16))
            .with("redaction_profile_id", ColumnType::FixedSizeBinary(16))
            .with("timestamp", ColumnType::TimestampMsUtc)
            .with("before_hash", ColumnType::FixedSizeBinary(32))
            .with("after_hash", ColumnType::FixedSizeBinary(32))
            .with("redaction_summary", ColumnType::MapUtf8Utf8);
        assert(p.fields() == Self::table_payload());
        p.finish()
    }
}

/// Redactions that took place.
pub type RedactionEvents = Table<RedactionEventsDef>;

/// Declaration of the `AgentManifests` table of the Control plane.
pub struct AgentManifestsDef;

impl TableDef for AgentManifestsDef {
    open spec fn table_plane() -> Plane {
        Plane::Control
    }

    open spec fn table_kind() -> Seq<char> {
        "AgentManifests"@
    }

    open spec fn table_payload() -> Seq<FieldView> {
        seq![
            column("manifest_id"@, ColumnType::FixedSizeBinary(16)),
            column("agent_id"@, ColumnType::FixedSizeBinary(16)),
            column("version"@, ColumnType::Utf8),
            column("manifest_hash"@, ColumnType::FixedSizeBinary(32)),
            column("manifest_uri"@, ColumnType::Utf8),
            column("triggers"@, ColumnType::MapUtf8Utf8),
            column("capabilities"@, ColumnType::MapUtf8Utf8),
            column("budgets"@, ColumnType::MapUtf8Utf8),
            column("ui_surfaces"@, ColumnType::ListUtf8),
            column("identity_requirements"@, ColumnType::ListUtf8),
            column("remote_access"@, ColumnType::Boolean),
            column("tools"@, ColumnType::ListUtf8),
            column("policy_hash"@, ColumnType::FixedSizeBinary(32)),
            column("state_snapshot_id"@, ColumnType::FixedSizeBinary(16)),
            column("provenance"@, ColumnType::MapUtf8Utf8),
        ]
    }

    fn plane() -> (p: Plane) {
        Plane::Control
    }

    fn kind() -> (k: &'static str) {
        "AgentManifests"
    }

    fn payload() -> (fields: Vec<FieldDef>) {
        let p = Payload::new(Plane::Control)
            .with("manifest_id", ColumnType::FixedSizeBinary(16))
            .with("agent_id", ColumnType::FixedSizeBinary(16))
            .with("version", ColumnType::Utf8)
            .with("manifest_hash", ColumnType::FixedSizeBinary(32))
            .with("manifest_uri", ColumnType::Utf8)
            .with("triggers", ColumnType::MapUtf8Utf8)
            .with("capabilities", ColumnType::MapUtf8Utf8)
            .with("budgets", ColumnType::MapUtf8Utf8)
            .with("ui_surfaces", ColumnType::ListUtf8)
            .with("identity_requirements", ColumnType::ListUtf8)
            .with("remote_access", ColumnType::Boolean)
            .with("tools", ColumnType::ListUtf8)
            .with("policy_hash", ColumnType::FixedSizeBinary(32))
            .with("state_snapshot_id", ColumnType::FixedSizeBinary(16))
            .with("provenance", ColumnType::MapUtf8Utf8);
        assert(p.fields() == Self::table_payload());
        p.finish()
    }
}

/// Agent manifests, by hash and location.
pub type AgentManifests = Table<AgentManifestsDef>;

/// Declaration of the `Prompts` table of the Context plane.
pub struct PromptsDef;

impl TableDef for PromptsDef {
    open spec fn table_plane() -> Plane {
        Plane::Context
    }

    open spec fn table_kind() -> Seq<char> {
        "Prompts"@
    }

    open spec fn table_payload() -> Seq<FieldView> {
        seq![
            column("prompt_id"@, ColumnType::FixedSizeBinary(16)),
            column("request_id"@, ColumnType::FixedSizeBinary(16)),
            column("source_context_id"@, ColumnType::FixedSizeBinary(16)),
            column("timestamp"@, ColumnType::TimestampMsUtc),
            column("materialization_kind"@, ColumnType::DictU8Utf8),
            column("prompt_hash"@, ColumnType::FixedSizeBinary(32)),
            column("token_estimate_in"@, ColumnType::UInt32),
            column("token_estimate_out"@, ColumnType::UInt32),
            column("is_redacted"@, ColumnType::Boolean),
            column("redaction_profile_id"@, ColumnType::FixedSizeBinary(16)),
            column("text"@, ColumnType::LargeUtf8),
        ]
    }

    fn plane() -> (p: Plane) {
        Plane::Context
    }

    fn kind() -> (k: &'static str) {
        "Prompts"
    }

    fn payload() -> (fields: Vec<FieldDef>) {
        let p = Payload::new(Plane::Context)
            .with("prompt_id", ColumnType::FixedSizeBinary(16))
            .with("request_id", ColumnType::FixedSizeBinary(16))
            .with("source_context_id", ColumnType::FixedSizeBinary(16))
            .with("timestamp", ColumnType::TimestampMsUtc)
            .with("materialization_kind", ColumnType::DictU8Utf8)
            .with("prompt_hash", ColumnType::FixedSizeBinary(32))
            .with("token_estimate_in", ColumnType::UInt32)
            .with("token_estimate_out", ColumnType::UInt32)
            .with("is_redacted", ColumnType::Boolean)
            .with("redaction_profile_id", ColumnType::FixedSizeBinary(16))
            .with("text", ColumnType::LargeUtf8);
        assert(p.fields() == Self::table_payload());
        p.finish()
    }
}

/// Materialised prompts, with their text.
pub type Prompts = Table<PromptsDef>;

/// Declaration of the `ContextItems` table of the Context plane.
pub struct ContextItemsDef;

impl TableDef for ContextItemsDef {
    open spec fn table_plane() -> Plane {
        Plane::Context
    }

    open spec fn table_kind() -> Seq<char> {
        "ContextItems"@
    }

    open spec fn table_payload() -> Seq<FieldView> {
        seq![
            column("context_item_id"@, ColumnType::FixedSizeBinary(16)),
            column("context_id"@, ColumnType::FixedSizeBinary(16)),
            column("chunk_id"@, ColumnType::FixedSizeBinary(16)),
            column("cost_tokens"@, ColumnType::UInt32),
            column("selected"@, ColumnType::Boolean),
            column("rank"@, ColumnType::UInt16),
            column("marginal_gain"@, ColumnType::Float32),
        ]
    }

    fn plane() -> (p: Plane) {
        Plane::Context
    }

    fn kind() -> (k: &'static str) {
        "ContextItems"
    }

    fn payload() -> (fields: Vec<FieldDef>) {
        let p = Payload::new(Plane::Context)
            .with("context_item_id", ColumnType::FixedSizeBinary(16))
            .with("context_id", ColumnType::FixedSizeBinary(16))
            .with("chunk_id", ColumnType::FixedSizeBinary(16))
            .with("cost_tokens", ColumnType::UInt32)
            .with("selected", ColumnType::Boolean)
            .with("rank", ColumnType::UInt16)
            .with("marginal_gain", ColumnType::Float32);
        assert(p.fields() == Self::table_payload());
        p.finish()
    }
}

/// Candidates considered for a context and whether they were picked.
pub type ContextItems = Table<ContextItemsDef>;

/// Declaration of the `StateSnapshots` table of the Knowledge plane.
pub struct StateSnapshotsDef;

impl TableDef for StateSnapshotsDef {
    open spec fn table_plane() -> Plane {
        Plane::Knowledge
    }

    open spec fn table_kind() -> Seq<char> {
        "StateSnapshots"@
    }

    open spec fn table_payload() -> Seq<FieldView> {
        seq![
            column("snapshot_id"@, ColumnType::FixedSizeBinary(16)),
            column("state_version"@, ColumnType::UInt32),
            column("s_core"@, ColumnType::FixedSizeListF32(1536)),
            column("s_core_dim"@, ColumnType::UInt16),
            column("f_sparse"@, ColumnType::MapUtf8Utf8),
            column("created_at"@, ColumnType::TimestampMsUtc),
            column("agent_id"@, ColumnType::FixedSizeBinary(16)),
            column("policy_hash"@, ColumnType::FixedSizeBinary(32)),
            column("state_snapshot_id"@, ColumnType::FixedSizeBinary(16)),
            column("provenance"@, ColumnType::MapUtf8Utf8),
        ]
    }

    fn plane() -> (p: Plane) {
        Plane::Knowledge
    }

    fn kind() -> (k: &'static str) {
        "StateSnapshots"
    }

    fn payload() -> (fields: Vec<FieldDef>) {
        let p = Payload::new(Plane::Knowledge)
            .with("snapshot_id", ColumnType::FixedSizeBinary(16))
            .with("state_version", ColumnType::UInt32)
            .with("s_core", ColumnType::FixedSizeListF32(1536))
            .with("s_core_dim", ColumnType::UInt16)
            .with("f_sparse", ColumnType::MapUtf8Utf8)
            .with("created_at", ColumnType::TimestampMsUtc)
            .with("agent_id", ColumnType::FixedSizeBinary(16))
            .with("policy_hash", ColumnType::FixedSizeBinary(32))
            .with("state_snapshot_id", ColumnType::FixedSizeBinary(16))
            .with("provenance", ColumnType::MapUtf8Utf8);
        assert(p.fields() == Self::table_payload());
        p.finish()
    }
}

/// Snapshots of agent state.
pub type StateSnapshots = Table<StateSnapshotsDef>;

/// Declaration of the `StateDeltas` table of the Knowledge plane.
pub struct StateDeltasDef;

impl TableDef for StateDeltasDef {
    open spec fn table_plane() -> Plane {
        Plane::Knowledge
    }

    open spec fn table_kind() -> Seq<char> {
        "StateDeltas"@
    }

    open spec fn table_payload() -> Seq<FieldView> {
        seq![
            column("delta_id"@, ColumnType::FixedSizeBinary(16)),
            column("snapshot_id"@, ColumnType::FixedSizeBinary(16)),
            column("delta_kind"@, ColumnType::DictU8Utf8),
            column("delta_vector"@, ColumnType::FixedSizeListF32(1536)),
            column("delta_dim"@, ColumnType::UInt16),
            column("f_sparse_patch"@, ColumnType::MapUtf8Utf8),
            column("timestamp"@, ColumnType::TimestampMsUtc),
            column("agent_id"@, ColumnType::FixedSizeBinary(16)),
            column("policy_hash"@, ColumnType::FixedSizeBinary(32)),
            column("state_snapshot_id"@, ColumnType::FixedSizeBinary(16)),
            column("provenance"@, ColumnType::MapUtf8Utf8),
        ]
    }

    fn plane() -> (p: Plane) {
        Plane::Knowledge
    }

    fn kind() -> (k: &'static str) {
        "StateDeltas"
    }

    fn payload() -> (fields: Vec<FieldDef>) {
        let p = Payload::new(Plane::Knowledge)
            .with("delta_id", ColumnType::FixedSizeBinary(16))
            .with("snapshot_id", ColumnType::FixedSizeBinary(16))
            .with("delta_kind", ColumnType::DictU8Utf8)
            .with("delta_vector", ColumnType::FixedSizeListF32(1536))
            .with("delta_dim", ColumnType::UInt16)
            .with("f_sparse_patch", ColumnType::MapUtf8Utf8)
            .with("timestamp", ColumnType::TimestampMsUtc)
            .with("agent_id", ColumnType::FixedSizeBinary(16))
            .with("policy_hash", ColumnType::FixedSizeBinary(32))
            .with("state_snapshot_id", ColumnType::FixedSizeBinary(16))
            .with("provenance", ColumnType::MapUtf8Utf8);
        assert(p.fields() == Self::table_payload());
        p.finish()
    }
}

/// Changes between snapshots of agent state.
pub type StateDeltas = Table<StateDeltasDef>;

/// Declaration of the `LatentSummaries` table of the Knowledge plane.
pub struct LatentSummariesDef;

impl TableDef for LatentSummariesDef {
    open spec fn table_plane() -> Plane {
        Plane::Knowledge
    }

    open spec fn table_kind() -> Seq<char> {
        "LatentSummaries"@
    }

    open spec fn table_payload() -> Seq<FieldView> {
        seq![
            column("summary_id"@, ColumnType::FixedSizeBinary(16)),
            column("snapshot_id"@, ColumnType::FixedSizeBinary(16)),
            column("summary_kind"@, ColumnType::DictU8Utf8),
            column("summary_vector"@, ColumnType::FixedSizeListF32(1536)),
            column("summary_dim"@, ColumnType::UInt16),
            column("summary_hash"@, ColumnType::FixedSizeBinary(32)),
            column("timestamp"@, ColumnType::TimestampMsUtc),
            column("agent_id"@, ColumnType::FixedSizeBinary(16)),
            column("policy_hash"@, ColumnType::FixedSizeBinary(32)),
            column("state_snapshot_id"@, ColumnType::FixedSizeBinary(16)),
            column("provenance"@, ColumnType::MapUtf8Utf8),
        ]
    }

    fn plane() -> (p: Plane) {
        Plane::Knowledge
    }

    fn kind() -> (k: &'static str) {
        "LatentSummaries"
    }

    fn payload() -> (fields: Vec<FieldDef>) {
        let p = Payload::new(Plane::Knowledge)
            .with("summary_id", ColumnType::FixedSizeBinary(16))
            .with("snapshot_id", ColumnType::FixedSizeBinary(16))
            .with("summary_kind", ColumnType::DictU8Utf8)
            .with("summary_vector", ColumnType::FixedSizeListF32(1536))
            .with("summary_dim", ColumnType::UInt16)
            .with("summary_hash", ColumnType::FixedSizeBinary(32))
            .with("timestamp", ColumnType::TimestampMsUtc)
            .with("agent_id", ColumnType::FixedSizeBinary(16))
            .with("policy_hash", ColumnType::FixedSizeBinary(32))
            .with("state_snapshot_id", ColumnType::FixedSizeBinary(16))
            .with("provenance", ColumnType::MapUtf8Utf8);
        assert(p.fields() == Self::table_payload());
        p.finish()
    }
}

/// Latent summaries of snapshots.
pub type LatentSummaries = Table<LatentSummariesDef>;

/// Declaration of the `MemoryEntries` table of the Knowledge plane.
pub struct MemoryEntriesDef;

impl TableDef for MemoryEntriesDef {
    open spec fn table_plane() -> Plane {
        Plane::Knowledge
    }

    open spec fn table_kind() -> Seq<char> {
        "MemoryEntries"@
    }

    open spec fn table_payload() -> Seq<FieldView> {
        seq![
            column("memory_id"@, ColumnType::FixedSizeBinary(16)),
            column("kind"@, ColumnType::DictU8Utf8),
            column("timestamp"@, ColumnType::TimestampMsUtc),
            column("value"@, ColumnType::MapUtf8Utf8),
            column("confidence"@, ColumnType::Float32),
            column("source_chunk_ids"@, ColumnType::ListUtf8),
            column("confirmed_by_event_id"@, ColumnType::FixedSizeBinary(16)),
            column("review_at"@, ColumnType::TimestampMsUtc),
            column("ttl_ms"@, ColumnType::UInt32),
            column("conflict_state"@, ColumnType::DictU8Utf8),
            column("embedding"@, ColumnType::FixedSizeListF32(1536)),
            column("embedding_dim"@, ColumnType::UInt16),
        ]
    }

    fn plane() -> (p: Plane) {
        Plane::Knowledge
    }

    fn kind() -> (k: &'static str) {
        "MemoryEntries"
    }

    fn payload() -> (fields: Vec<FieldDef>) {
        let p = Payload::new(Plane::Knowledge)
            .with("memory_id", ColumnType::FixedSizeBinary(16))
            .with("kind", ColumnType::DictU8Utf8)
            .with("timestamp", ColumnType::TimestampMsUtc)
            .with("value", ColumnType::MapUtf8Utf8)
            .with("confidence", ColumnType::Float32)
            .with("source_chunk_ids", ColumnType::ListUtf8)
            .with("confirmed_by_event_id", ColumnType::FixedSizeBinary(16))
            .with("review_at", ColumnType::TimestampMsUtc)
            .with("ttl_ms", ColumnType::UInt32)
            .with("conflict_state", ColumnType::DictU8Utf8)
            .with("embedding", ColumnType::FixedSizeListF32(1536))
            .with("embedding_dim", ColumnType::UInt16);
        assert(p.fields() == Self::table_payload());
        p.finish()
    }
}

/// Long-term memory entries.
pub type MemoryEntries = Table<MemoryEntriesDef>;

/// Declaration of the `LlmCalls` table of the Execution plane.
pub struct LlmCallsDef;

impl TableDef for LlmCallsDef {
    open spec fn table_plane() -> Plane {
        Plane::Execution
    }

    open spec fn table_kind() -> Seq<char> {
        "LlmCalls"@
    }

    open spec fn table_payload() -> Seq<FieldView> {
        seq![
            column("call_id"@, ColumnType::FixedSizeBinary(16)),
            column("request_id"@, ColumnType::FixedSizeBinary(16)),
            column("model_id"@, ColumnType::DictU8Utf8),
            column("prompt_tokens"@, ColumnType::UInt32),
            column("completion_tokens"@, ColumnType::UInt32),
            column("total_tokens"@, ColumnType::UInt32),
            column("latency_ms"@, ColumnType::UInt32),
            column("cache_hit"@, ColumnType::Boolean),
        ]
    }

    fn plane() -> (p: Plane) {
        Plane::Execution
    }

    fn kind() -> (k: &'static str) {
        "LlmCalls"
    }

    fn payload() -> (fields: Vec<FieldDef>) {
        let p = Payload::new(Plane::Execution)
            .with("call_id", ColumnType::FixedSizeBinary(16))
            .with("request_id", ColumnType::FixedSizeBinary(16))
            .with("model_id", ColumnType::DictU8Utf8)
            .with("prompt_tokens", ColumnType::UInt32)
            .with("completion_tokens", ColumnType::UInt32)
            .with("total_tokens", ColumnType::UInt32)
            .with("latency_ms", ColumnType::UInt32)
            .with("cache_hit", ColumnType::Boolean);
        assert(p.fields() == Self::table_payload());
        p.finish()
    }
}

/// Calls to the inference engine and what they cost.
pub type LlmCalls = Table<LlmCallsDef>;

/// Declaration of the `PlatformSignals` table of the Execution plane.
pub struct PlatformSignalsDef;

impl TableDef for PlatformSignalsDef {
    open spec fn table_plane() -> Plane {
        Plane::Execution
    }

    open spec fn table_kind() -> Seq<char> {
        "PlatformSignals"@
    }

    open spec fn table_payload() -> Seq<FieldView> {
        seq![
            column("signal_id"@, ColumnType::FixedSizeBinary(16)),
            column("timestamp"@, ColumnType::TimestampMsUtc),
            column("device_id"@, ColumnType::FixedSizeBinary(16)),
            column("session_id"@, ColumnType::FixedSizeBinary(16)),
            column("thermal_throttled"@, ColumnType::Boolean),
            column("thermal_domain"@, ColumnType::DictU8Utf8),
            column("dvfs_state"@, ColumnType::DictU8Utf8),
            column("free_ram_mb"@, ColumnType::UInt32),
            column("swap_in_mb"@, ColumnType::UInt32),
            column("major_faults"@, ColumnType::UInt32),
            column("bytes_written_today"@, ColumnType::Int64),
            column("waf_estimate"@, ColumnType::Float32),
            column("ssd_health"@, ColumnType::Float32),
            column("npu_shape_buckets"@, ColumnType::ListUtf8),
            column("supported_quant"@, ColumnType::ListUtf8),
            column("gpu_active"@, ColumnType::Boolean),
            column("gpu_wake_ms_p95"@, ColumnType::UInt32),
            column("solver_wake_count"@, ColumnType::UInt32),
            column("solver_active_ms"@, ColumnType::UInt32),
            column("encoder_active_ms"@, ColumnType::UInt32),
        ]
    }

    fn plane() -> (p: Plane) {
        Plane::Execution
    }

    fn kind() -> (k: &'static str) {
        "PlatformSignals"
    }

    fn payload() -> (fields: Vec<FieldDef>) {
        let p = Payload::new(Plane::Execution)
            .with("signal_id", ColumnType::FixedSizeBinary(16))
            .with("timestamp", ColumnType::TimestampMsUtc)
            .with("device_id", ColumnType::FixedSizeBinary(16))
            .with("session_id", ColumnType::FixedSizeBinary(16))
            .with("thermal_throttled", ColumnType::Boolean)
            .with("thermal_domain", ColumnType::DictU8Utf8)
            .with("dvfs_state", ColumnType::DictU8Utf8)
            .with("free_ram_mb", ColumnType::UInt32)
            .with("swap_in_mb", ColumnType::UInt32)
            .with("major_faults", ColumnType::UInt32)
            .with("bytes_written_today", ColumnType::Int64)
            .with("waf_estimate", ColumnType::Float32)
            .with("ssd_health", ColumnType::Float32)
            .with("npu_shape_buckets", ColumnType::ListUtf8)
            .with("supported_quant", ColumnType::ListUtf8)
            .with("gpu_active", ColumnType::Boolean)
            .with("gpu_wake_ms_p95", ColumnType::UInt32)
            .with("solver_wake_count", ColumnType::UInt32)
            .with("solver_active_ms", ColumnType::UInt32)
            .with("encoder_active_ms", ColumnType::UInt32);
        assert(p.fields() == Self::table_payload());
        p.finish()
    }
}

/// Signals sampled from the platform.
pub type PlatformSignals = Table<PlatformSignalsDef>;

/// Declaration of the `PlatformCapabilities` table of the Execution plane.
pub struct PlatformCapabilitiesDef;

impl TableDef for PlatformCapabilitiesDef {
    open spec fn table_plane() -> Plane {
        Plane::Execution
    }

    open spec fn table_kind() -> Seq<char> {
        "PlatformCapabilities"@
    }

    open spec fn table_payload() -> Seq<FieldView> {
        seq![
            column("capability_id"@, ColumnType::FixedSizeBinary(16)),
            column("timestamp"@, ColumnType::TimestampMsUtc),
            column("device_id"@, ColumnType::FixedSizeBinary(16)),
            column("npu_shape_buckets"@, ColumnType::ListUtf8),
            column("supported_quant"@, ColumnType::ListUtf8),
        ]
    }

    fn plane() -> (p: Plane) {
        Plane::Execution
    }

    fn kind() -> (k: &'static str) {
        "PlatformCapabilities"
    }

    fn payload() -> (fields: Vec<FieldDef>) {
        let p = Payload::new(Plane::Execution)
            .with("capability_id", ColumnType::FixedSizeBinary(16))
            .with("timestamp", ColumnType::TimestampMsUtc)
            .with("device_id", ColumnType::FixedSizeBinary(16))
            .with("npu_shape_buckets", ColumnType::ListUtf8)
            .with("supported_quant", ColumnType::ListUtf8);
        assert(p.fields() == Self::table_payload());
        p.finish()
    }
}

/// What the platform supports.
pub type PlatformCapabilities = Table<PlatformCapabilitiesDef>;

/// Declaration of the `Metrics` table of the Execution plane.
pub struct MetricsDef;

impl TableDef for MetricsDef {
    open spec fn table_plane() -> Plane {
        Plane::Execution
    }

    open spec fn table_kind() -> Seq<char> {
        "Metrics"@
    }

    open spec fn table_payload() -> Seq<FieldView> {
        seq![
            column("metric_id"@, ColumnType::FixedSizeBinary(16)),
            column("name"@, ColumnType::DictU8Utf8),
            column("value_float"@, ColumnType::Float64),
            column("value_int"@, ColumnType::Int64),
            column("labels"@, ColumnType::MapUtf8Utf8),
        ]
    }

    fn plane() -> (p: Plane) {
        Plane::Execution
    }

    fn kind() -> (k: &'static str) {
        "Metrics"
    }

    fn payload() -> (fields: Vec<FieldDef>) {
        let p = Payload::new(Plane::Execution)
            .with("metric_id", ColumnType::FixedSizeBinary(16))
            .with("name", ColumnType::DictU8Utf8)
            .with("value_float", ColumnType::Float64)
            .with("value_int", ColumnType::Int64)
            .with("labels", ColumnType::MapUtf8Utf8);
        assert(p.fields() == Self::table_payload());
        p.finish()
    }
}

/// Named measurements.
pub type Metrics = Table<MetricsDef>;

} // verus!
