use std::sync::Arc;

use arrow::array::{ArrayRef, Int32Array, StringArray, UInt32Array};
use arrow::datatypes::{DataType, Field, Schema};
use arrow::record_batch::RecordBatch;
use goni_kernel::agent::{AgentManifest, Budgets, ManifestSections, Permissions, Trigger};
use goni_kernel::cap::{NetCap, TokenCap, ToolError};
use goni_kernel::classifier::{classify, DataClass};
use goni_kernel::columnar::ColumnBatch;
use goni_kernel::gateway::{
    egress_policy, flatten_user_messages, gate_fetch, host_of, parse_allowlist, seal_chat_receipt,
    tail_start, Message,
};
use goni_kernel::infer::{
    completions_url, number_tokens, sse_payloads, LlmEngine, LlmError, LlmToken, NullLlmEngine,
    Transcript,
};
use goni_kernel::policy::{BudgetLedger, CapabilityToken, PolicyDecision, PolicyEngine};
use goni_kernel::receipts::{hash_receipt, ReceiptLog};
use goni_kernel::redactor::{redact, RedactionProfile};
use goni_kernel::router::{
    ConfigRouter, EscalationPolicy, ModelConfig, NullRouter, Router, RouterConfig,
};
use goni_kernel::store::{
    ingest_rows, looks_like_rag_ingest, payload_tokens, result_width, routes_to_rag, search_url,
    upsert_url, DataError, InMemorySpineDataPlane, NullDataPlane,
};
use goni_kernel::tools::{decision_label, ToolCall, ToolExecutor};
use goni_kernel::types::{
    CancelPolicy, ContextSelection, JobSpec, KvPageId, LlmRequest, ModelTier, TaskClass,
};

fn text_batch(names: &[&str]) -> ColumnBatch {
    let fields: Vec<Field> = names.iter().map(|n| Field::new(*n, DataType::Utf8, true)).collect();
    let columns: Vec<ArrayRef> =
        names.iter().map(|_| Arc::new(StringArray::from(vec![Some("x")])) as ArrayRef).collect();
    ColumnBatch { inner: Arc::new(RecordBatch::try_new(Arc::new(Schema::new(fields)), columns).unwrap()) }
}

fn empty_batch() -> ColumnBatch {
    ColumnBatch { inner: Arc::new(RecordBatch::new_empty(Arc::new(Schema::empty()))) }
}

fn selection() -> ContextSelection {
    ContextSelection { indices: vec![], total_tokens: 0 }
}

#[test]
fn classify_goes_by_markers() {
    assert_eq!(classify("nothing to see"), DataClass::Public);
    assert_eq!(classify(""), DataClass::Public);
    assert_eq!(classify("this is SENSITIVE data"), DataClass::Sensitive);
    assert_eq!(classify("TOP SECRET"), DataClass::Secret);
    assert_eq!(classify("SENSITIVE and SECRET"), DataClass::Secret);
    assert_eq!(classify("secret in lower case"), DataClass::Public);
    assert_eq!(classify("SECRE T"), DataClass::Public);
}

#[test]
fn redact_replaces_or_refuses_secrets() {
    let closed = RedactionProfile { fail_closed: true };
    let open = RedactionProfile { fail_closed: false };
    assert_eq!(redact("the key", DataClass::Secret, &closed), Ok("[REDACTED]".to_string()));
    assert_eq!(redact("the key", DataClass::Secret, &open), Err("secret_requires_redaction".to_string()));
    assert_eq!(redact("the key", DataClass::Sensitive, &open), Ok("the key".to_string()));
    assert_eq!(redact("the key", DataClass::Public, &closed), Ok("the key".to_string()));
}

#[test]
fn null_router_answers_local_small() {
    let (decision, policy) = NullRouter.decide("any prompt", &selection());
    assert_eq!(decision.chosen_tier, ModelTier::LocalSmall);
    assert_eq!(decision.reason, "NullRouter");
    assert_eq!(policy, EscalationPolicy::Never);
}

#[test]
fn config_router_goes_by_prompt_length() {
    let router = ConfigRouter::new(RouterConfig {
        models: vec![
            ModelConfig { name: "batch".into(), id: "m0".into(), max_tokens: Some(1) },
            ModelConfig { name: "interactive".into(), id: "m1".into(), max_tokens: Some(3) },
            ModelConfig { name: "interactive".into(), id: "m2".into(), max_tokens: Some(100) },
        ],
        target_local_token_ratio: None,
    });
    assert_eq!(router.choose_tier("one two three"), ModelTier::LocalSmall);
    assert_eq!(router.choose_tier("one two  three\tfour"), ModelTier::LocalLarge);
    assert_eq!(router.choose_tier(""), ModelTier::LocalSmall);
    let (decision, policy) = router.decide("one two three four", &selection());
    assert_eq!(decision.chosen_tier, ModelTier::LocalLarge);
    assert_eq!(decision.reason, "config");
    assert_eq!(policy, EscalationPolicy::Never);

    // without a word limit the limit is 256 words
    let router = ConfigRouter::new(RouterConfig {
        models: vec![ModelConfig { name: "interactive".into(), id: "m1".into(), max_tokens: None }],
        target_local_token_ratio: None,
    });
    let words_256 = vec!["w"; 256].join(" ");
    let words_257 = vec!["w"; 257].join(" ");
    assert_eq!(router.choose_tier(&words_256), ModelTier::LocalSmall);
    assert_eq!(router.choose_tier(&words_257), ModelTier::LocalLarge);

    // without an interactive model the small tier is the answer
    let router = ConfigRouter::new(RouterConfig {
        models: vec![ModelConfig { name: "batch".into(), id: "m0".into(), max_tokens: Some(0) }],
        target_local_token_ratio: None,
    });
    assert_eq!(router.choose_tier(&words_257), ModelTier::LocalSmall);
}

#[test]
fn manifest_hash_is_sha256_of_the_text() {
    let hash = AgentManifest::manifest_hash("id: x\n");
    assert_eq!(hex::encode(hash), "52b881e6cd7cfd1529038bb81780c86a64d968521573d22cc53823a0dc3aba8f");
    let hash = AgentManifest::manifest_hash("abc");
    assert_eq!(hex::encode(hash), "ba7816bf8f01cfea414140de5dae2223b00361a396177a9cb410ff61f20015ad");
    let hash = AgentManifest::manifest_hash("");
    assert_eq!(hex::encode(hash), "e3b0c44298fc1c149afbf4c8996fb92427ae41e4649b934ca495991b7852b855");
}

#[test]
fn agent_uuid_is_the_head_of_the_digest_of_the_id() {
    let manifest = AgentManifest {
        id: "goni.agent.legacy".into(),
        version: None,
        triggers: vec![Trigger::Schedule { cron: "0 7 * * *".into() }],
        permissions: Permissions::default(),
        budgets: Budgets::default(),
        tools: vec![],
        ui_surfaces: vec![],
        identity_requirements: vec![],
        remote_access: false,
    };
    assert_eq!(manifest.agent_uuid(), 0x780db632dc1a64a03bfb9f034be7517c);
    assert_eq!(manifest.agent_uuid(), manifest.clone().agent_uuid());
}

#[test]
fn manifest_defaults_are_empty() {
    let p = Permissions::default();
    assert!(p.fs_read.is_empty());
    assert!(p.fs_write.is_empty());
    assert!(!p.network);
    assert!(p.sensors.is_empty());
    let b = Budgets::default();
    assert_eq!(b.solver_wake_per_hour, None);
    assert_eq!(b.max_ssd_writes_per_day_mb, None);
    assert_eq!(b.max_execution_time_ms, None);
}

#[test]
fn tool_call_leaves_a_sealed_receipt() {
    let executor = ToolExecutor::new(PolicyEngine::default_deny(), ReceiptLog::open(&[]));
    let call = ToolCall {
        tool_id: "demo.echo".into(),
        args: "{\"x\":1}".into(),
        agent_id: 1,
        capability_token_id: 0xa1a2a3a4b1b2c1c2d1d2d3d4d5d6d7d8,
        state_snapshot_id: 3,
        policy_hash: [0u8; 32],
    };
    assert_eq!(hex::encode(call.args_hash()), "5041bf1f713df204784353e82f6a4a535931cb64f1f4b4a5aeaffcb720918b22");
    let token = CapabilityToken { token_id: 9, scopes: vec!["demo.echo".into()], expires_at: None };
    let mut ledger = BudgetLedger::new(0, 0, 2);
    let (result, receipt) = executor.execute(call.clone(), token.clone(), &mut ledger, 5, "now".into());
    assert!(!result.ok);
    assert_eq!(result.output, "{\"error\":\"tool executor not implemented\"}");
    assert_eq!(ledger.tool_calls_remaining, 1);
    assert_eq!(receipt.receipt_id, 5);
    assert_eq!(receipt.timestamp, "now");
    assert_eq!(receipt.action_type, "toolcall");
    assert_eq!(receipt.policy_decision, "allow");
    assert_eq!(receipt.capability_id, Some(0xa1a2a3a4b1b2c1c2d1d2d3d4d5d6d7d8));
    assert_eq!(receipt.input_hash, "5041bf1f713df204784353e82f6a4a535931cb64f1f4b4a5aeaffcb720918b22");
    assert_eq!(receipt.output_hash, "00".repeat(32));
    assert_eq!(receipt.prev_hash, None);
    assert_eq!(receipt.chain_hash, hash_receipt(&receipt));
    // sealing does not move the tail
    assert_eq!(executor.receipts.last_hash(), None);

    let (result, receipt) = executor.execute(call, token, &mut ledger, 6, "later".into());
    assert!(!result.ok);
    assert_eq!(result.output, "{\"error\":\"capability denied\"}");
    assert_eq!(receipt.policy_decision, "deny:tool_call_budget_exhausted");
    assert_eq!(ledger.tool_calls_remaining, 1);
}

#[test]
fn decisions_are_labelled_for_receipts() {
    assert_eq!(decision_label(&PolicyDecision::Allow), "allow");
    assert_eq!(decision_label(&PolicyDecision::Deny("egress_denied".into())), "deny:egress_denied");
}

#[test]
fn null_data_plane_holds_nothing() {
    let plane = NullDataPlane;
    assert!(plane.query("select 1").unwrap().is_empty());
    assert!(plane.append_batches("t", vec![empty_batch()]).is_ok());
    let err: DataError = plane.rag_candidates("default", 8).unwrap_err();
    assert_eq!(err.message, "NullDataPlane has no RAG");
}

#[test]
fn spine_tables_keep_what_was_appended() {
    let mut plane = InMemorySpineDataPlane::new();
    assert!(plane.get_table("audit").is_empty());
    let a = text_batch(&["a"]);
    let b = text_batch(&["b"]);
    let c = text_batch(&["c"]);
    plane.append_batches("audit", vec![a.clone()]).unwrap();
    plane.append_batches("state", vec![b.clone()]).unwrap();
    plane.append_batches("audit", vec![c.clone(), b.clone()]).unwrap();
    let audit = plane.get_table("audit");
    assert_eq!(audit.len(), 3);
    assert!(Arc::ptr_eq(&audit[0].inner, &a.inner));
    assert!(Arc::ptr_eq(&audit[1].inner, &c.inner));
    assert!(Arc::ptr_eq(&audit[2].inner, &b.inner));
    let state = plane.get_table("state");
    assert_eq!(state.len(), 1);
    assert!(Arc::ptr_eq(&state[0].inner, &b.inner));
    assert!(plane.get_table("other").is_empty());
    assert_eq!(plane.query("select 1").unwrap_err().message, "InMemorySpineDataPlane does not support SQL queries");
    assert_eq!(plane.rag_candidates("c", 1).unwrap_err().message, "InMemorySpineDataPlane has no RAG");
}

#[test]
fn appends_are_routed_by_shape() {
    assert!(looks_like_rag_ingest(&text_batch(&["id", "text", "tokens"])));
    assert!(looks_like_rag_ingest(&text_batch(&["tokens", "extra", "text", "id"])));
    assert!(!looks_like_rag_ingest(&text_batch(&["id", "text"])));
    assert!(!looks_like_rag_ingest(&text_batch(&["id", "text", "tokens", "row_id"])));
    assert!(!looks_like_rag_ingest(&empty_batch()));
    assert!(routes_to_rag(&vec![text_batch(&["a"]), text_batch(&["id", "text", "tokens"])]));
    assert!(!routes_to_rag(&vec![text_batch(&["a"]), text_batch(&["row_id", "id", "text", "tokens"])]));
    assert!(!routes_to_rag(&vec![]));
}

#[test]
fn search_results_must_share_a_width() {
    assert_eq!(result_width(&[4, 4, 4]).unwrap(), 4);
    assert_eq!(result_width(&[7]).unwrap(), 7);
    assert_eq!(result_width(&[4, 3]).unwrap_err().message, "embedding dimension mismatch across results");
    assert_eq!(result_width(&[0, 3]).unwrap_err().message, "embedding dimension mismatch across results");
    assert_eq!(result_width(&[]).unwrap_err().message, "qdrant returned no embeddings");
    assert_eq!(result_width(&[0, 0]).unwrap_err().message, "qdrant returned no embeddings");
}

#[test]
fn ingest_reads_rows_with_id_and_text() {
    let schema = Arc::new(Schema::new(vec![
        Field::new("id", DataType::Utf8, true),
        Field::new("text", DataType::Utf8, true),
        Field::new("tokens", DataType::UInt32, false),
    ]));
    let columns: Vec<ArrayRef> = vec![
        Arc::new(StringArray::from(vec![Some("a"), None, Some("c"), Some("d")])),
        Arc::new(StringArray::from(vec![Some("alpha"), Some("beta"), None, Some("delta")])),
        Arc::new(UInt32Array::from(vec![1u32, 2, 3, 4])),
    ];
    let batch = ColumnBatch { inner: Arc::new(RecordBatch::try_new(schema, columns).unwrap()) };
    let rows = ingest_rows(&batch).unwrap();
    assert_eq!(rows.len(), 2);
    assert_eq!((rows[0].id, rows[0].text, rows[0].tokens), ("a", "alpha", 1));
    assert_eq!((rows[1].id, rows[1].text, rows[1].tokens), ("d", "delta", 4));

    assert_eq!(ingest_rows(&text_batch(&["text", "tokens"])).unwrap_err().message, "missing id column");
    assert_eq!(ingest_rows(&text_batch(&["id", "tokens"])).unwrap_err().message, "missing text column");
    assert_eq!(ingest_rows(&text_batch(&["id", "text"])).unwrap_err().message, "missing tokens column");
    assert_eq!(ingest_rows(&text_batch(&["id", "text", "tokens"])).unwrap_err().message, "tokens column not u32");

    let schema = Arc::new(Schema::new(vec![
        Field::new("id", DataType::Int32, false),
        Field::new("text", DataType::Int32, false),
        Field::new("tokens", DataType::Int32, false),
    ]));
    let columns: Vec<ArrayRef> = vec![
        Arc::new(Int32Array::from(vec![1])),
        Arc::new(Int32Array::from(vec![1])),
        Arc::new(Int32Array::from(vec![1])),
    ];
    let batch = ColumnBatch { inner: Arc::new(RecordBatch::try_new(schema.clone(), columns).unwrap()) };
    assert_eq!(ingest_rows(&batch).unwrap_err().message, "id column not utf8");
    let schema = Arc::new(Schema::new(vec![
        Field::new("id", DataType::Utf8, false),
        Field::new("text", DataType::Int32, false),
        Field::new("tokens", DataType::Int32, false),
    ]));
    let columns: Vec<ArrayRef> = vec![
        Arc::new(StringArray::from(vec!["a"])),
        Arc::new(Int32Array::from(vec![1])),
        Arc::new(Int32Array::from(vec![1])),
    ];
    let batch = ColumnBatch { inner: Arc::new(RecordBatch::try_new(schema, columns).unwrap()) };
    assert_eq!(ingest_rows(&batch).unwrap_err().message, "text column not utf8");
}

#[test]
fn hosts_are_the_third_piece_of_a_url() {
    assert_eq!(host_of("https://example.com/path/x"), "example.com");
    assert_eq!(host_of("http://api.test:8080"), "api.test:8080");
    assert_eq!(host_of("https://"), "");
    assert_eq!(host_of("example.com/path"), "");
    assert_eq!(host_of("a/b/c/d"), "c");
    assert_eq!(host_of(""), "");
    assert_eq!(host_of("//h"), "h");
}

#[test]
fn allowlists_drop_empty_entries() {
    assert_eq!(parse_allowlist("a.com,b.org"), vec!["a.com".to_string(), "b.org".to_string()]);
    assert_eq!(parse_allowlist(",a.com,,b.org,"), vec!["a.com".to_string(), "b.org".to_string()]);
    assert_eq!(parse_allowlist(" a.com"), vec![" a.com".to_string()]);
    assert!(parse_allowlist("").is_empty());
    assert!(parse_allowlist(",,").is_empty());
    assert_eq!(egress_policy("").evaluate_egress("a.com"), PolicyDecision::Deny("egress_denied".into()));
    assert_eq!(egress_policy("a.com").evaluate_egress("a.com"), PolicyDecision::Allow);
    assert_eq!(egress_policy("a.com").evaluate_egress("b.org"), PolicyDecision::Deny("host_not_allowed".into()));
}

#[test]
fn egress_requests_leave_receipts() {
    let policy = PolicyEngine::allowlist(vec!["example.com".into()]);
    let mut log = ReceiptLog::open(&[]);
    let (decision, receipt) = gate_fetch(&policy, &log, "https://example.com/x", "tok", 1, "t1".into());
    assert_eq!(decision, PolicyDecision::Allow);
    assert_eq!(receipt.action_type, "egress");
    assert_eq!(receipt.policy_decision, "allow");
    // uuid5(NAMESPACE_OID, "tok") = 00ab2759-e197-5d7f-a8fc-b5d3d894bad7
    assert_eq!(receipt.capability_id, Some(0x00ab2759e1975d7fa8fcb5d3d894bad7));
    assert_eq!(receipt.capability_id, Some(uuid::Uuid::new_v5(&uuid::Uuid::NAMESPACE_OID, b"tok").as_u128()));
    assert_eq!(receipt.input_hash, "");
    assert_eq!(receipt.output_hash, "");
    assert_eq!(receipt.prev_hash, None);
    assert_eq!(receipt.chain_hash, hash_receipt(&receipt));
    log.commit(&receipt);

    let (decision, next) = gate_fetch(&policy, &log, "https://evil.test/x", "tok", 2, "t2".into());
    assert_eq!(decision, PolicyDecision::Deny("host_not_allowed".into()));
    assert_eq!(next.policy_decision, "deny:host_not_allowed");
    assert_eq!(next.prev_hash, Some(receipt.chain_hash.clone()));
}

#[test]
fn user_messages_are_joined_by_line_breaks() {
    let m = |role: &str, content: &str| Message { role: role.into(), content: content.into() };
    assert_eq!(flatten_user_messages(&[]), "");
    assert_eq!(flatten_user_messages(&[m("user", "hi")]), "hi");
    assert_eq!(
        flatten_user_messages(&[m("system", "be kind"), m("user", "hi"), m("assistant", "yo"), m("user", "bye")]),
        "hi\nbye"
    );
    // an empty prompt takes no line break
    assert_eq!(flatten_user_messages(&[m("user", ""), m("user", "a"), m("user", ""), m("user", "b")]), "a\n\nb");
    assert_eq!(flatten_user_messages(&[m("User", "hi")]), "");
}

#[test]
fn chat_receipts_hash_prompt_and_answer() {
    let log = ReceiptLog::open(&[]);
    let receipt = seal_chat_receipt(&log, 3, "t".into(), "hi", "yo");
    assert_eq!(receipt.action_type, "chat.completion");
    assert_eq!(receipt.policy_decision, "allow");
    assert_eq!(receipt.capability_id, None);
    assert_eq!(receipt.input_hash, "8f434346648f6b96df89dda901c5176b10a6d83961dd3c1ac88b59b2dc327aa4");
    assert_eq!(receipt.output_hash, "e9058ab198f6908f702111b0c0fb5b36f99d00554521886c40e2891b349dc7a1");
    assert_eq!(receipt.chain_hash, hash_receipt(&receipt));
}

#[test]
fn tail_starts_where_the_last_lines_start() {
    assert_eq!(tail_start(10, 3), 7);
    assert_eq!(tail_start(3, 3), 0);
    assert_eq!(tail_start(3, 10), 0);
    assert_eq!(tail_start(0, 0), 0);
}

#[test]
fn transcript_stops_at_the_limit() {
    let t = |text: &str| LlmToken { token_id: 0, text: text.into() };
    let mut transcript = Transcript::new(5);
    assert!(!transcript.push(&t("ab")));
    assert!(!transcript.push(&t("")));
    assert!(!transcript.push(&t("cd")));
    assert!(transcript.push(&t("é")));
    assert_eq!(transcript.into_text(), "abcdé");
    let mut transcript = Transcript::new(0);
    assert!(transcript.push(&t("")));
    let mut transcript = Transcript::new(2);
    assert!(transcript.push(&t("abc")));
    assert_eq!(transcript.into_text(), "abc");
}

#[test]
fn null_engine_generates_nothing() {
    let req = LlmRequest {
        prompt: "hi".into(),
        context: selection(),
        model_tier: ModelTier::LocalSmall,
        max_tokens: 512,
    };
    let tokens: Result<Vec<LlmToken>, LlmError> = NullLlmEngine.generate(req);
    assert!(tokens.unwrap().is_empty());
}

#[test]
fn plain_types_hold_their_fields() {
    let job = JobSpec {
        job_id: 1,
        class: TaskClass::Maintenance,
        priority: 2,
        deadline: None,
        cancel_policy: CancelPolicy::BestEffort,
        budgets: goni_kernel::types::Budgets { max_tokens: 1, max_wall_ms: 2, max_tool_calls: 3 },
        required_capabilities: vec!["fs".into()],
    };
    assert_eq!(job.clone().budgets.max_tool_calls, 3);
    assert_eq!(job.cancel_policy, CancelPolicy::BestEffort);
    assert_eq!(KvPageId(4), KvPageId(4));
    let net = NetCap::AllowDomains(vec!["a.com".into()]);
    assert!(matches!(net, NetCap::AllowDomains(ref d) if d.len() == 1));
    assert!(matches!(NetCap::NoNet, NetCap::NoNet));
    assert_eq!(TokenCap { remaining: 5 }.remaining, 5);
    assert_eq!(ToolError { message: "boom".into() }.message, "boom");
}

#[test]
fn event_stream_payloads_are_the_data_lines() {
    let chunk = "data: {\"a\":1}\r\n\r\ndata:\n  data: data: {\"b\":2}  \n: comment\ndata: [DONE]\n\n";
    assert_eq!(sse_payloads(chunk), vec!["{\"a\":1}", "{\"b\":2}", ": comment"]);
    assert!(sse_payloads("").is_empty());
    assert!(sse_payloads("\n\n  \n").is_empty());
    assert!(sse_payloads("data: [DONE]").is_empty());
    assert_eq!(sse_payloads("[DONE] "), Vec::<&str>::new());
    assert_eq!(sse_payloads("data:x"), vec!["data:x"]);
    assert_eq!(sse_payloads("no newline at end"), vec!["no newline at end"]);
    // a carriage return ends a line only before a line feed
    assert_eq!(sse_payloads("a\rb\nc\r\nd\r"), vec!["a\rb", "c", "d"]);
}

#[test]
fn tokens_are_numbered_from_the_position_of_their_chunk() {
    let tokens = number_tokens(3, vec!["a".into(), "".into(), "bc".into(), "".into()]);
    assert_eq!(tokens.len(), 2);
    assert_eq!((tokens[0].token_id, tokens[0].text.as_str()), (3, "a"));
    assert_eq!((tokens[1].token_id, tokens[1].text.as_str()), (4, "bc"));
    assert!(number_tokens(0, vec![]).is_empty());
    assert!(number_tokens(u32::MAX, vec!["".into()]).is_empty());
    let tokens = number_tokens(u32::MAX - 1, vec!["x".into()]);
    assert_eq!(tokens[0].token_id, u32::MAX - 1);
}

#[test]
fn backend_urls_are_built_from_the_base() {
    assert_eq!(completions_url("http://localhost:8000/v1"), "http://localhost:8000/v1/chat/completions");
    assert_eq!(search_url("http://q:6333", "default"), "http://q:6333/collections/default/points/search");
    assert_eq!(upsert_url("http://q:6333", "docs"), "http://q:6333/collections/docs/points?wait=true");
}

#[test]
fn payload_tokens_keep_the_low_32_bits() {
    assert_eq!(payload_tokens(None), 0);
    assert_eq!(payload_tokens(Some(0)), 0);
    assert_eq!(payload_tokens(Some(17)), 17);
    assert_eq!(payload_tokens(Some(u32::MAX as u64)), u32::MAX);
    assert_eq!(payload_tokens(Some(u32::MAX as u64 + 6)), 5);
}

#[test]
fn omitted_manifest_sections_take_their_defaults() {
    // a manifest from before the newer sections existed
    let legacy = ManifestSections {
        version: Some("0.1.0".into()),
        triggers: Some(vec![Trigger::Schedule { cron: "0 7 * * *".into() }]),
        permissions: Some(Permissions::from_sections(
            Some(vec!["~/Documents".into()]),
            Some(vec!["~/Documents/Out".into()]),
            Some(false),
            None,
        )),
        budgets: Some(Budgets {
            solver_wake_per_hour: Some(2),
            max_ssd_writes_per_day_mb: Some(100),
            max_execution_time_ms: None,
        }),
        tools: Some(vec!["pdf_text_extract".into()]),
        ui_surfaces: None,
        identity_requirements: None,
        remote_access: None,
    };
    let manifest = AgentManifest::from_sections("goni.agent.legacy".into(), legacy);
    assert_eq!(manifest.id, "goni.agent.legacy");
    assert_eq!(manifest.version.as_deref(), Some("0.1.0"));
    assert_eq!(manifest.triggers.len(), 1);
    assert_eq!(manifest.permissions.fs_read, vec!["~/Documents"]);
    assert_eq!(manifest.permissions.fs_write, vec!["~/Documents/Out"]);
    assert!(!manifest.permissions.network);
    assert!(manifest.permissions.sensors.is_empty());
    assert_eq!(manifest.budgets.solver_wake_per_hour, Some(2));
    assert_eq!(manifest.budgets.max_ssd_writes_per_day_mb, Some(100));
    assert_eq!(manifest.tools, vec!["pdf_text_extract"]);
    assert!(manifest.ui_surfaces.is_empty());
    assert!(manifest.identity_requirements.is_empty());
    assert!(!manifest.remote_access);

    // the newer sections, when present, are kept
    let newer = ManifestSections {
        version: None,
        triggers: None,
        permissions: None,
        budgets: None,
        tools: None,
        ui_surfaces: Some(vec!["dashboard_tile".into(), "inbox_sidebar".into()]),
        identity_requirements: Some(vec!["user_session".into()]),
        remote_access: Some(true),
    };
    let manifest = AgentManifest::from_sections("goni.agent.new".into(), newer);
    assert_eq!(manifest.ui_surfaces, vec!["dashboard_tile", "inbox_sidebar"]);
    assert_eq!(manifest.identity_requirements, vec!["user_session"]);
    assert!(manifest.remote_access);
    assert_eq!(manifest.version, None);
    assert!(manifest.triggers.is_empty());
    assert!(manifest.tools.is_empty());
    assert!(manifest.permissions.fs_read.is_empty());
    assert!(!manifest.permissions.network);
    assert_eq!(manifest.budgets.max_execution_time_ms, None);
}
