use goni_kernel::policy::{
    decide_initiative, evaluate_memory_write, evaluate_redaction, BudgetLedger, CapabilityToken,
    InitiativeDecision, MemoryWriteRequest, Policy, PolicyDecision, PolicyEngine, RedactionRequest,
};
use uuid::Uuid;

fn initiative(confidence: f32, urgency: f32, interruptibility: f32, reversible: bool) -> InitiativeDecision {
    decide_initiative(confidence.to_bits(), urgency.to_bits(), interruptibility.to_bits(), reversible)
}

fn deny(reason: &str) -> PolicyDecision {
    PolicyDecision::Deny(reason.into())
}

#[test]
fn initiative_is_deterministic() {
    let a = initiative(0.9, 0.8, 0.6, true);
    let b = initiative(0.9, 0.8, 0.6, true);
    assert_eq!(a, b);
}

#[test]
fn tool_scope_denied() {
    let engine = PolicyEngine::default_deny();
    let token = CapabilityToken {
        token_id: Uuid::new_v4().as_u128(),
        scopes: vec!["demo.echo".into()],
        expires_at: None,
    };
    let mut ledger = BudgetLedger::new(1, 1, 1);
    let decision = engine.evaluate_tool(&token, "other.tool", &mut ledger);
    assert!(matches!(decision, PolicyDecision::Deny(_)));
    assert_eq!(decision, deny("scope_not_allowed"));
    assert_eq!(ledger.bytes_remaining, 1);
    assert_eq!(ledger.tokens_remaining, 1);
    assert_eq!(ledger.tool_calls_remaining, 1);
}

#[test]
fn memory_write_requires_evidence() {
    let req = MemoryWriteRequest {
        evidence_ids: Vec::new(),
        receipt_id: None,
        ttl_days: None,
        uncertain: false,
    };
    let decision = evaluate_memory_write(&req);
    assert!(matches!(decision, PolicyDecision::Deny(_)));
}

#[test]
fn redaction_requires_profile() {
    let req = RedactionRequest {
        profile_present: false,
        plane_ok: true,
        manifest_present: true,
    };
    let decision = evaluate_redaction(&req);
    assert!(matches!(decision, PolicyDecision::Deny(_)));
}

#[test]
fn initiative_rules_apply_in_order() {
    assert_eq!(initiative(1.0, 1.0, 1.0, false), InitiativeDecision::Ask);
    assert_eq!(initiative(0.0, 0.0, 0.0, false), InitiativeDecision::Ask);
    assert_eq!(initiative(0.9, 0.8, 0.6, true), InitiativeDecision::Act);
    assert_eq!(initiative(0.9, 0.8, 0.5, true), InitiativeDecision::Propose);
    assert_eq!(initiative(0.9, 0.7, 0.6, true), InitiativeDecision::Propose);
    assert_eq!(initiative(0.8, 0.8, 0.6, true), InitiativeDecision::Propose);
    assert_eq!(initiative(0.61, 0.0, 0.0, true), InitiativeDecision::Propose);
    assert_eq!(initiative(0.6, 1.0, 1.0, true), InitiativeDecision::Defer);
    assert_eq!(initiative(0.0, 1.0, 1.0, true), InitiativeDecision::Defer);
}

#[test]
fn initiative_agrees_with_floating_point_comparison() {
    let levels = [
        -1.0f32,
        -0.0,
        0.0,
        0.3,
        0.5,
        0.500_000_1,
        0.6,
        0.600_000_1,
        0.7,
        0.700_000_1,
        0.8,
        0.800_000_1,
        1.0,
        2.5,
        f32::INFINITY,
        f32::NEG_INFINITY,
        f32::NAN,
    ];
    for &c in &levels {
        for &u in &levels {
            for &i in &levels {
                let expected = if c > 0.8 && u > 0.7 && i > 0.5 {
                    InitiativeDecision::Act
                } else if c > 0.6 {
                    InitiativeDecision::Propose
                } else {
                    InitiativeDecision::Defer
                };
                assert_eq!(initiative(c, u, i, true), expected);
                assert_eq!(initiative(c, u, i, false), InitiativeDecision::Ask);
            }
        }
    }
}

#[test]
fn tool_check_debits_one_call_when_allowed() {
    let engine = PolicyEngine::default_deny();
    let token = CapabilityToken { token_id: 1, scopes: vec!["demo.echo".into()], expires_at: None };
    let mut ledger = BudgetLedger::new(10, 20, 3);
    assert_eq!(engine.evaluate_tool(&token, "demo.echo", &mut ledger), PolicyDecision::Allow);
    assert_eq!(ledger.tool_calls_remaining, 2);
    assert_eq!(engine.evaluate_tool(&token, "demo.echo", &mut ledger), PolicyDecision::Allow);
    assert_eq!(ledger.tool_calls_remaining, 1);
    // the debit would leave nothing: denied, and nothing is debited
    assert_eq!(engine.evaluate_tool(&token, "demo.echo", &mut ledger), deny("tool_call_budget_exhausted"));
    assert_eq!(ledger.tool_calls_remaining, 1);
    assert_eq!(ledger.bytes_remaining, 10);
    assert_eq!(ledger.tokens_remaining, 20);
}

#[test]
fn tool_check_denies_when_the_debit_would_leave_no_call() {
    let engine = PolicyEngine::default_deny();
    let token = CapabilityToken { token_id: 1, scopes: vec!["*".into()], expires_at: None };
    for calls in [1i64, 0, -1, i64::MIN] {
        let mut ledger = BudgetLedger::new(5, 6, calls);
        assert_eq!(engine.evaluate_tool(&token, "demo.echo", &mut ledger), deny("tool_call_budget_exhausted"));
        assert_eq!(ledger.tool_calls_remaining, calls);
        assert_eq!(ledger.bytes_remaining, 5);
        assert_eq!(ledger.tokens_remaining, 6);
    }
    let mut ledger = BudgetLedger::new(5, 6, 2);
    assert_eq!(engine.evaluate_tool(&token, "demo.echo", &mut ledger), PolicyDecision::Allow);
    assert_eq!(ledger.tool_calls_remaining, 1);
    let mut ledger = BudgetLedger::new(5, 6, i64::MAX);
    assert_eq!(engine.evaluate_tool(&token, "demo.echo", &mut ledger), PolicyDecision::Allow);
    assert_eq!(ledger.tool_calls_remaining, i64::MAX - 1);
    // a tool outside the scopes is denied for that, whatever the balance
    let token = CapabilityToken { token_id: 1, scopes: vec!["other".into()], expires_at: None };
    let mut ledger = BudgetLedger::new(5, 6, 0);
    assert_eq!(engine.evaluate_tool(&token, "demo.echo", &mut ledger), deny("scope_not_allowed"));
}

#[test]
fn wildcard_scope_covers_every_tool() {
    let engine = PolicyEngine::default_deny();
    let token = CapabilityToken { token_id: 1, scopes: vec!["x".into(), "*".into()], expires_at: None };
    let mut ledger = BudgetLedger::new(0, 0, 2);
    assert_eq!(engine.evaluate_tool(&token, "anything.at.all", &mut ledger), PolicyDecision::Allow);
    assert_eq!(ledger.tool_calls_remaining, 1);
    // a scope is matched whole, not as a prefix
    let token = CapabilityToken { token_id: 1, scopes: vec!["demo".into()], expires_at: None };
    let mut ledger = BudgetLedger::new(0, 0, 1);
    assert_eq!(engine.evaluate_tool(&token, "demo.echo", &mut ledger), deny("scope_not_allowed"));
    // no scopes at all
    let token = CapabilityToken { token_id: 1, scopes: vec![], expires_at: None };
    assert_eq!(engine.evaluate_tool(&token, "demo.echo", &mut ledger), deny("scope_not_allowed"));
    assert_eq!(ledger.tool_calls_remaining, 1);
}

#[test]
fn debit_fails_on_an_empty_or_negative_balance() {
    let mut ledger = BudgetLedger::new(0, 0, 0);
    assert_eq!(ledger.debit_tool_call(), Err(deny("tool_call_budget_exhausted")));
    assert_eq!(ledger.tool_calls_remaining, 0);
    let mut ledger = BudgetLedger::new(0, 0, -3);
    assert_eq!(ledger.debit_tool_call(), Err(deny("tool_call_budget_exhausted")));
    assert_eq!(ledger.tool_calls_remaining, -3);
    let mut ledger = BudgetLedger::new(0, 0, 1);
    assert_eq!(ledger.debit_tool_call(), Ok(()));
    assert_eq!(ledger.tool_calls_remaining, 0);
}

#[test]
fn egress_goes_by_mode_and_allowlist() {
    let engine = PolicyEngine::default_deny();
    assert_eq!(engine.evaluate_egress("example.com"), deny("egress_denied"));

    let engine = PolicyEngine::allowlist(vec!["example.com".into(), "api.test".into()]);
    assert_eq!(engine.evaluate_egress("example.com"), PolicyDecision::Allow);
    assert_eq!(engine.evaluate_egress("api.test"), PolicyDecision::Allow);
    assert_eq!(engine.evaluate_egress("Example.com"), deny("host_not_allowed"));
    assert_eq!(engine.evaluate_egress("example.com:443"), deny("host_not_allowed"));
    assert_eq!(engine.evaluate_egress(""), deny("host_not_allowed"));

    // deny mode wins over the allowlist
    let engine = PolicyEngine::new(Policy { mode: "deny".into(), allowlist: vec!["example.com".into()] });
    assert_eq!(engine.evaluate_egress("example.com"), deny("egress_denied"));
    // any other mode goes by the allowlist
    let engine = PolicyEngine::new(Policy { mode: "open".into(), allowlist: vec!["example.com".into()] });
    assert_eq!(engine.evaluate_egress("example.com"), PolicyDecision::Allow);
    assert_eq!(engine.evaluate_egress("other.org"), deny("host_not_allowed"));
}

#[test]
fn memory_write_denials_come_in_order() {
    let mut req = MemoryWriteRequest {
        evidence_ids: Vec::new(),
        receipt_id: None,
        ttl_days: None,
        uncertain: true,
    };
    assert_eq!(evaluate_memory_write(&req), deny("missing_evidence"));
    req.evidence_ids.push("chunk-1".into());
    assert_eq!(evaluate_memory_write(&req), deny("missing_receipt"));
    req.receipt_id = Some(7);
    assert_eq!(evaluate_memory_write(&req), deny("missing_ttl"));
    req.ttl_days = Some(30);
    assert_eq!(evaluate_memory_write(&req), PolicyDecision::Allow);
    req.ttl_days = None;
    req.uncertain = false;
    assert_eq!(evaluate_memory_write(&req), PolicyDecision::Allow);
}

#[test]
fn redaction_denials_come_in_order() {
    let mut req = RedactionRequest { profile_present: false, plane_ok: false, manifest_present: false };
    assert_eq!(evaluate_redaction(&req), deny("missing_redaction_profile"));
    req.profile_present = true;
    assert_eq!(evaluate_redaction(&req), deny("plane_violation"));
    req.plane_ok = true;
    assert_eq!(evaluate_redaction(&req), deny("missing_manifest"));
    req.manifest_present = true;
    assert_eq!(evaluate_redaction(&req), PolicyDecision::Allow);
}
