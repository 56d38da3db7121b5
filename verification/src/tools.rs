//! The tool call boundary: every call is checked against a capability token
//! and leaves a receipt, whether it is allowed or not.

use vstd::prelude::*;
use vstd::string::StringExecFns;
use vstd::utf8::encode_utf8;

use crate::digest::{hex_encode, hex_lower, sha256, sha256_digest};
use crate::policy::{
    tool_decision, BudgetLedger, CapabilityToken, DecisionView, PolicyDecision, PolicyEngine,
};
use crate::receipts::{Receipt, ReceiptLog, ReceiptView};

verus! {

/// A call of a tool by an agent.
#[derive(Clone, Debug)]
pub struct ToolCall {
    pub tool_id: String,
    /// The arguments, as JSON text.
    pub args: String,
    pub agent_id: u128,
    pub capability_token_id: u128,
    pub state_snapshot_id: u128,
    pub policy_hash: [u8; 32],
}

/// What a tool call gave.
#[derive(Clone, Debug)]
pub struct ToolResult {
    pub ok: bool,
    /// The output, as JSON text.
    pub output: String,
}

impl ToolCall {
    /// The SHA-256 digest of the arguments.
    pub fn args_hash(&self) -> (hash: [u8; 32])
        ensures
            hash@ == sha256(encode_utf8(self.args@)),
    {
        sha256_digest(self.args.as_str().as_bytes())
    }
}

/// How a receipt records a decision: `allow`, or `deny:` and the reason.
pub open spec fn decision_text(d: DecisionView) -> Seq<char> {
    match d {
        DecisionView::Allow => "allow"@,
        DecisionView::Deny(reason) => "deny:"@ + reason,
    }
}

/// How a receipt records a decision.
pub fn decision_label(decision: &PolicyDecision) -> (label: String)
    ensures
        label@ == decision_text(decision@),
{
    match decision {
        PolicyDecision::Allow => "allow".to_owned(),
        PolicyDecision::Deny(reason) => {
            let mut label = "deny:".to_owned();
            label.append(reason.as_str());
            label
        },
    }
}

/// The receipt of a tool call before it is linked into the journal.
pub open spec fn tool_receipt(
    receipt_id: u128,
    timestamp: Seq<char>,
    decision: DecisionView,
    capability_token_id: u128,
    args: Seq<char>,
) -> ReceiptView {
    ReceiptView {
        receipt_id,
        timestamp,
        action_type: "toolcall"@,
        policy_decision: decision_text(decision),
        capability_id: Some(capability_token_id),
        input_hash: hex_lower(sha256(encode_utf8(args))),
        output_hash: hex_lower(Seq::new(32, |i: int| 0u8)),
        prev_hash: None,
        chain_hash: Seq::empty(),
    }
}

/// The output of a tool call, as JSON text: no tool runs yet, so the output
/// is an error either way.
pub open spec fn tool_output(decision: DecisionView) -> Seq<char> {
    match decision {
        DecisionView::Allow => "{\"error\":\"tool executor not implemented\"}"@,
        DecisionView::Deny(_) => "{\"error\":\"capability denied\"}"@,
    }
}

/// Checks tool calls against a policy and seals their receipts against a
/// journal.
pub struct ToolExecutor {
    pub policy: PolicyEngine,
    pub receipts: ReceiptLog,
}

impl ToolExecutor {
    /// An executor over a policy and a journal.
    pub fn new(policy: PolicyEngine, receipts: ReceiptLog) -> (executor: ToolExecutor)
        ensures
            executor.policy == policy,
            executor.receipts == receipts,
    {
        ToolExecutor { policy, receipts }
    }

    /// Handles one tool call with this executor's policy and journal; see
    /// `run_tool_call`.
    pub fn execute(
        &self,
        call: ToolCall,
        token: CapabilityToken,
        ledger: &mut BudgetLedger,
        receipt_id: u128,
        timestamp: String,
    ) -> (r: (ToolResult, Receipt))
        ensures
            tool_call_outcome(
                self.receipts.tail(),
                call,
                token,
                *old(ledger),
                receipt_id,
                timestamp@,
                r.0,
                r.1,
                *final(ledger),
            ),
    {
        run_tool_call(&self.policy, &self.receipts, call, token, ledger, receipt_id, timestamp)
    }
}

/// What handling a tool call gives: a result that is never `ok`, since no
/// tool runs yet, with the output that goes with the decision; the receipt
/// of the decision, sealed against the tail of the journal; and a ledger
/// that is debited by one call if the call is allowed and unchanged if not.
pub open spec fn tool_call_outcome(
    tail: Option<Seq<char>>,
    call: ToolCall,
    token: CapabilityToken,
    ledger_before: BudgetLedger,
    receipt_id: u128,
    timestamp: Seq<char>,
    result: ToolResult,
    receipt: Receipt,
    ledger_after: BudgetLedger,
) -> bool {
    let decision = tool_decision(
        token.scopes.deep_view(),
        call.tool_id@,
        ledger_before.tool_calls_remaining,
    );
    &&& !result.ok
    &&& result.output@ == tool_output(decision)
    &&& receipt@ == tool_receipt(
        receipt_id,
        timestamp,
        decision,
        call.capability_token_id,
        call.args@,
    ).sealed(tail)
    &&& ledger_after == if decision is Allow {
        BudgetLedger {
            tool_calls_remaining: (ledger_before.tool_calls_remaining - 1) as i64,
            ..ledger_before
        }
    } else {
        ledger_before
    }
}

/// Handles one tool call: checks it against the token and the ledger, and
/// seals a receipt of the decision against the tail of the journal. The
/// receipt is for the caller to write; once written, it is committed to the
/// journal with `ReceiptLog::commit`.
pub fn run_tool_call(
    policy: &PolicyEngine,
    receipts: &ReceiptLog,
    call: ToolCall,
    token: CapabilityToken,
    ledger: &mut BudgetLedger,
    receipt_id: u128,
    timestamp: String,
) -> (r: (ToolResult, Receipt))
    ensures
        tool_call_outcome(
            receipts.tail(),
            call,
            token,
            *old(ledger),
            receipt_id,
            timestamp@,
            r.0,
            r.1,
            *final(ledger),
        ),
{
    let decision = policy.evaluate_tool(&token, call.tool_id.as_str(), ledger);
    let zeros: [u8; 32] = [0u8; 32];
    assert(zeros@ == Seq::new(32, |i: int| 0u8));
    let receipt = Receipt {
        receipt_id,
        timestamp,
        action_type: "toolcall".to_owned(),
        policy_decision: decision_label(&decision),
        capability_id: Some(call.capability_token_id),
        input_hash: hex_encode(call.args_hash().as_slice()),
        output_hash: hex_encode(zeros.as_slice()),
        prev_hash: None,
        chain_hash: String::new(),
    };
    let sealed = receipts.seal(receipt);
    let output = match decision {
        PolicyDecision::Allow => "{\"error\":\"tool executor not implemented\"}".to_owned(),
        PolicyDecision::Deny(_) => "{\"error\":\"capability denied\"}".to_owned(),
    };
    (ToolResult { ok: false, output }, sealed)
}

} // verus!
