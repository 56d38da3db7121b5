//! Capability and budget checks. Every check answers `Allow` or `Deny` with
//! a reason tag, and says exactly when.

use vstd::prelude::*;

use crate::text::str_eq;

verus! {

/// An egress policy: a mode and the hosts the allowlist mode admits.
#[derive(Clone, Debug)]
pub struct Policy {
    pub mode: String,
    pub allowlist: Vec<String>,
}

/// A capability token: what its holder may call, and until when.
#[derive(Clone, Debug)]
pub struct CapabilityToken {
    /// 128-bit identifier of the token.
    pub token_id: u128,
    pub scopes: Vec<String>,
    pub expires_at: Option<String>,
}

/// What an agent has left to spend.
#[derive(Clone, Copy, Debug)]
pub struct BudgetLedger {
    pub bytes_remaining: i64,
    pub tokens_remaining: i64,
    pub tool_calls_remaining: i64,
}

/// The outcome of a check.
#[derive(Clone, Debug, PartialEq, Eq)]
pub enum PolicyDecision {
    Allow,
    Deny(String),
}

/// The outcome of a check as plain values.
pub enum DecisionView {
    Allow,
    Deny(Seq<char>),
}

impl View for PolicyDecision {
    type V = DecisionView;

    open spec fn view(&self) -> DecisionView {
        match self {
            PolicyDecision::Allow => DecisionView::Allow,
            PolicyDecision::Deny(reason) => DecisionView::Deny(reason@),
        }
    }
}

impl PolicyDecision {
    /// A denial with the given reason tag.
    fn deny(reason: &str) -> (d: PolicyDecision)
        ensures
            d@ == DecisionView::Deny(reason@),
    {
        PolicyDecision::Deny(reason.to_owned())
    }
}

impl BudgetLedger {
    /// A ledger with the given balances.
    pub fn new(bytes: i64, tokens: i64, tool_calls: i64) -> (ledger: BudgetLedger)
        ensures
            ledger.bytes_remaining == bytes,
            ledger.tokens_remaining == tokens,
            ledger.tool_calls_remaining == tool_calls,
    {
        BudgetLedger {
            bytes_remaining: bytes,
            tokens_remaining: tokens,
            tool_calls_remaining: tool_calls,
        }
    }

    /// Debits one tool call. Denies with `tool_call_budget_exhausted`, and
    /// debits nothing, when no call is left.
    pub fn debit_tool_call(&mut self) -> (r: Result<(), PolicyDecision>)
        ensures
            final(self).bytes_remaining == old(self).bytes_remaining,
            final(self).tokens_remaining == old(self).tokens_remaining,
            match r {
                Ok(_) => old(self).tool_calls_remaining > 0 && final(self).tool_calls_remaining
                    == old(self).tool_calls_remaining - 1,
                Err(d) => old(self).tool_calls_remaining <= 0 && *final(self) == *old(self) && d@
                    == DecisionView::Deny("tool_call_budget_exhausted"@),
            },
    {
        if self.tool_calls_remaining <= 0 {
            return Err(PolicyDecision::deny("tool_call_budget_exhausted"));
        }
        self.tool_calls_remaining = self.tool_calls_remaining - 1;
        Ok(())
    }
}

/// Whether a scope list covers a tool: it names the tool exactly, or holds
/// the wildcard `*`.
pub open spec fn scope_allows(scopes: Seq<Seq<char>>, tool_id: Seq<char>) -> bool {
    exists|i: int| 0 <= i < scopes.len() && (#[trigger] scopes[i] == tool_id || scopes[i] == "*"@)
}

/// What a tool check answers for a scope list, a tool and a balance of tool
/// calls: a tool outside the scopes is denied; so is a call whose debit
/// would leave no call on the balance; any other call is allowed.
pub open spec fn tool_decision(
    scopes: Seq<Seq<char>>,
    tool_id: Seq<char>,
    tool_calls_remaining: i64,
) -> DecisionView {
    if !scope_allows(scopes, tool_id) {
        DecisionView::Deny("scope_not_allowed"@)
    } else if tool_calls_remaining <= 1 {
        DecisionView::Deny("tool_call_budget_exhausted"@)
    } else {
        DecisionView::Allow
    }
}

/// What an egress check answers for a policy and a host.
pub open spec fn egress_decision(
    mode: Seq<char>,
    allowlist: Seq<Seq<char>>,
    host: Seq<char>,
) -> DecisionView {
    if mode == "deny"@ {
        DecisionView::Deny("egress_denied"@)
    } else if allowlist.contains(host) {
        DecisionView::Allow
    } else {
        DecisionView::Deny("host_not_allowed"@)
    }
}

/// Evaluates checks against one policy.
#[derive(Clone, Debug)]
pub struct PolicyEngine {
    policy: Policy,
}

impl PolicyEngine {
    /// The mode of the policy.
    pub closed spec fn mode(&self) -> Seq<char> {
        self.policy.mode@
    }

    /// The hosts on the policy's allowlist.
    pub closed spec fn hosts(&self) -> Seq<Seq<char>> {
        self.policy.allowlist.deep_view()
    }

    /// An engine for the given policy.
    pub fn new(policy: Policy) -> (engine: PolicyEngine)
        ensures
            engine.mode() == policy.mode@,
            engine.hosts() == policy.allowlist.deep_view(),
    {
        PolicyEngine { policy }
    }

    /// An engine that denies all egress.
    pub fn default_deny() -> (engine: PolicyEngine)
        ensures
            engine.mode() == "deny"@,
            engine.hosts() == Seq::<Seq<char>>::empty(),
    {
        let engine = PolicyEngine {
            policy: Policy { mode: "deny".to_owned(), allowlist: Vec::new() },
        };
        assert(engine.policy.allowlist.deep_view() == Seq::<Seq<char>>::empty());
        engine
    }

    /// An engine that admits exactly the given hosts.
    pub fn allowlist(allowlist: Vec<String>) -> (engine: PolicyEngine)
        ensures
            engine.mode() == "allowlist"@,
            engine.hosts() == allowlist.deep_view(),
    {
        PolicyEngine { policy: Policy { mode: "allowlist".to_owned(), allowlist } }
    }

    /// Checks a tool call. Denies with `scope_not_allowed` unless the
    /// token's scopes name the tool or hold the wildcard. Then denies with
    /// `tool_call_budget_exhausted` if debiting one tool call would leave
    /// the balance at zero or below, and debits the call otherwise. The
    /// ledger changes only when the call is allowed.
    pub fn evaluate_tool(
        &self,
        token: &CapabilityToken,
        tool_id: &str,
        ledger: &mut BudgetLedger,
    ) -> (decision: PolicyDecision)
        ensures
            decision@ == tool_decision(
                token.scopes.deep_view(),
                tool_id@,
                old(ledger).tool_calls_remaining,
            ),
            decision@ is Allow ==> *final(ledger) == (BudgetLedger {
                tool_calls_remaining: (old(ledger).tool_calls_remaining - 1) as i64,
                ..*old(ledger)
            }),
            !(decision@ is Allow) ==> *final(ledger) == *old(ledger),
    {
        if !in_scope(&token.scopes, tool_id) {
            return PolicyDecision::deny("scope_not_allowed");
        }
        if ledger.tool_calls_remaining <= 1 {
            return PolicyDecision::deny("tool_call_budget_exhausted");
        }
        match ledger.debit_tool_call() {
            Err(decision) => decision,
            Ok(_) => PolicyDecision::Allow,
        }
    }

    /// Checks an outbound request. Denies with `egress_denied` in deny mode;
    /// otherwise allows a host that is on the allowlist verbatim and denies
    /// any other with `host_not_allowed`.
    pub fn evaluate_egress(&self, host: &str) -> (decision: PolicyDecision)
        ensures
            decision@ == egress_decision(self.mode(), self.hosts(), host@),
    {
        if str_eq(self.policy.mode.as_str(), "deny") {
            return PolicyDecision::deny("egress_denied");
        }
        if contains_str(&self.policy.allowlist, host) {
            PolicyDecision::Allow
        } else {
            PolicyDecision::deny("host_not_allowed")
        }
    }
}

/// Whether a list of strings holds `wanted`.
fn contains_str(list: &Vec<String>, wanted: &str) -> (found: bool)
    ensures
        found == list.deep_view().contains(wanted@),
{
    let mut i: usize = 0;
    while i < list.len()
        invariant
            i <= list.len(),
            forall|k: int| 0 <= k < i ==> list.deep_view()[k] != wanted@,
        decreases list.len() - i,
    {
        assert(list.deep_view()[i as int] == list@[i as int]@);
        if str_eq(list[i].as_str(), wanted) {
            return true;
        }
        i = i + 1;
    }
    false
}

/// Whether a scope list covers a tool.
fn in_scope(scopes: &Vec<String>, tool_id: &str) -> (covered: bool)
    ensures
        covered == scope_allows(scopes.deep_view(), tool_id@),
{
    let mut i: usize = 0;
    while i < scopes.len()
        invariant
            i <= scopes.len(),
            forall|k: int|
                0 <= k < i ==> !(#[trigger] scopes.deep_view()[k] == tool_id@
                    || scopes.deep_view()[k] == "*"@),
        decreases scopes.len() - i,
    {
        assert(scopes.deep_view()[i as int] == scopes@[i as int]@);
        if str_eq(scopes[i].as_str(), tool_id) || str_eq(scopes[i].as_str(), "*") {
            return true;
        }
        i = i + 1;
    }
    false
}

/// How far the runtime goes on its own initiative.
#[derive(Clone, Copy, Debug, PartialEq, Eq, Structural)]
pub enum InitiativeDecision {
    Defer,
    Propose,
    Ask,
    Act,
}

/// Bit pattern of the single-precision number nearest to 0.8.
pub const CONFIDENCE_TO_ACT: u32 = 0x3f4c_cccd;

/// Bit pattern of the single-precision number nearest to 0.7.
pub const URGENCY_TO_ACT: u32 = 0x3f33_3333;

/// Bit pattern of the single-precision number 0.5.
pub const INTERRUPTIBILITY_TO_ACT: u32 = 0x3f00_0000;

/// Bit pattern of the single-precision number nearest to 0.6.
pub const CONFIDENCE_TO_PROPOSE: u32 = 0x3f19_999a;

/// Bit pattern of positive infinity in single precision.
pub const POSITIVE_INFINITY: u32 = 0x7f80_0000;

/// Whether the single-precision number with bit pattern `level` is greater
/// than the positive one with bit pattern `threshold`. Among the patterns
/// from zero to positive infinity the numbers are ordered as their
/// patterns are; a pattern above positive infinity is not a number or has
/// its sign bit set, and is then not greater than any positive number.
pub open spec fn exceeds(level: u32, threshold: u32) -> bool {
    threshold < level <= POSITIVE_INFINITY
}

/// What the initiative rules answer, in this order: an action that cannot
/// be undone is asked about; high confidence, urgency and interruptibility
/// together mean act; fair confidence means propose; anything else defers.
pub open spec fn initiative(
    confidence: u32,
    urgency: u32,
    interruptibility: u32,
    reversible: bool,
) -> InitiativeDecision {
    if !reversible {
        InitiativeDecision::Ask
    } else if exceeds(confidence, CONFIDENCE_TO_ACT) && exceeds(urgency, URGENCY_TO_ACT)
        && exceeds(interruptibility, INTERRUPTIBILITY_TO_ACT) {
        InitiativeDecision::Act
    } else if exceeds(confidence, CONFIDENCE_TO_PROPOSE) {
        InitiativeDecision::Propose
    } else {
        InitiativeDecision::Defer
    }
}

/// Decides how far to go on the runtime's own initiative. The three levels
/// are single-precision numbers, normally between 0 and 1, passed as their
/// IEEE 754 bit patterns. A pure function of its inputs.
pub fn decide_initiative(
    confidence: u32,
    urgency: u32,
    interruptibility: u32,
    reversible: bool,
) -> (decision: InitiativeDecision)
    ensures
        decision == initiative(confidence, urgency, interruptibility, reversible),
{
    if !reversible {
        return InitiativeDecision::Ask;
    }
    if above(confidence, CONFIDENCE_TO_ACT) && above(urgency, URGENCY_TO_ACT) && above(
        interruptibility,
        INTERRUPTIBILITY_TO_ACT,
    ) {
        InitiativeDecision::Act
    } else if above(confidence, CONFIDENCE_TO_PROPOSE) {
        InitiativeDecision::Propose
    } else {
        InitiativeDecision::Defer
    }
}

/// Whether `level` exceeds `threshold`.
fn above(level: u32, threshold: u32) -> (r: bool)
    ensures
        r == exceeds(level, threshold),
{
    threshold < level && level <= POSITIVE_INFINITY
}

/// A request to write to long-term memory.
#[derive(Clone, Debug)]
pub struct MemoryWriteRequest {
    pub evidence_ids: Vec<String>,
    /// 128-bit identifier of the receipt that backs the write, if any.
    pub receipt_id: Option<u128>,
    pub ttl_days: Option<u32>,
    pub uncertain: bool,
}

/// Checks a memory write. Denies, in this order, with `missing_evidence` if
/// no evidence is named, `missing_receipt` if no receipt backs the write,
/// and `missing_ttl` if the write is uncertain and has no time to live.
pub fn evaluate_memory_write(req: &MemoryWriteRequest) -> (decision: PolicyDecision)
    ensures
        decision@ == (if req.evidence_ids@.len() == 0 {
            DecisionView::Deny("missing_evidence"@)
        } else if req.receipt_id.is_none() {
            DecisionView::Deny("missing_receipt"@)
        } else if req.uncertain && req.ttl_days.is_none() {
            DecisionView::Deny("missing_ttl"@)
        } else {
            DecisionView::Allow
        }),
{
    if req.evidence_ids.len() == 0 {
        return PolicyDecision::deny("missing_evidence");
    }
    if req.receipt_id.is_none() {
        return PolicyDecision::deny("missing_receipt");
    }
    if req.uncertain && req.ttl_days.is_none() {
        return PolicyDecision::deny("missing_ttl");
    }
    PolicyDecision::Allow
}

/// What is known when a redaction is requested.
#[derive(Clone, Copy, Debug)]
pub struct RedactionRequest {
    pub profile_present: bool,
    pub plane_ok: bool,
    pub manifest_present: bool,
}

/// Checks a redaction. Denies, in this order, with
/// `missing_redaction_profile`, `plane_violation` and `missing_manifest`.
pub fn evaluate_redaction(req: &RedactionRequest) -> (decision: PolicyDecision)
    ensures
        decision@ == (if !req.profile_present {
            DecisionView::Deny("missing_redaction_profile"@)
        } else if !req.plane_ok {
            DecisionView::Deny("plane_violation"@)
        } else if !req.manifest_present {
            DecisionView::Deny("missing_manifest"@)
        } else {
            DecisionView::Allow
        }),
{
    if !req.profile_present {
        return PolicyDecision::deny("missing_redaction_profile");
    }
    if !req.plane_ok {
        return PolicyDecision::deny("plane_violation");
    }
    if !req.manifest_present {
        return PolicyDecision::deny("missing_manifest");
    }
    PolicyDecision::Allow
}

} // verus!
