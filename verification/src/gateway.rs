//! What the front doors decide: which host a URL names, what an egress
//! request may do and what receipt it leaves, how chat messages become a
//! prompt, and what receipt a completion leaves.

use vstd::prelude::*;
use vstd::string::StringExecFns;
use vstd::utf8::encode_utf8;

use crate::digest::{hex_encode, hex_lower, oid_uuid, oid_uuid_of, sha256, sha256_digest};
use crate::policy::{egress_decision, DecisionView, PolicyDecision, PolicyEngine};
use crate::receipts::{Receipt, ReceiptLog, ReceiptView};
use crate::text::{split_char, split_seq, str_eq};
use crate::tools::{decision_label, decision_text};

verus! {

/// The host that a URL names: the third of its pieces between slashes, or
/// nothing if it has fewer than three.
pub open spec fn url_host(url: Seq<char>) -> Seq<char> {
    let pieces = split_seq(url, '/');
    if pieces.len() > 2 {
        pieces[2]
    } else {
        Seq::empty()
    }
}

/// The host that a URL names, borrowed from it.
pub fn host_of<'a>(url: &'a str) -> (host: &'a str)
    ensures
        host@ == url_host(url@),
{
    let pieces = split_char(url, '/');
    if pieces.len() > 2 {
        assert(pieces.deep_view()[2] == pieces@[2]@);
        pieces[2]
    } else {
        let host = "";
        proof {
            reveal_strlit("");
        }
        assert(host@ == Seq::<char>::empty());
        host
    }
}

/// The entries of a list that are not empty, in order.
pub open spec fn nonempty_entries(pieces: Seq<Seq<char>>) -> Seq<Seq<char>>
    decreases pieces.len(),
{
    if pieces.len() == 0 {
        Seq::empty()
    } else if pieces.last().len() == 0 {
        nonempty_entries(pieces.drop_last())
    } else {
        nonempty_entries(pieces.drop_last()).push(pieces.last())
    }
}

/// The hosts that a comma-separated allowlist names: its entries between
/// commas, without the empty ones.
pub fn parse_allowlist(list: &str) -> (hosts: Vec<String>)
    ensures
        hosts.deep_view() == nonempty_entries(split_seq(list@, ',')),
{
    let pieces = split_char(list, ',');
    let ghost all = pieces.deep_view();
    let mut hosts: Vec<String> = Vec::new();
    let mut i: usize = 0;
    assert(hosts.deep_view() == nonempty_entries(all.take(0)));
    while i < pieces.len()
        invariant
            i <= pieces.len(),
            all == pieces.deep_view(),
            hosts.deep_view() == nonempty_entries(all.take(i as int)),
        decreases pieces.len() - i,
    {
        assert(all.take(i as int + 1).drop_last() == all.take(i as int));
        assert(all[i as int] == pieces@[i as int]@);
        let ghost before = hosts.deep_view();
        if !pieces[i].is_empty() {
            hosts.push(pieces[i].to_owned());
            assert(hosts.deep_view() == before.push(all[i as int]));
        }
        i = i + 1;
    }
    assert(all.take(i as int) == all);
    hosts
}

/// The engine for a configured allowlist: one that denies everything if
/// the list names no host, and one that admits exactly the hosts it names
/// otherwise.
pub fn egress_policy(list: &str) -> (engine: PolicyEngine)
    ensures
        ({
            let hosts = nonempty_entries(split_seq(list@, ','));
            if hosts.len() == 0 {
                engine.mode() == "deny"@ && engine.hosts() == Seq::<Seq<char>>::empty()
            } else {
                engine.mode() == "allowlist"@ && engine.hosts() == hosts
            }
        }),
{
    let hosts = parse_allowlist(list);
    if hosts.len() == 0 {
        PolicyEngine::default_deny()
    } else {
        PolicyEngine::allowlist(hosts)
    }
}

/// The receipt of an egress request before it is linked into the journal.
pub open spec fn egress_receipt(
    receipt_id: u128,
    timestamp: Seq<char>,
    decision: DecisionView,
    capability_token: Seq<char>,
) -> ReceiptView {
    ReceiptView {
        receipt_id,
        timestamp,
        action_type: "egress"@,
        policy_decision: decision_text(decision),
        capability_id: Some(oid_uuid(encode_utf8(capability_token))),
        input_hash: Seq::empty(),
        output_hash: Seq::empty(),
        prev_hash: None,
        chain_hash: Seq::empty(),
    }
}

/// Decides an egress request: checks the host that the URL names against
/// the policy, and seals a receipt of the decision against the tail of the
/// journal. The receipt is for the caller to write and then commit.
pub fn gate_fetch(
    policy: &PolicyEngine,
    receipts: &ReceiptLog,
    url: &str,
    capability_token: &str,
    receipt_id: u128,
    timestamp: String,
) -> (r: (PolicyDecision, Receipt))
    ensures
        r.0@ == egress_decision(policy.mode(), policy.hosts(), url_host(url@)),
        r.1@ == egress_receipt(receipt_id, timestamp@, r.0@, capability_token@).sealed(
            receipts.tail(),
        ),
{
    let decision = policy.evaluate_egress(host_of(url));
    let receipt = Receipt {
        receipt_id,
        timestamp,
        action_type: "egress".to_owned(),
        policy_decision: decision_label(&decision),
        capability_id: Some(oid_uuid_of(capability_token.as_bytes())),
        input_hash: String::new(),
        output_hash: String::new(),
        prev_hash: None,
        chain_hash: String::new(),
    };
    let sealed = receipts.seal(receipt);
    (decision, sealed)
}

/// One message of a chat.
#[derive(Clone, Debug)]
pub struct Message {
    pub role: String,
    pub content: String,
}

/// A message as plain values.
pub struct MessageView {
    pub role: Seq<char>,
    pub content: Seq<char>,
}

/// The views of a sequence of messages.
pub open spec fn message_views(messages: Seq<Message>) -> Seq<MessageView> {
    messages.map_values(|m: Message| MessageView { role: m.role@, content: m.content@ })
}

/// The prompt that a chat stands for: the contents of the messages of the
/// user, in order, each on a line of its own. An empty prompt takes no line
/// break before the next content.
pub open spec fn user_prompt(messages: Seq<MessageView>) -> Seq<char>
    decreases messages.len(),
{
    if messages.len() == 0 {
        Seq::empty()
    } else {
        let before = user_prompt(messages.drop_last());
        if messages.last().role != "user"@ {
            before
        } else if before.len() == 0 {
            messages.last().content
        } else {
            before + "\n"@ + messages.last().content
        }
    }
}

/// The prompt that a chat stands for.
pub fn flatten_user_messages(messages: &[Message]) -> (prompt: String)
    ensures
        prompt@ == user_prompt(message_views(messages@)),
{
    let ghost views = message_views(messages@);
    let mut prompt = String::new();
    let mut i: usize = 0;
    assert(views.take(0) == Seq::<MessageView>::empty());
    while i < messages.len()
        invariant
            i <= messages.len(),
            views == message_views(messages@),
            prompt@ == user_prompt(views.take(i as int)),
        decreases messages.len() - i,
    {
        assert(views.take(i as int + 1).drop_last() == views.take(i as int));
        if str_eq(messages[i].role.as_str(), "user") {
            if !prompt.as_str().is_empty() {
                prompt.append("\n");
            }
            prompt.append(messages[i].content.as_str());
        }
        i = i + 1;
    }
    assert(views.take(i as int) == views);
    prompt
}

/// The receipt of a chat completion before it is linked into the journal:
/// it records the hashes of the prompt and of the answer.
pub open spec fn chat_receipt(
    receipt_id: u128,
    timestamp: Seq<char>,
    prompt: Seq<char>,
    answer: Seq<char>,
) -> ReceiptView {
    ReceiptView {
        receipt_id,
        timestamp,
        action_type: "chat.completion"@,
        policy_decision: "allow"@,
        capability_id: None,
        input_hash: hex_lower(sha256(encode_utf8(prompt))),
        output_hash: hex_lower(sha256(encode_utf8(answer))),
        prev_hash: None,
        chain_hash: Seq::empty(),
    }
}

/// Seals the receipt of a chat completion against the tail of the journal.
/// The receipt is for the caller to write and then commit.
pub fn seal_chat_receipt(
    receipts: &ReceiptLog,
    receipt_id: u128,
    timestamp: String,
    prompt: &str,
    answer: &str,
) -> (sealed: Receipt)
    ensures
        sealed@ == chat_receipt(receipt_id, timestamp@, prompt@, answer@).sealed(receipts.tail()),
{
    let input = sha256_digest(prompt.as_bytes());
    let output = sha256_digest(answer.as_bytes());
    let receipt = Receipt {
        receipt_id,
        timestamp,
        action_type: "chat.completion".to_owned(),
        policy_decision: "allow".to_owned(),
        capability_id: None,
        input_hash: hex_encode(input.as_slice()),
        output_hash: hex_encode(output.as_slice()),
        prev_hash: None,
        chain_hash: String::new(),
    };
    receipts.seal(receipt)
}

/// Where the last `count` of `total` lines start.
pub fn tail_start(total: usize, count: usize) -> (start: usize)
    ensures
        start == if count >= total {
            0
        } else {
            total - count
        },
{
    if count >= total {
        0
    } else {
        total - count
    }
}

} // verus!
