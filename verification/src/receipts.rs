//! An append-only journal of receipts in which every entry carries the hash
//! of its own fields and of the entry before it, so that any later change
//! to an entry breaks the chain.

use vstd::prelude::*;
use vstd::string::StringExecFns;
use vstd::utf8::encode_utf8;

use crate::digest::{hex_encode, hex_lower, sha256, sha256_digest, uuid_hyphenated, uuid_text};

verus! {

/// Why a log could not be read or did not verify.
#[derive(Debug)]
pub enum ReceiptError {
    Io(String),
    Parse(String),
}

/// A receipt error as plain values.
pub enum ReceiptErrorView {
    Io(Seq<char>),
    Parse(Seq<char>),
}

impl View for ReceiptError {
    type V = ReceiptErrorView;

    open spec fn view(&self) -> ReceiptErrorView {
        match self {
            ReceiptError::Io(m) => ReceiptErrorView::Io(m@),
            ReceiptError::Parse(m) => ReceiptErrorView::Parse(m@),
        }
    }
}

impl ReceiptErrorView {
    /// The message of this error.
    pub open spec fn message(self) -> Seq<char> {
        match self {
            ReceiptErrorView::Io(m) => "io error: "@ + m,
            ReceiptErrorView::Parse(m) => "parse error: "@ + m,
        }
    }
}

impl ReceiptError {
    /// The message of this error.
    pub fn message(&self) -> (text: String)
        ensures
            text@ == self@.message(),
    {
        match self {
            ReceiptError::Io(m) => {
                let mut text = "io error: ".to_owned();
                text.append(m.as_str());
                text
            },
            ReceiptError::Parse(m) => {
                let mut text = "parse error: ".to_owned();
                text.append(m.as_str());
                text
            },
        }
    }
}

/// One entry of the journal.
#[derive(Clone, Debug)]
pub struct Receipt {
    /// 128-bit identifier of the receipt.
    pub receipt_id: u128,
    /// RFC 3339 timestamp.
    pub timestamp: String,
    pub action_type: String,
    pub policy_decision: String,
    /// 128-bit identifier of the capability used, if any.
    pub capability_id: Option<u128>,
    pub input_hash: String,
    pub output_hash: String,
    /// Chain hash of the entry before this one; `None` for the first.
    pub prev_hash: Option<String>,
    /// Hash of all the other fields.
    pub chain_hash: String,
}

/// A receipt as plain values.
pub struct ReceiptView {
    pub receipt_id: u128,
    pub timestamp: Seq<char>,
    pub action_type: Seq<char>,
    pub policy_decision: Seq<char>,
    pub capability_id: Option<u128>,
    pub input_hash: Seq<char>,
    pub output_hash: Seq<char>,
    pub prev_hash: Option<Seq<char>>,
    pub chain_hash: Seq<char>,
}

/// The view of an optional string.
pub open spec fn opt_view(s: Option<String>) -> Option<Seq<char>> {
    match s {
        Some(t) => Some(t@),
        None => None,
    }
}

impl View for Receipt {
    type V = ReceiptView;

    open spec fn view(&self) -> ReceiptView {
        ReceiptView {
            receipt_id: self.receipt_id,
            timestamp: self.timestamp@,
            action_type: self.action_type@,
            policy_decision: self.policy_decision@,
            capability_id: self.capability_id,
            input_hash: self.input_hash@,
            output_hash: self.output_hash@,
            prev_hash: opt_view(self.prev_hash),
            chain_hash: self.chain_hash@,
        }
    }
}

/// The views of a sequence of receipts.
pub open spec fn receipt_views(entries: Seq<Receipt>) -> Seq<ReceiptView> {
    entries.map_values(|r: Receipt| r@)
}

impl ReceiptView {
    /// The text that is hashed: the id in hyphenated form, the timestamp,
    /// the action, the policy decision, the capability id in hyphenated form
    /// if there is one, the input hash, the output hash, and the previous
    /// chain hash if there is one, with nothing in between.
    pub open spec fn preimage(self) -> Seq<char> {
        uuid_text(self.receipt_id) + self.timestamp + self.action_type + self.policy_decision
            + (match self.capability_id {
            Some(id) => uuid_text(id),
            None => Seq::empty(),
        }) + self.input_hash + self.output_hash + (match self.prev_hash {
            Some(p) => p,
            None => Seq::empty(),
        })
    }

    /// The chain hash that the fields of this receipt call for: the SHA-256
    /// digest of the UTF-8 bytes of `preimage`, in lowercase hex. The
    /// receipt's own `chain_hash` field plays no part in it.
    pub open spec fn expected_chain_hash(self) -> Seq<char> {
        hex_lower(sha256(encode_utf8(self.preimage())))
    }

    /// This receipt as the log stores it after an entry whose chain hash
    /// is `tail`: linked to that entry and hashed.
    pub open spec fn sealed(self, tail: Option<Seq<char>>) -> ReceiptView {
        let linked = ReceiptView { prev_hash: tail, ..self };
        ReceiptView { chain_hash: linked.expected_chain_hash(), ..linked }
    }
}

/// What is wrong with an entry of a chain.
pub enum ChainDefect {
    /// Its `prev_hash` is not the chain hash of the entry before it.
    Mismatch,
    /// Its `chain_hash` is not the hash of its fields.
    Invalid,
}

/// The chain hash of the last entry, or `None` for an empty journal.
pub open spec fn chain_tail(entries: Seq<ReceiptView>) -> Option<Seq<char>> {
    if entries.len() == 0 {
        None
    } else {
        Some(entries.last().chain_hash)
    }
}

/// The defect of an entry that follows a chain ending in `tail`, if it has
/// one. A broken link is reported before a wrong hash.
pub open spec fn entry_defect(tail: Option<Seq<char>>, entry: ReceiptView) -> Option<ChainDefect> {
    if entry.prev_hash != tail {
        Some(ChainDefect::Mismatch)
    } else if entry.chain_hash != entry.expected_chain_hash() {
        Some(ChainDefect::Invalid)
    } else {
        None
    }
}

/// The defect of the first defective entry of a journal, or `None` if the
/// whole chain is sound.
pub open spec fn first_defect(entries: Seq<ReceiptView>) -> Option<ChainDefect>
    decreases entries.len(),
{
    if entries.len() == 0 {
        None
    } else {
        match first_defect(entries.drop_last()) {
            Some(d) => Some(d),
            None => entry_defect(chain_tail(entries.drop_last()), entries.last()),
        }
    }
}

/// The error that reports a defect.
pub open spec fn defect_error(d: ChainDefect) -> ReceiptErrorView {
    match d {
        ChainDefect::Mismatch => ReceiptErrorView::Parse("hash chain mismatch"@),
        ChainDefect::Invalid => ReceiptErrorView::Parse("chain hash invalid"@),
    }
}

/// The journal that results from appending receipts one by one to `base`.
pub open spec fn appended(base: Seq<ReceiptView>, receipts: Seq<ReceiptView>) -> Seq<ReceiptView>
    decreases receipts.len(),
{
    if receipts.len() == 0 {
        base
    } else {
        let before = appended(base, receipts.drop_last());
        before.push(receipts.last().sealed(chain_tail(before)))
    }
}

/// The chain hash that the fields of a receipt call for: 64 lowercase hex
/// digits.
pub fn hash_receipt(receipt: &Receipt) -> (hash: String)
    ensures
        hash@ == receipt@.expected_chain_hash(),
        hash@.len() == 64,
{
    let mut text = uuid_hyphenated(receipt.receipt_id);
    text.append(receipt.timestamp.as_str());
    text.append(receipt.action_type.as_str());
    text.append(receipt.policy_decision.as_str());
    match receipt.capability_id {
        Some(id) => {
            let cap = uuid_hyphenated(id);
            text.append(cap.as_str());
        },
        None => {
            assert(text@ + Seq::<char>::empty() == text@);
        },
    }
    text.append(receipt.input_hash.as_str());
    text.append(receipt.output_hash.as_str());
    match &receipt.prev_hash {
        Some(prev) => {
            text.append(prev.as_str());
        },
        None => {
            assert(text@ + Seq::<char>::empty() == text@);
        },
    }
    assert(text@ == receipt@.preimage());
    let digest = sha256_digest(text.as_str().as_bytes());
    hex_encode(digest.as_slice())
}

/// Checks the entries of a journal one after the other.
pub struct ChainVerifier {
    tail: Option<String>,
}

impl ChainVerifier {
    /// The chain hash of the last entry accepted, `None` before the first.
    pub closed spec fn tail(&self) -> Option<Seq<char>> {
        opt_view(self.tail)
    }

    /// A verifier at the start of a journal.
    pub fn new() -> (v: ChainVerifier)
        ensures
            v.tail() == None::<Seq<char>>,
    {
        ChainVerifier { tail: None }
    }

    /// Checks the next entry: its `prev_hash` must be the chain hash of the
    /// entry accepted before it, and its `chain_hash` the hash of its
    /// fields. An entry that passes becomes the new tail; one that fails
    /// leaves the verifier as it was.
    pub fn check(&mut self, receipt: &Receipt) -> (r: Result<(), ReceiptError>)
        ensures
            match entry_defect(old(self).tail(), receipt@) {
                None => r.is_ok() && final(self).tail() == Some(receipt@.chain_hash),
                Some(d) => r matches Err(e) && e@ == defect_error(d) && final(self).tail() == old(
                    self,
                ).tail(),
            },
    {
        if !same_opt(&receipt.prev_hash, &self.tail) {
            return Err(ReceiptError::Parse("hash chain mismatch".to_owned()));
        }
        let expected = hash_receipt(receipt);
        if receipt.chain_hash != expected {
            return Err(ReceiptError::Parse("chain hash invalid".to_owned()));
        }
        self.tail = Some(receipt.chain_hash.clone());
        Ok(())
    }
}

/// Whether two optional strings are equal.
fn same_opt(a: &Option<String>, b: &Option<String>) -> (same: bool)
    ensures
        same == (opt_view(*a) == opt_view(*b)),
{
    match (a, b) {
        (Some(x), Some(y)) => *x == *y,
        (None, None) => true,
        _ => false,
    }
}

/// Verifies a journal: walks the entries in order and fails at the first
/// one whose link or hash is wrong.
pub fn verify_log(entries: &[Receipt]) -> (r: Result<(), ReceiptError>)
    ensures
        match first_defect(receipt_views(entries@)) {
            None => r.is_ok(),
            Some(d) => r matches Err(e) && e@ == defect_error(d),
        },
{
    let ghost views = receipt_views(entries@);
    let mut verifier = ChainVerifier::new();
    let mut k: usize = 0;
    while k < entries.len()
        invariant
            k <= entries.len(),
            views == receipt_views(entries@),
            first_defect(views.take(k as int)).is_none(),
            verifier.tail() == chain_tail(views.take(k as int)),
        decreases entries.len() - k,
    {
        let ghost next = views.take(k as int + 1);
        assert(next.drop_last() == views.take(k as int));
        assert(next.last() == entries@[k as int]@);
        match verifier.check(&entries[k]) {
            Ok(_) => {},
            Err(e) => {
                proof {
                    lemma_defect_persists(views, k as int + 1);
                }
                return Err(e);
            },
        }
        k = k + 1;
    }
    assert(views.take(k as int) == views);
    Ok(())
}

/// A defect in a prefix of a journal is the first defect of the whole
/// journal.
pub proof fn lemma_defect_persists(entries: Seq<ReceiptView>, n: int)
    requires
        0 <= n <= entries.len(),
        first_defect(entries.take(n)).is_some(),
    ensures
        first_defect(entries) == first_defect(entries.take(n)),
    decreases entries.len() - n,
{
    if n < entries.len() {
        let longer = entries.take(n + 1);
        assert(longer.drop_last() == entries.take(n));
        lemma_defect_persists(entries, n + 1);
    } else {
        assert(entries.take(n) == entries);
    }
}

/// The state of an open journal: the chain hash of its last entry.
pub struct ReceiptLog {
    last_hash: Option<String>,
}

impl ReceiptLog {
    /// The chain hash of the last entry, `None` for an empty journal.
    pub closed spec fn tail(&self) -> Option<Seq<char>> {
        opt_view(self.last_hash)
    }

    /// Opens a journal that already holds `entries`: recovers the chain
    /// tail from the last of them. An empty journal has no tail.
    pub fn open(entries: &[Receipt]) -> (log: ReceiptLog)
        ensures
            log.tail() == chain_tail(receipt_views(entries@)),
    {
        let n = entries.len();
        if n == 0 {
            ReceiptLog { last_hash: None }
        } else {
            ReceiptLog { last_hash: Some(entries[n - 1].chain_hash.clone()) }
        }
    }

    /// The chain hash of the last entry, `None` for an empty journal.
    pub fn last_hash(&self) -> (tail: Option<String>)
        ensures
            opt_view(tail) == self.tail(),
    {
        match &self.last_hash {
            Some(h) => Some(h.clone()),
            None => None,
        }
    }

    /// Prepares a receipt for the journal without changing the journal:
    /// links it to the current tail and hashes it.
    pub fn seal(&self, receipt: Receipt) -> (sealed: Receipt)
        ensures
            sealed@ == receipt@.sealed(self.tail()),
            sealed@.chain_hash.len() == 64,
    {
        let mut sealed = receipt;
        sealed.prev_hash = self.last_hash();
        sealed.chain_hash = hash_receipt(&sealed);
        sealed
    }

    /// Records that a sealed receipt was written: its chain hash becomes the
    /// tail.
    pub fn commit(&mut self, sealed: &Receipt)
        ensures
            final(self).tail() == Some(sealed@.chain_hash),
    {
        self.last_hash = Some(sealed.chain_hash.clone());
    }

    /// Appends a receipt: links it to the current tail, hashes it, and makes
    /// its chain hash the new tail. Returns the entry as stored.
    pub fn append(&mut self, receipt: Receipt) -> (stored: Receipt)
        ensures
            stored@ == receipt@.sealed(old(self).tail()),
            stored@.chain_hash.len() == 64,
            final(self).tail() == Some(stored@.chain_hash),
    {
        let sealed = self.seal(receipt);
        self.commit(&sealed);
        sealed
    }
}

/// A sound chain stays sound when a receipt is appended to it, and the
/// appended entry's chain hash is the new tail.
pub proof fn law_append_keeps_chain(entries: Seq<ReceiptView>, receipt: ReceiptView)
    requires
        first_defect(entries).is_none(),
    ensures
        first_defect(entries.push(receipt.sealed(chain_tail(entries)))).is_none(),
        chain_tail(entries.push(receipt.sealed(chain_tail(entries)))) == Some(
            receipt.sealed(chain_tail(entries)).chain_hash,
        ),
{
    let sealed = receipt.sealed(chain_tail(entries));
    let after = entries.push(sealed);
    assert(after.drop_last() == entries);
    assert(sealed.preimage() == (ReceiptView { prev_hash: chain_tail(entries), ..receipt })
        .preimage());
}

/// Any number of receipts appended to a sound chain leave a chain that
/// verifies, whose tail is the chain hash of the last entry.
pub proof fn law_appended_log_verifies(base: Seq<ReceiptView>, receipts: Seq<ReceiptView>)
    requires
        first_defect(base).is_none(),
    ensures
        first_defect(appended(base, receipts)).is_none(),
        appended(base, receipts).len() == base.len() + receipts.len(),
        receipts.len() > 0 ==> chain_tail(appended(base, receipts)) == Some(
            appended(base, receipts).last().chain_hash,
        ),
    decreases receipts.len(),
{
    if receipts.len() > 0 {
        law_appended_log_verifies(base, receipts.drop_last());
        law_append_keeps_chain(appended(base, receipts.drop_last()), receipts.last());
    }
}

/// In a sound chain every entry but the first names the chain hash of the
/// entry before it, and the first names none.
pub proof fn law_entries_are_linked(entries: Seq<ReceiptView>, k: int)
    requires
        first_defect(entries).is_none(),
        0 <= k < entries.len(),
    ensures
        k == 0 ==> entries[k].prev_hash == None::<Seq<char>>,
        k > 0 ==> entries[k].prev_hash == Some(entries[k - 1].chain_hash),
        entries[k].chain_hash == entries[k].expected_chain_hash(),
    decreases entries.len(),
{
    let front = entries.drop_last();
    if k < entries.len() - 1 {
        law_entries_are_linked(front, k);
    }
}

} // verus!
