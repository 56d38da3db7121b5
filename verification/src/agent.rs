//! The agent manifest: what an agent is, what wakes it, and what it may
//! touch. Reading a manifest out of YAML is left to the caller; this module
//! holds the manifest itself, what its omitted sections default to, and the
//! two values derived from it by hashing.

use vstd::prelude::*;
use vstd::utf8::encode_utf8;

use crate::digest::{sha256, sha256_digest};

verus! {

/// What wakes an agent.
#[derive(Clone, Debug)]
pub enum Trigger {
    FolderChanged { path: String },
    Schedule { cron: String },
    Event { name: String },
}

/// What an agent may touch.
#[derive(Clone, Debug)]
pub struct Permissions {
    pub fs_read: Vec<String>,
    pub fs_write: Vec<String>,
    pub network: bool,
    pub sensors: Vec<String>,
}

impl Default for Permissions {
    /// No paths, no network, no sensors.
    fn default() -> (p: Permissions)
        ensures
            p.fs_read@.len() == 0,
            p.fs_write@.len() == 0,
            !p.network,
            p.sensors@.len() == 0,
    {
        Permissions { fs_read: Vec::new(), fs_write: Vec::new(), network: false, sensors: Vec::new() }
    }
}

/// What an agent may spend.
#[derive(Clone, Copy, Debug)]
pub struct Budgets {
    pub solver_wake_per_hour: Option<u32>,
    pub max_ssd_writes_per_day_mb: Option<u32>,
    pub max_execution_time_ms: Option<u32>,
}

impl Default for Budgets {
    /// No ceiling on anything.
    fn default() -> (b: Budgets)
        ensures
            b.solver_wake_per_hour.is_none(),
            b.max_ssd_writes_per_day_mb.is_none(),
            b.max_execution_time_ms.is_none(),
    {
        Budgets {
            solver_wake_per_hour: None,
            max_ssd_writes_per_day_mb: None,
            max_execution_time_ms: None,
        }
    }
}

/// An agent manifest.
#[derive(Clone, Debug)]
pub struct AgentManifest {
    pub id: String,
    pub version: Option<String>,
    pub triggers: Vec<Trigger>,
    pub permissions: Permissions,
    pub budgets: Budgets,
    pub tools: Vec<String>,
    pub ui_surfaces: Vec<String>,
    pub identity_requirements: Vec<String>,
    pub remote_access: bool,
}

/// Whether `got` is the list that was found, or empty if none was found.
pub open spec fn list_or_empty<T>(found: Option<Vec<T>>, got: Vec<T>) -> bool {
    match found {
        Some(list) => got == list,
        None => got@.len() == 0,
    }
}

/// Whether `got` is the flag that was found, or off if none was found.
pub open spec fn flag_or_off(found: Option<bool>, got: bool) -> bool {
    match found {
        Some(flag) => got == flag,
        None => !got,
    }
}

/// The list that was found, or an empty one.
fn fill_list<T>(found: Option<Vec<T>>) -> (got: Vec<T>)
    ensures
        list_or_empty(found, got),
{
    match found {
        Some(list) => list,
        None => Vec::new(),
    }
}

/// The flag that was found, or off.
fn fill_flag(found: Option<bool>) -> (got: bool)
    ensures
        flag_or_off(found, got),
{
    match found {
        Some(flag) => flag,
        None => false,
    }
}

impl Permissions {
    /// The permissions that a manifest grants, from the entries that were
    /// found in it: an entry that was left out grants nothing.
    pub fn from_sections(
        fs_read: Option<Vec<String>>,
        fs_write: Option<Vec<String>>,
        network: Option<bool>,
        sensors: Option<Vec<String>>,
    ) -> (p: Permissions)
        ensures
            list_or_empty(fs_read, p.fs_read),
            list_or_empty(fs_write, p.fs_write),
            flag_or_off(network, p.network),
            list_or_empty(sensors, p.sensors),
    {
        Permissions {
            fs_read: fill_list(fs_read),
            fs_write: fill_list(fs_write),
            network: fill_flag(network),
            sensors: fill_list(sensors),
        }
    }
}

/// The sections of a manifest besides its id, each as it was found or
/// `None` if it was left out.
pub struct ManifestSections {
    pub version: Option<String>,
    pub triggers: Option<Vec<Trigger>>,
    pub permissions: Option<Permissions>,
    pub budgets: Option<Budgets>,
    pub tools: Option<Vec<String>>,
    pub ui_surfaces: Option<Vec<String>>,
    pub identity_requirements: Option<Vec<String>>,
    pub remote_access: Option<bool>,
}

impl AgentManifest {
    /// The manifest with the given id and sections. Only the id is
    /// required: a list that was left out is empty, a flag that was left out
    /// is off, permissions that were left out grant nothing, and budgets that
    /// were left out set no ceiling.
    pub fn from_sections(id: String, sections: ManifestSections) -> (m: AgentManifest)
        ensures
            m.id == id,
            m.version == sections.version,
            list_or_empty(sections.triggers, m.triggers),
            match sections.permissions {
                Some(p) => m.permissions == p,
                None => m.permissions.fs_read@.len() == 0 && m.permissions.fs_write@.len() == 0
                    && !m.permissions.network && m.permissions.sensors@.len() == 0,
            },
            match sections.budgets {
                Some(b) => m.budgets == b,
                None => m.budgets.solver_wake_per_hour.is_none()
                    && m.budgets.max_ssd_writes_per_day_mb.is_none()
                    && m.budgets.max_execution_time_ms.is_none(),
            },
            list_or_empty(sections.tools, m.tools),
            list_or_empty(sections.ui_surfaces, m.ui_surfaces),
            list_or_empty(sections.identity_requirements, m.identity_requirements),
            flag_or_off(sections.remote_access, m.remote_access),
    {
        AgentManifest {
            id,
            version: sections.version,
            triggers: fill_list(sections.triggers),
            permissions: match sections.permissions {
                Some(p) => p,
                None => Permissions::default(),
            },
            budgets: match sections.budgets {
                Some(b) => b,
                None => Budgets::default(),
            },
            tools: fill_list(sections.tools),
            ui_surfaces: fill_list(sections.ui_surfaces),
            identity_requirements: fill_list(sections.identity_requirements),
            remote_access: fill_flag(sections.remote_access),
        }
    }
}

/// The number that a byte string stands for, most significant byte first.
pub open spec fn be_value(bytes: Seq<u8>) -> nat
    decreases bytes.len(),
{
    if bytes.len() == 0 {
        0
    } else {
        be_value(bytes.drop_last()) * 256 + bytes.last() as nat
    }
}

/// 256 to the power `n`.
pub open spec fn pow256(n: nat) -> nat
    decreases n,
{
    if n == 0 {
        1
    } else {
        256 * pow256((n - 1) as nat)
    }
}

/// A byte string of length `n` stands for a number below 256 to the `n`.
pub proof fn lemma_be_value_bound(bytes: Seq<u8>)
    ensures
        be_value(bytes) < pow256(bytes.len()),
    decreases bytes.len(),
{
    if bytes.len() > 0 {
        lemma_be_value_bound(bytes.drop_last());
    }
}

/// Powers of 256 grow with the exponent.
pub proof fn lemma_pow256_grows(a: nat, b: nat)
    requires
        a <= b,
    ensures
        0 < pow256(a) <= pow256(b),
    decreases b,
{
    if b > 0 {
        if a < b {
            lemma_pow256_grows(a, (b - 1) as nat);
        } else {
            lemma_pow256_grows((a - 1) as nat, (b - 1) as nat);
        }
    }
}

impl AgentManifest {
    /// The hash of a manifest: the SHA-256 digest of its canonical YAML
    /// text.
    pub fn manifest_hash(canonical_yaml: &str) -> (hash: [u8; 32])
        ensures
            hash@ == sha256(encode_utf8(canonical_yaml@)),
    {
        sha256_digest(canonical_yaml.as_bytes())
    }

    /// The 128-bit identifier of the agent: the first sixteen bytes of the
    /// SHA-256 digest of its `id`, most significant byte first.
    pub fn agent_uuid(&self) -> (id: u128)
        ensures
            id == be_value(sha256(encode_utf8(self.id@)).subrange(0, 16)),
    {
        let digest = sha256_digest(self.id.as_str().as_bytes());
        let mut id: u128 = 0;
        let mut i: usize = 0;
        while i < 16
            invariant
                i <= 16,
                id == be_value(digest@.subrange(0, i as int)),
            decreases 16 - i,
        {
            proof {
                lemma_be_value_bound(digest@.subrange(0, i as int));
                lemma_pow256_grows(i as nat, 15);
                assert(pow256(15) == 0x1_0000_0000_0000_0000_0000_0000_0000_00) by {
                    reveal_with_fuel(pow256, 16);
                }
                assert(digest@.subrange(0, i as int + 1).drop_last() == digest@.subrange(
                    0,
                    i as int,
                ));
            }
            id = id * 256 + digest[i] as u128;
            i = i + 1;
        }
        id
    }
}

} // verus!
