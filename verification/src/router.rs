//! Choice of a model tier for a prompt.

use vstd::prelude::*;

use crate::text::{split_whitespace, str_eq, whitespace_words};
use crate::types::{ContextSelection, ModelTier};

verus! {

/// The tier chosen for a request, and why.
#[derive(Clone, Debug)]
pub struct RoutingDecision {
    pub chosen_tier: ModelTier,
    pub reason: String,
}

/// Whether and when to reconsider the tier while tokens are generated.
#[derive(Clone, Copy, Debug, PartialEq, Eq, Structural)]
pub enum EscalationPolicy {
    /// Stay with the tier chosen at the start.
    Never,
    /// Escalate when a sequential test passes this threshold, a
    /// single-precision number given by its IEEE 754 bit pattern.
    SprtThreshold(u32),
}

/// Chooses a model tier for a prompt and its selected context.
pub trait Router {
    fn decide(&self, prompt: &str, context: &ContextSelection) -> (RoutingDecision, EscalationPolicy);
}

/// A router that always answers with the small local tier.
#[derive(Clone, Copy, Debug)]
pub struct NullRouter;

impl Router for NullRouter {
    /// `LocalSmall`, for the reason `NullRouter`, without escalation.
    fn decide(&self, prompt: &str, context: &ContextSelection) -> (r: (
        RoutingDecision,
        EscalationPolicy,
    ))
        ensures
            r.0.chosen_tier == ModelTier::LocalSmall,
            r.0.reason@ == "NullRouter"@,
            r.1 == EscalationPolicy::Never,
    {
        (
            RoutingDecision { chosen_tier: ModelTier::LocalSmall, reason: "NullRouter".to_owned() },
            EscalationPolicy::Never,
        )
    }
}

/// One configured model.
#[derive(Clone, Debug)]
pub struct ModelConfig {
    /// The role the model is configured for, such as `interactive`.
    pub name: String,
    pub id: String,
    /// The longest prompt, in words, that the model should be given.
    pub max_tokens: Option<u32>,
}

/// The configuration of a router: its models by role. Roles are expected to
/// be distinct; of two entries for one role the first counts.
#[derive(Clone, Debug)]
pub struct RouterConfig {
    pub models: Vec<ModelConfig>,
    /// Target share of tokens served locally, a single-precision number
    /// given by its IEEE 754 bit pattern.
    pub target_local_token_ratio: Option<u32>,
}

/// A configured model as plain values.
pub struct ModelView {
    pub name: Seq<char>,
    pub id: Seq<char>,
    pub max_tokens: Option<u32>,
}

/// The models of a configuration as plain values.
pub open spec fn model_views(models: Seq<ModelConfig>) -> Seq<ModelView> {
    models.map_values(
        |m: ModelConfig| ModelView { name: m.name@, id: m.id@, max_tokens: m.max_tokens },
    )
}

/// The word limit of the first model configured for `role`, if any model
/// is: its `max_tokens`, or 256 if it names none.
pub open spec fn word_limit(models: Seq<ModelView>, role: Seq<char>) -> Option<nat>
    decreases models.len(),
{
    if models.len() == 0 {
        None
    } else if models[0].name == role {
        Some(
            match models[0].max_tokens {
                Some(n) => n as nat,
                None => 256,
            },
        )
    } else {
        word_limit(models.drop_first(), role)
    }
}

/// The tier for a prompt of `words` words: the large local tier if an
/// interactive model is configured and the prompt is longer than its word
/// limit, the small local tier otherwise.
pub open spec fn tier_for(models: Seq<ModelView>, words: nat) -> ModelTier {
    match word_limit(models, "interactive"@) {
        Some(limit) => if words > limit {
            ModelTier::LocalLarge
        } else {
            ModelTier::LocalSmall
        },
        None => ModelTier::LocalSmall,
    }
}

/// A router that goes by a configuration.
#[derive(Clone, Debug)]
pub struct ConfigRouter {
    cfg: RouterConfig,
}

impl ConfigRouter {
    /// The configured models.
    pub closed spec fn models(&self) -> Seq<ModelView> {
        model_views(self.cfg.models@)
    }

    /// A router for the given configuration.
    pub fn new(cfg: RouterConfig) -> (router: ConfigRouter)
        ensures
            router.models() == model_views(cfg.models@),
    {
        ConfigRouter { cfg }
    }

    /// The tier for a prompt, by its length in words.
    pub fn choose_tier(&self, prompt: &str) -> (tier: ModelTier)
        ensures
            tier == tier_for(self.models(), whitespace_words(prompt@).len()),
    {
        let ghost models = self.models();
        let n = self.cfg.models.len();
        let mut i: usize = 0;
        assert(models.skip(0) == models);
        while i < n
            invariant
                i <= n,
                n == self.cfg.models@.len(),
                models == model_views(self.cfg.models@),
                word_limit(models, "interactive"@) == word_limit(
                    models.skip(i as int),
                    "interactive"@,
                ),
            decreases n - i,
        {
            let ghost rest = models.skip(i as int);
            assert(rest[0] == models[i as int]);
            assert(rest.drop_first() == models.skip(i as int + 1));
            if str_eq(self.cfg.models[i].name.as_str(), "interactive") {
                let limit: u32 = match self.cfg.models[i].max_tokens {
                    Some(m) => m,
                    None => 256,
                };
                let words = split_whitespace(prompt);
                return if words.len() > limit as usize {
                    ModelTier::LocalLarge
                } else {
                    ModelTier::LocalSmall
                };
            }
            i = i + 1;
        }
        ModelTier::LocalSmall
    }
}

impl Router for ConfigRouter {
    /// The tier that `choose_tier` gives, for the reason `config`, without
    /// escalation.
    fn decide(&self, prompt: &str, context: &ContextSelection) -> (r: (
        RoutingDecision,
        EscalationPolicy,
    ))
        ensures
            r.0.chosen_tier == tier_for(self.models(), whitespace_words(prompt@).len()),
            r.0.reason@ == "config"@,
            r.1 == EscalationPolicy::Never,
    {
        let tier = self.choose_tier(prompt);
        (RoutingDecision { chosen_tier: tier, reason: "config".to_owned() }, EscalationPolicy::Never)
    }
}

} // verus!
