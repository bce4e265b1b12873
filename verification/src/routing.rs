//! The models configuration, and the choice of the provider and model that
//! a run uses.
use vstd::prelude::*;

use crate::domain::{
    PlanStepKind, PlanStepRecord, ProviderAccountRecord, ProviderModelRecord, ProviderModelView,
    ProviderType, ResourceStatus,
};
use crate::text::str_eq;
use crate::error::CoreResult;

verus! {

/// A model as the configuration lists it under a provider.
#[derive(Debug)]
pub struct ConfiguredModel {
    pub name: String,
    pub context_window: u64,
    pub supports_tools: bool,
    pub supports_embeddings: bool,
    pub capabilities: Vec<String>,
}

/// A provider as the configuration lists it: which account it stands for,
/// the environment variable that holds its API key, and its default model.
#[derive(Debug)]
pub struct ConfiguredProvider {
    pub provider_type: ProviderType,
    pub display_name: String,
    pub base_url: Option<String>,
    pub api_key_env: Option<String>,
    pub default_model: Option<String>,
    pub models: Vec<ConfiguredModel>,
}

/// The models configuration: the providers in order of preference.
#[derive(Debug)]
pub struct ModelsConfig {
    pub providers: Vec<ConfiguredProvider>,
}

/// The provider account and model a run is to use.
#[derive(Debug)]
pub struct ProviderSelection {
    pub provider_id: u128,
    pub provider_name: String,
    pub provider_type: ProviderType,
    pub model_name: String,
    pub base_url: String,
    pub api_key_env: Option<String>,
}

/// A selection as the contracts see it.
pub struct SelectionView {
    pub provider_id: u128,
    pub provider_name: Seq<char>,
    pub provider_type: ProviderType,
    pub model_name: Seq<char>,
    pub base_url: Seq<char>,
    pub api_key_env: Option<Seq<char>>,
}

impl View for ProviderSelection {
    type V = SelectionView;

    open spec fn view(&self) -> SelectionView {
        SelectionView {
            provider_id: self.provider_id,
            provider_name: self.provider_name@,
            provider_type: self.provider_type,
            model_name: self.model_name@,
            base_url: self.base_url@,
            api_key_env: opt_view(self.api_key_env),
        }
    }
}

/// The view of an optional string.
pub open spec fn opt_view(s: Option<String>) -> Option<Seq<char>> {
    match s {
        Some(t) => Some(t@),
        None => None,
    }
}

/// The API base used when an account names none.
pub open spec fn default_base_url() -> Seq<char> {
    "https://openrouter.ai/api/v1"@
}

/// The account `p` is the active account the configured provider `c`
/// stands for (same kind, same display name).
pub open spec fn provider_matches(p: ProviderAccountRecord, c: ConfiguredProvider) -> bool {
    &&& p.status == ResourceStatus::Active
    &&& p.provider_type == c.provider_type
    &&& p.display_name@ == c.display_name@
}

/// The first account, from index `i` on, that `c` stands for.
pub open spec fn first_match_from(
    providers: Seq<ProviderAccountRecord>,
    c: ConfiguredProvider,
    i: int,
) -> Option<int>
    decreases providers.len() - i,
{
    if i < 0 || i >= providers.len() {
        None
    } else if provider_matches(providers[i], c) {
        Some(i)
    } else {
        first_match_from(providers, c, i + 1)
    }
}

/// The value of the first variable named `key` in `env`.
pub open spec fn env_value(env: Seq<(String, String)>, key: Seq<char>) -> Option<Seq<char>>
    decreases env.len(),
{
    if env.len() == 0 {
        None
    } else if env[0].0@ == key {
        Some(env[0].1@)
    } else {
        env_value(env.drop_first(), key)
    }
}

/// `c` needs no key, or its key variable is set to a non-empty value.
pub open spec fn key_is_set(c: ConfiguredProvider, env: Seq<(String, String)>) -> bool {
    match c.api_key_env {
        None => true,
        Some(k) => match env_value(env, k@) {
            Some(v) => v.len() > 0,
            None => false,
        },
    }
}

/// The index of the first model of `models` marked default.
pub open spec fn first_default_from(models: Seq<ProviderModelRecord>, i: int) -> Option<int>
    decreases models.len() - i,
{
    if i < 0 || i >= models.len() {
        None
    } else if models[i].is_default {
        Some(i)
    } else {
        first_default_from(models, i + 1)
    }
}

/// The model a run uses with `c` and its account `p`: the configured
/// default, else the account's first default model, else its first model.
pub open spec fn model_for(c: ConfiguredProvider, p: ProviderAccountRecord) -> Option<Seq<char>> {
    match c.default_model {
        Some(m) => Some(m@),
        None => match first_default_from(p.models@, 0) {
            Some(i) => Some(p.models@[i].model_name@),
            None => if p.models@.len() > 0 {
                Some(p.models@[0].model_name@)
            } else {
                None
            },
        },
    }
}

/// The selection from the configured providers at index `i` and after: the
/// first whose account is active, whose key is set, and that has a model.
pub open spec fn selection_from(
    configs: Seq<ConfiguredProvider>,
    providers: Seq<ProviderAccountRecord>,
    env: Seq<(String, String)>,
    i: int,
) -> Option<SelectionView>
    decreases configs.len() - i,
{
    if i < 0 || i >= configs.len() {
        None
    } else {
        let c = configs[i];
        match first_match_from(providers, c, 0) {
            None => selection_from(configs, providers, env, i + 1),
            Some(j) => if !key_is_set(c, env) {
                selection_from(configs, providers, env, i + 1)
            } else {
                match model_for(c, providers[j]) {
                    None => selection_from(configs, providers, env, i + 1),
                    Some(m) => Some(
                        SelectionView {
                            provider_id: providers[j].id,
                            provider_name: providers[j].display_name@,
                            provider_type: providers[j].provider_type,
                            model_name: m,
                            base_url: match providers[j].base_url {
                                Some(u) => u@,
                                None => default_base_url(),
                            },
                            api_key_env: opt_view(c.api_key_env),
                        },
                    ),
                }
            },
        }
    }
}

fn clone_opt(s: &Option<String>) -> (r: Option<String>)
    ensures
        r == *s,
{
    match s {
        Some(t) => Some(t.clone()),
        None => None,
    }
}

/// The first active account that `c` stands for.
fn find_account(providers: &[ProviderAccountRecord], c: &ConfiguredProvider) -> (r: Option<usize>)
    ensures
        match r {
            Some(j) => j < providers.len() && first_match_from(providers@, *c, 0) == Some(j as int),
            None => first_match_from(providers@, *c, 0) is None,
        },
{
    let mut i: usize = 0;
    while i < providers.len()
        invariant
            i <= providers.len(),
            first_match_from(providers@, *c, 0) == first_match_from(providers@, *c, i as int),
        decreases providers.len() - i,
    {
        let p = &providers[i];
        if p.status == ResourceStatus::Active && p.provider_type == c.provider_type && str_eq(
            p.display_name.as_str(),
            c.display_name.as_str(),
        ) {
            return Some(i);
        }
        i = i + 1;
    }
    None
}

/// Whether the configured provider's key variable is set and not empty.
fn key_available(c: &ConfiguredProvider, env: &[(String, String)]) -> (r: bool)
    ensures
        r == key_is_set(*c, env@),
{
    let key = match &c.api_key_env {
        None => {
            return true;
        },
        Some(k) => k,
    };
    let mut i: usize = 0;
    proof {
        assert(env@.skip(0) =~= env@);
    }
    while i < env.len()
        invariant
            i <= env.len(),
            c.api_key_env == Some(*key),
            env_value(env@, key@) == env_value(env@.skip(i as int), key@),
        decreases env.len() - i,
    {
        proof {
            assert(env@.skip(i as int).drop_first() =~= env@.skip(i + 1));
            assert(env@.skip(i as int)[0] == env@[i as int]);
        }
        if str_eq(env[i].0.as_str(), key.as_str()) {
            proof {
                assert(env_value(env@.skip(i as int), key@) == Some(env@[i as int].1@));
            }
            return env[i].1.unicode_len() > 0;
        }
        i = i + 1;
    }
    false
}

/// The model a run uses with `c` and its account `p`.
fn choose_model(c: &ConfiguredProvider, p: &ProviderAccountRecord) -> (r: Option<String>)
    ensures
        opt_view(r) == model_for(*c, *p),
{
    if let Some(m) = &c.default_model {
        return Some(m.clone());
    }
    let mut i: usize = 0;
    while i < p.models.len()
        invariant
            i <= p.models.len(),
            c.default_model is None,
            first_default_from(p.models@, 0) == first_default_from(p.models@, i as int),
        decreases p.models.len() - i,
    {
        if p.models[i].is_default {
            proof {
                assert(first_default_from(p.models@, i as int) == Some(i as int));
            }
            return Some(p.models[i].model_name.clone());
        }
        i = i + 1;
    }
    if p.models.len() > 0 {
        Some(p.models[0].model_name.clone())
    } else {
        None
    }
}

/// Chooses the provider and model for a run from the loaded models
/// configuration: `None` when the configuration could not be loaded;
/// otherwise the first configured provider whose account is active, whose
/// API key is set in `env` (when it needs one) and that has a model, or
/// `None` when there is none.
pub fn select_provider_model(
    loaded: &CoreResult<ModelsConfig>,
    providers: &[ProviderAccountRecord],
    env: &[(String, String)],
) -> (r: Option<ProviderSelection>)
    ensures
        match loaded {
            Err(_) => r is None,
            Ok(config) => match selection_from(config.providers@, providers@, env@, 0) {
                Some(s) => r matches Some(sel) && sel@ == s,
                None => r is None,
            },
        },
{
    match loaded {
        Ok(config) => select_from_config(config, providers, env),
        Err(_) => None,
    }
}

/// The first configured provider whose account is active, whose API key is
/// set in `env` (when it needs one) and that has a model, as a selection.
fn select_from_config(
    config: &ModelsConfig,
    providers: &[ProviderAccountRecord],
    env: &[(String, String)],
) -> (r: Option<ProviderSelection>)
    ensures
        match selection_from(config.providers@, providers@, env@, 0) {
            Some(s) => r matches Some(sel) && sel@ == s,
            None => r is None,
        },
{
    let mut i: usize = 0;
    while i < config.providers.len()
        invariant
            i <= config.providers.len(),
            selection_from(config.providers@, providers@, env@, 0) == selection_from(
                config.providers@,
                providers@,
                env@,
                i as int,
            ),
        decreases config.providers.len() - i,
    {
        let c = &config.providers[i];
        if let Some(j) = find_account(providers, c) {
            if key_available(c, env) {
                if let Some(model_name) = choose_model(c, &providers[j]) {
                    let p = &providers[j];
                    let base_url = match &p.base_url {
                        Some(u) => u.clone(),
                        None => String::from_str("https://openrouter.ai/api/v1"),
                    };
                    return Some(
                        ProviderSelection {
                            provider_id: p.id,
                            provider_name: p.display_name.clone(),
                            provider_type: p.provider_type,
                            model_name,
                            base_url,
                            api_key_env: clone_opt(&c.api_key_env),
                        },
                    );
                }
            }
        }
        i = i + 1;
    }
    None
}

/// The first configured provider of kind `provider_type` named
/// `display_name`.
pub open spec fn configured_index_from(
    configs: Seq<ConfiguredProvider>,
    provider_type: ProviderType,
    display_name: Seq<char>,
    i: int,
) -> Option<int>
    decreases configs.len() - i,
{
    if i < 0 || i >= configs.len() {
        None
    } else if configs[i].provider_type == provider_type && configs[i].display_name@
        == display_name {
        Some(i)
    } else {
        configured_index_from(configs, provider_type, display_name, i + 1)
    }
}

/// Takes out of the loaded models configuration the first provider of kind
/// `provider_type` named `display_name`; `None` when the configuration
/// could not be loaded or names no such provider.
pub fn find_configured_provider(
    loaded: CoreResult<ModelsConfig>,
    provider_type: ProviderType,
    display_name: &str,
) -> (r: Option<ConfiguredProvider>)
    ensures
        match loaded {
            Err(_) => r is None,
            Ok(config) => match configured_index_from(
                config.providers@,
                provider_type,
                display_name@,
                0,
            ) {
                Some(i) => r == Some(config.providers@[i]),
                None => r is None,
            },
        },
{
    let ghost whole = loaded;
    let config = match loaded {
        Ok(config) => config,
        Err(_) => return None,
    };
    let mut providers = config.providers;
    let ghost all = providers@;
    let mut i: usize = 0;
    while i < providers.len()
        invariant
            whole == loaded,
            whole matches Ok(c) && c.providers@ == all,
            i <= providers.len(),
            providers@ == all,
            all == config.providers@,
            configured_index_from(all, provider_type, display_name@, 0) == configured_index_from(
                all,
                provider_type,
                display_name@,
                i as int,
            ),
        decreases providers.len() - i,
    {
        if providers[i].provider_type == provider_type && str_eq(
            providers[i].display_name.as_str(),
            display_name,
        ) {
            proof {
                assert(configured_index_from(all, provider_type, display_name@, i as int) == Some(
                    i as int,
                ));
            }
            return Some(providers.remove(i));
        }
        i = i + 1;
    }
    None
}

/// The first plan step of `steps` of the given kind.
pub open spec fn plan_step_of_kind(steps: Seq<PlanStepRecord>, kind: PlanStepKind, i: int) -> Option<
    u128,
>
    decreases steps.len() - i,
{
    if i < 0 || i >= steps.len() {
        None
    } else if steps[i].kind == kind {
        Some(steps[i].id)
    } else {
        plan_step_of_kind(steps, kind, i + 1)
    }
}

/// The id of the first plan step of `steps` of the given kind.
pub fn find_plan_step_id(steps: &[PlanStepRecord], kind: PlanStepKind) -> (r: Option<u128>)
    ensures
        r == plan_step_of_kind(steps@, kind, 0),
{
    let mut i: usize = 0;
    while i < steps.len()
        invariant
            i <= steps.len(),
            plan_step_of_kind(steps@, kind, 0) == plan_step_of_kind(steps@, kind, i as int),
        decreases steps.len() - i,
    {
        if steps[i].kind == kind {
            return Some(steps[i].id);
        }
        i = i + 1;
    }
    None
}

/// The account model a configured model becomes: it is the default when the
/// provider names it as its default model.
pub open spec fn model_record_of(m: ConfiguredModel, default_model: Option<String>) -> ProviderModelView {
    ProviderModelView {
        model_name: m.name@,
        is_default: match default_model {
            Some(d) => d@ == m.name@,
            None => false,
        },
        context_window: m.context_window,
        supports_tools: m.supports_tools,
        supports_embeddings: m.supports_embeddings,
        capabilities: m.capabilities@,
    }
}

impl ConfiguredProvider {
    /// The models of the account this provider stands for, in order.
    pub fn to_models(&self) -> (r: Vec<ProviderModelRecord>)
        ensures
            r@.len() == self.models@.len(),
            forall|i: int|
                0 <= i < r@.len() ==> #[trigger] r@[i]@ == model_record_of(
                    self.models@[i],
                    self.default_model,
                ),
    {
        let mut out: Vec<ProviderModelRecord> = Vec::new();
        let mut i: usize = 0;
        while i < self.models.len()
            invariant
                i <= self.models.len(),
                out@.len() == i,
                forall|k: int|
                    0 <= k < i ==> #[trigger] out@[k]@ == model_record_of(
                        self.models@[k],
                        self.default_model,
                    ),
            decreases self.models.len() - i,
        {
            let m = &self.models[i];
            let is_default = match &self.default_model {
                Some(d) => str_eq(d.as_str(), m.name.as_str()),
                None => false,
            };
            let capabilities = m.capabilities.clone();
            proof {
                assert(capabilities@ =~= m.capabilities@);
            }
            out.push(
                ProviderModelRecord {
                    model_name: m.name.clone(),
                    is_default,
                    context_window: m.context_window,
                    supports_tools: m.supports_tools,
                    supports_embeddings: m.supports_embeddings,
                    capabilities,
                },
            );
            i = i + 1;
        }
        out
    }
}

} // verus!
