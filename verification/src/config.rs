//! Configuration: provider gateway, model pool and agent limits, their
//! defaults, how configuration sources override each other, and which API
//! key a request uses.
use vstd::prelude::*;
use vstd::string::StringExecFns;
use crate::text::{self, contains_str, eq_ignore_ascii_case_str, is_blank_str};

verus! {

/// Where requests go.
#[derive(Debug, Clone)]
pub struct ProviderConfig {
    pub provider_type: String,
    pub base_url: String,
    pub api_key: Option<String>,
}

/// Which models are tried, in which order.
#[derive(Debug, Clone)]
pub struct ModelPoolConfig {
    pub primary: String,
    pub fallback_pool: Vec<String>,
    pub fast_tier: String,
    pub auto_fallback: bool,
    pub max_retries: usize,
}

/// Limits of an agent run. The sampling temperature, a float, is kept
/// beside this configuration by the program that sends requests.
#[derive(Debug, Clone)]
pub struct AgentConfig {
    pub workspace_dir: String,
    pub max_steps: usize,
    pub max_tokens: usize,
}

/// The whole configuration.
#[derive(Debug, Clone)]
pub struct ApexConfig {
    pub provider: ProviderConfig,
    pub models: ModelPoolConfig,
    pub agent: AgentConfig,
}

pub struct ProviderView {
    pub provider_type: Seq<char>,
    pub base_url: Seq<char>,
    pub api_key: Option<Seq<char>>,
}

pub struct ModelPoolView {
    pub primary: Seq<char>,
    pub fallback_pool: Seq<Seq<char>>,
    pub fast_tier: Seq<char>,
    pub auto_fallback: bool,
    pub max_retries: nat,
}

pub struct AgentView {
    pub workspace_dir: Seq<char>,
    pub max_steps: nat,
    pub max_tokens: nat,
}

pub struct ConfigView {
    pub provider: ProviderView,
    pub models: ModelPoolView,
    pub agent: AgentView,
}

/// An optional string as plain text.
pub open spec fn opt_view(o: Option<String>) -> Option<Seq<char>> {
    match o {
        Some(s) => Some(s@),
        None => None,
    }
}

/// A list of strings as plain text.
pub open spec fn strings_view(v: Seq<String>) -> Seq<Seq<char>> {
    v.map_values(|s: String| s@)
}

impl View for ProviderConfig {
    type V = ProviderView;

    open spec fn view(&self) -> ProviderView {
        ProviderView {
            provider_type: self.provider_type@,
            base_url: self.base_url@,
            api_key: opt_view(self.api_key),
        }
    }
}

impl View for ModelPoolConfig {
    type V = ModelPoolView;

    open spec fn view(&self) -> ModelPoolView {
        ModelPoolView {
            primary: self.primary@,
            fallback_pool: strings_view(self.fallback_pool@),
            fast_tier: self.fast_tier@,
            auto_fallback: self.auto_fallback,
            max_retries: self.max_retries as nat,
        }
    }
}

impl View for AgentConfig {
    type V = AgentView;

    open spec fn view(&self) -> AgentView {
        AgentView {
            workspace_dir: self.workspace_dir@,
            max_steps: self.max_steps as nat,
            max_tokens: self.max_tokens as nat,
        }
    }
}

impl View for ApexConfig {
    type V = ConfigView;

    open spec fn view(&self) -> ConfigView {
        ConfigView { provider: self.provider@, models: self.models@, agent: self.agent@ }
    }
}

// ---------------------------------------------------------------------------
// Defaults
// ---------------------------------------------------------------------------

pub open spec fn default_fallback_pool_spec() -> Seq<Seq<char>> {
    seq![
        "openrouter/qwen/qwen-2.5-coder-32b-instruct:free"@,
        "openrouter/deepseek/deepseek-r1:free"@,
        "openrouter/meta-llama/llama-3.3-70b-instruct:free"@,
        "openrouter/google/gemini-2.0-flash-exp:free"@,
        "google/gemini-2.0-flash"@,
        "openrouter/deepseek/deepseek-r1"@,
        "openrouter/qwen/qwen-2.5-coder-32b-instruct"@,
    ]
}

pub open spec fn default_provider_spec() -> ProviderView {
    ProviderView {
        provider_type: "omniroute"@,
        base_url: "http://localhost:20128/v1"@,
        api_key: None,
    }
}

pub open spec fn default_models_spec() -> ModelPoolView {
    ModelPoolView {
        primary: "openrouter/qwen/qwen-2.5-coder-32b-instruct:free"@,
        fallback_pool: default_fallback_pool_spec(),
        fast_tier: "openrouter/google/gemini-2.0-flash-exp:free"@,
        auto_fallback: true,
        max_retries: 3,
    }
}

pub open spec fn default_agent_spec() -> AgentView {
    AgentView { workspace_dir: "."@, max_steps: 30, max_tokens: 4096 }
}

pub open spec fn default_config_spec() -> ConfigView {
    ConfigView {
        provider: default_provider_spec(),
        models: default_models_spec(),
        agent: default_agent_spec(),
    }
}

pub fn default_provider_type() -> (s: String)
    ensures
        s@ == "omniroute"@,
{
    String::from_str("omniroute")
}

pub fn default_base_url() -> (s: String)
    ensures
        s@ == "http://localhost:20128/v1"@,
{
    String::from_str("http://localhost:20128/v1")
}

pub fn default_primary_model() -> (s: String)
    ensures
        s@ == "openrouter/qwen/qwen-2.5-coder-32b-instruct:free"@,
{
    String::from_str("openrouter/qwen/qwen-2.5-coder-32b-instruct:free")
}

pub fn default_fast_model() -> (s: String)
    ensures
        s@ == "openrouter/google/gemini-2.0-flash-exp:free"@,
{
    String::from_str("openrouter/google/gemini-2.0-flash-exp:free")
}

pub fn default_fallback_pool() -> (v: Vec<String>)
    ensures
        strings_view(v@) == default_fallback_pool_spec(),
{
    let v = vec![
        String::from_str("openrouter/qwen/qwen-2.5-coder-32b-instruct:free"),
        String::from_str("openrouter/deepseek/deepseek-r1:free"),
        String::from_str("openrouter/meta-llama/llama-3.3-70b-instruct:free"),
        String::from_str("openrouter/google/gemini-2.0-flash-exp:free"),
        String::from_str("google/gemini-2.0-flash"),
        String::from_str("openrouter/deepseek/deepseek-r1"),
        String::from_str("openrouter/qwen/qwen-2.5-coder-32b-instruct"),
    ];
    assert(strings_view(v@) =~= default_fallback_pool_spec());
    v
}

pub fn default_true() -> (b: bool)
    ensures
        b,
{
    true
}

pub fn default_max_retries() -> (n: usize)
    ensures
        n == 3,
{
    3
}

pub fn default_workspace_dir() -> (s: String)
    ensures
        s@ == "."@,
{
    String::from_str(".")
}

pub fn default_max_steps() -> (n: usize)
    ensures
        n == 30,
{
    30
}

pub fn default_max_tokens() -> (n: usize)
    ensures
        n == 4096,
{
    4096
}

impl Default for ProviderConfig {
    fn default() -> (c: Self)
        ensures
            c@ == default_provider_spec(),
    {
        ProviderConfig {
            provider_type: default_provider_type(),
            base_url: default_base_url(),
            api_key: None,
        }
    }
}

impl Default for ModelPoolConfig {
    fn default() -> (c: Self)
        ensures
            c@ == default_models_spec(),
    {
        ModelPoolConfig {
            primary: default_primary_model(),
            fallback_pool: default_fallback_pool(),
            fast_tier: default_fast_model(),
            auto_fallback: true,
            max_retries: 3,
        }
    }
}

impl Default for AgentConfig {
    fn default() -> (c: Self)
        ensures
            c@ == default_agent_spec(),
    {
        AgentConfig {
            workspace_dir: default_workspace_dir(),
            max_steps: default_max_steps(),
            max_tokens: default_max_tokens(),
        }
    }
}

impl Default for ApexConfig {
    fn default() -> (c: Self)
        ensures
            c@ == default_config_spec(),
    {
        ApexConfig {
            provider: ProviderConfig::default(),
            models: ModelPoolConfig::default(),
            agent: AgentConfig::default(),
        }
    }
}

// ---------------------------------------------------------------------------
// Resolution of the configuration sources
// ---------------------------------------------------------------------------

/// The environment variables that override file settings; `None` where a
/// variable is unset (or not valid Unicode).
#[derive(Debug, Clone)]
pub struct EnvOverrides {
    /// `OMNIROUTE_BASE_URL`
    pub omniroute_base_url: Option<String>,
    /// `APEX_BASE_URL`
    pub apex_base_url: Option<String>,
    /// `OMNIROUTE_API_KEY`
    pub omniroute_api_key: Option<String>,
    /// `APEX_API_KEY`
    pub apex_api_key: Option<String>,
    /// `OPENROUTER_API_KEY`
    pub openrouter_api_key: Option<String>,
    /// `APEX_MODEL`
    pub apex_model: Option<String>,
}

/// The first value that is set, in order of precedence.
pub open spec fn first_set(a: Option<String>, b: Option<String>, c: Option<String>) -> Option<Seq<char>> {
    if a is Some {
        opt_view(a)
    } else if b is Some {
        opt_view(b)
    } else {
        opt_view(c)
    }
}

/// The configuration that loading yields: a project file wins over the
/// user's global file, which wins over the defaults; then environment
/// variables override the gateway address, the API key and the primary
/// model.
pub open spec fn resolved_spec(
    global: Option<ConfigView>,
    local: Option<ConfigView>,
    env: EnvOverrides,
) -> ConfigView {
    let base = match local {
        Some(l) => l,
        None => match global {
            Some(g) => g,
            None => default_config_spec(),
        },
    };
    let url = first_set(env.omniroute_base_url, env.apex_base_url, None);
    let key = first_set(env.omniroute_api_key, env.apex_api_key, env.openrouter_api_key);
    ConfigView {
        provider: ProviderView {
            provider_type: base.provider.provider_type,
            base_url: match url {
                Some(u) => u,
                None => base.provider.base_url,
            },
            api_key: match key {
                Some(k) => Some(k),
                None => base.provider.api_key,
            },
        },
        models: ModelPoolView {
            primary: match env.apex_model {
                Some(m) => m@,
                None => base.models.primary,
            },
            ..base.models
        },
        agent: base.agent,
    }
}

/// An optional configuration as plain values.
pub open spec fn opt_config_view(c: Option<ApexConfig>) -> Option<ConfigView> {
    match c {
        Some(c) => Some(c@),
        None => None,
    }
}

impl ApexConfig {
    /// Combines the parsed global file, the parsed project file and the
    /// environment into the effective configuration.
    pub fn resolve(global: Option<ApexConfig>, local: Option<ApexConfig>, env: EnvOverrides) -> (c: ApexConfig)
        ensures
            c@ == resolved_spec(opt_config_view(global), opt_config_view(local), env),
    {
        let mut config = match local {
            Some(l) => l,
            None => match global {
                Some(g) => g,
                None => ApexConfig::default(),
            },
        };
        match env.omniroute_base_url {
            Some(url) => {
                config.provider.base_url = url;
            },
            None => match env.apex_base_url {
                Some(url) => {
                    config.provider.base_url = url;
                },
                None => {},
            },
        }
        match env.omniroute_api_key {
            Some(key) => {
                config.provider.api_key = Some(key);
            },
            None => match env.apex_api_key {
                Some(key) => {
                    config.provider.api_key = Some(key);
                },
                None => match env.openrouter_api_key {
                    Some(key) => {
                        config.provider.api_key = Some(key);
                    },
                    None => {},
                },
            },
        }
        match env.apex_model {
            Some(model) => {
                config.models.primary = model;
            },
            None => {},
        }
        config
    }

    /// Overrides the primary model when one is given on the command line.
    pub fn override_primary_model(&mut self, model: Option<String>)
        ensures
            final(self)@ == (ConfigView {
                models: ModelPoolView {
                    primary: match model {
                        Some(m) => m@,
                        None => old(self)@.models.primary,
                    },
                    ..old(self)@.models
                },
                ..old(self)@
            }),
    {
        match model {
            Some(m) => {
                self.models.primary = m;
            },
            None => {},
        }
    }

    /// The key sent with requests: the configured key unless it is blank;
    /// otherwise the local-gateway key `omniroute` for OmniRoute providers
    /// and gateways on this machine; otherwise none.
    pub fn get_api_key(&self) -> (k: Option<String>)
        ensures
            opt_view(k) == api_key_spec(self.provider@),
    {
        match &self.provider.api_key {
            Some(k) => {
                if !is_blank_str(k.as_str()) {
                    return Some(k.clone());
                }
            },
            None => {},
        }
        if eq_ignore_ascii_case_str(self.provider.provider_type.as_str(), "omniroute")
            || contains_str(self.provider.base_url.as_str(), "localhost") || contains_str(
            self.provider.base_url.as_str(),
            "127.0.0.1",
        ) {
            Some(String::from_str("omniroute"))
        } else {
            None
        }
    }
}

/// A gateway on this machine.
pub open spec fn is_local_url(url: Seq<char>) -> bool {
    text::contains(url, "localhost"@) || text::contains(url, "127.0.0.1"@)
}

/// The key that requests use for a provider.
pub open spec fn api_key_spec(p: ProviderView) -> Option<Seq<char>> {
    if p.api_key is Some && !text::is_blank(p.api_key->0) {
        p.api_key
    } else if text::eq_ignore_ascii_case(p.provider_type, "omniroute"@) || is_local_url(
        p.base_url,
    ) {
        Some("omniroute"@)
    } else {
        None
    }
}

/// One line of the fallback pool listing: `  <n>. <model>`.
pub open spec fn pool_line(n: nat, model: Seq<char>) -> Seq<char> {
    "  "@ + text::decimal(n) + ". "@ + model
}

/// The fallback pool as the configuration summary lists it, numbered
/// from 1.
pub fn fallback_pool_lines(pool: &Vec<String>) -> (v: Vec<String>)
    ensures
        v@.len() == pool@.len(),
        forall|i: int| 0 <= i < pool@.len() ==> (#[trigger] v@[i])@ == pool_line((i + 1) as nat, pool@[i]@),
{
    let mut v: Vec<String> = Vec::new();
    let mut i: usize = 0;
    while i < pool.len()
        invariant
            i <= pool@.len(),
            v@.len() == i,
            forall|j: int| 0 <= j < i ==> (#[trigger] v@[j])@ == pool_line((j + 1) as nat, pool@[j]@),
        decreases pool@.len() - i,
    {
        let mut line = String::from_str("  ");
        text::push_decimal(&mut line, (i as u128) + 1);
        line.append(". ");
        line.append(pool[i].as_str());
        v.push(line);
        i = i + 1;
    }
    v
}

/// The environment overrides whatever files were loaded: a set
/// `OMNIROUTE_API_KEY` (or, failing it, `APEX_API_KEY`, then
/// `OPENROUTER_API_KEY`) is the key used, a set `OMNIROUTE_BASE_URL` (or
/// `APEX_BASE_URL`) the gateway, and a set `APEX_MODEL` the primary model.
/// Without them the key comes from the project file when there is one,
/// else from the global file.
pub proof fn lemma_env_overrides_files(global: Option<ApexConfig>, local: Option<ApexConfig>, env: EnvOverrides)
    ensures
        ({
            let c = resolved_spec(opt_config_view(global), opt_config_view(local), env);
            &&& (env.omniroute_api_key matches Some(k) ==> c.provider.api_key == Some(k@))
            &&& (env.omniroute_api_key is None && env.apex_api_key is Some ==> c.provider.api_key
                == Some(env.apex_api_key->0@))
            &&& (env.omniroute_api_key is None && env.apex_api_key is None
                && env.openrouter_api_key is Some ==> c.provider.api_key == Some(
                env.openrouter_api_key->0@,
            ))
            &&& (env.omniroute_api_key is None && env.apex_api_key is None && env.openrouter_api_key is None
                ==> c.provider.api_key == match local {
                Some(l) => opt_view(l.provider.api_key),
                None => match global {
                    Some(g) => opt_view(g.provider.api_key),
                    None => None,
                },
            })
            &&& (env.omniroute_base_url matches Some(u) ==> c.provider.base_url == u@)
            &&& (env.omniroute_base_url is None && env.apex_base_url is Some ==> c.provider.base_url
                == env.apex_base_url->0@)
            &&& (env.apex_model matches Some(m) ==> c.models.primary == m@)
        }),
{
}

} // verus!
