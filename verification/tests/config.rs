use apex_code::config::{
    default_base_url, default_fallback_pool, default_fast_model, default_max_retries,
    default_max_steps, default_max_tokens, default_primary_model, default_provider_type,
    default_true, default_workspace_dir, fallback_pool_lines, ApexConfig, EnvOverrides,
};

fn no_env() -> EnvOverrides {
    EnvOverrides {
        omniroute_base_url: None,
        apex_base_url: None,
        omniroute_api_key: None,
        apex_api_key: None,
        openrouter_api_key: None,
        apex_model: None,
    }
}

fn remote_config(provider_type: &str, base_url: &str, key: Option<&str>) -> ApexConfig {
    let mut c = ApexConfig::default();
    c.provider.provider_type = provider_type.to_string();
    c.provider.base_url = base_url.to_string();
    c.provider.api_key = key.map(|k| k.to_string());
    c
}

#[test]
fn defaults_match_documented_values() {
    assert_eq!(default_provider_type(), "omniroute");
    assert_eq!(default_base_url(), "http://localhost:20128/v1");
    assert_eq!(default_primary_model(), "openrouter/qwen/qwen-2.5-coder-32b-instruct:free");
    assert_eq!(default_fast_model(), "openrouter/google/gemini-2.0-flash-exp:free");
    assert!(default_true());
    assert_eq!(default_max_retries(), 3);
    assert_eq!(default_workspace_dir(), ".");
    assert_eq!(default_max_steps(), 30);
    assert_eq!(default_max_tokens(), 4096);
    let pool = default_fallback_pool();
    assert_eq!(pool.len(), 7);
    assert_eq!(pool[0], "openrouter/qwen/qwen-2.5-coder-32b-instruct:free");
    assert_eq!(pool[4], "google/gemini-2.0-flash");
    assert_eq!(pool[6], "openrouter/qwen/qwen-2.5-coder-32b-instruct");
}

#[test]
fn default_config_assembles_defaults() {
    let c = ApexConfig::default();
    assert_eq!(c.provider.provider_type, "omniroute");
    assert_eq!(c.provider.base_url, "http://localhost:20128/v1");
    assert!(c.provider.api_key.is_none());
    assert_eq!(c.models.primary, default_primary_model());
    assert_eq!(c.models.fallback_pool, default_fallback_pool());
    assert!(c.models.auto_fallback);
    assert_eq!(c.models.max_retries, 3);
    assert_eq!(c.agent.workspace_dir, ".");
    assert_eq!(c.agent.max_steps, 30);
    assert_eq!(c.agent.max_tokens, 4096);
}

#[test]
fn resolve_prefers_local_over_global_over_defaults() {
    let none = ApexConfig::resolve(None, None, no_env());
    assert_eq!(none.provider.base_url, default_base_url());

    let mut global = ApexConfig::default();
    global.models.primary = "global-model".to_string();
    let g = ApexConfig::resolve(Some(global.clone()), None, no_env());
    assert_eq!(g.models.primary, "global-model");

    let mut local = ApexConfig::default();
    local.models.primary = "local-model".to_string();
    let l = ApexConfig::resolve(Some(global), Some(local), no_env());
    assert_eq!(l.models.primary, "local-model");
}

#[test]
fn resolve_env_precedence() {
    let mut env = no_env();
    env.apex_base_url = Some("http://apex".to_string());
    env.openrouter_api_key = Some("or-key".to_string());
    let c = ApexConfig::resolve(None, None, env.clone());
    assert_eq!(c.provider.base_url, "http://apex");
    assert_eq!(c.provider.api_key.as_deref(), Some("or-key"));

    env.omniroute_base_url = Some("http://omni".to_string());
    env.apex_api_key = Some("apex-key".to_string());
    let c = ApexConfig::resolve(None, None, env.clone());
    assert_eq!(c.provider.base_url, "http://omni");
    assert_eq!(c.provider.api_key.as_deref(), Some("apex-key"));

    env.omniroute_api_key = Some("omni-key".to_string());
    env.apex_model = Some("env-model".to_string());
    let c = ApexConfig::resolve(None, None, env);
    assert_eq!(c.provider.api_key.as_deref(), Some("omni-key"));
    assert_eq!(c.models.primary, "env-model");
}

#[test]
fn command_line_model_overrides_primary() {
    let mut c = ApexConfig::default();
    c.override_primary_model(None);
    assert_eq!(c.models.primary, default_primary_model());
    c.override_primary_model(Some("deepseek/deepseek-r1:free".to_string()));
    assert_eq!(c.models.primary, "deepseek/deepseek-r1:free");
    assert_eq!(c.models.fallback_pool, default_fallback_pool());
}

#[test]
fn api_key_configured_wins() {
    let c = remote_config("openai", "https://api.example.com", Some("sk-123"));
    assert_eq!(c.get_api_key().as_deref(), Some("sk-123"));
}

#[test]
fn api_key_blank_falls_back_for_local_gateways() {
    let c = remote_config("openai", "http://localhost:8080", Some("   "));
    assert_eq!(c.get_api_key().as_deref(), Some("omniroute"));
    let c = remote_config("openai", "http://127.0.0.1:9000/v1", None);
    assert_eq!(c.get_api_key().as_deref(), Some("omniroute"));
    let c = remote_config("OmniRoute", "https://remote.example.com", None);
    assert_eq!(c.get_api_key().as_deref(), Some("omniroute"));
}

#[test]
fn api_key_absent_for_remote_providers() {
    let c = remote_config("openai", "https://openrouter.ai/api/v1", None);
    assert_eq!(c.get_api_key(), None);
    let c = remote_config("openai", "https://openrouter.ai/api/v1", Some("\t\n"));
    assert_eq!(c.get_api_key(), None);
}

#[test]
fn fallback_pool_listing_is_numbered() {
    let pool = vec!["a:free".to_string(), "b".to_string()];
    assert_eq!(fallback_pool_lines(&pool), vec!["  1. a:free", "  2. b"]);
    assert!(fallback_pool_lines(&vec![]).is_empty());
    assert_eq!(fallback_pool_lines(&default_fallback_pool()).len(), 7);
}
