use cc_switch_web::args::RpcError;
use cc_switch_web::json::{JsonItems, JsonMembers, JsonNumber, JsonValue};
use cc_switch_web::plan::{
    auth_provider_named, plan_rpc_command, AppCall, AuthCall, AuthOp, AuthProvider, Immediate,
    RpcPlan, ServiceCall, UsageReport,
};

fn text(s: &str) -> JsonValue {
    JsonValue::Str(s.to_string())
}

fn object(members: Vec<(&str, JsonValue)>) -> JsonValue {
    JsonValue::Object(JsonMembers::from_vec(
        members.into_iter().map(|(k, v)| (k.to_string(), v)).collect(),
    ))
}

fn plan(command: &str, args: JsonValue) -> Result<RpcPlan, RpcError> {
    plan_rpc_command(&command.to_string(), &args)
}

fn app_plan(app: &str, call: Result<AppCall, RpcError>) -> Result<RpcPlan, RpcError> {
    Ok(RpcPlan::App { app: app.to_string(), call })
}

#[test]
fn provider_listing_names_the_application() {
    assert_eq!(
        plan("get_providers", object(vec![("app", text("gemini"))])),
        app_plan("gemini", Ok(AppCall::ListProviders))
    );
    assert_eq!(
        plan("get_current_provider", object(vec![("app", text("codex"))])),
        app_plan("codex", Ok(AppCall::CurrentProvider))
    );
    assert_eq!(plan("get_providers", object(vec![])), Err(RpcError::MissingString("app")));
    assert_eq!(plan("get_providers", JsonValue::Null), Err(RpcError::MissingString("app")));
}

#[test]
fn add_provider_defaults_to_the_live_config() {
    let provider = object(vec![("id", text("p1"))]);
    assert_eq!(
        plan(
            "add_provider",
            object(vec![("app", text("gemini")), ("provider", object(vec![("id", text("p1"))]))])
        ),
        app_plan("gemini", Ok(AppCall::AddProvider { provider, add_to_live: true }))
    );
    assert_eq!(
        plan(
            "add_provider",
            object(vec![
                ("app", text("gemini")),
                ("provider", JsonValue::Null),
                ("addToLive", JsonValue::Bool(false)),
            ])
        ),
        app_plan(
            "gemini",
            Ok(AppCall::AddProvider { provider: JsonValue::Null, add_to_live: false })
        )
    );
}

#[test]
fn missing_provider_is_reported_after_the_application() {
    assert_eq!(
        plan("add_provider", object(vec![("app", text("gemini"))])),
        app_plan("gemini", Err(RpcError::MissingArgument("provider")))
    );
    assert_eq!(plan("add_provider", object(vec![])), Err(RpcError::MissingString("app")));
}

#[test]
fn update_provider_keeps_the_original_id() {
    assert_eq!(
        plan(
            "update_provider",
            object(vec![
                ("app", text("gemini")),
                ("provider", text("p")),
                ("originalId", text("old")),
            ])
        ),
        app_plan(
            "gemini",
            Ok(AppCall::UpdateProvider {
                provider: text("p"),
                original_id: Some("old".to_string())
            })
        )
    );
}

#[test]
fn provider_commands_by_id() {
    let args = || object(vec![("app", text("gemini")), ("id", text("p9"))]);
    assert_eq!(
        plan("delete_provider", args()),
        app_plan("gemini", Ok(AppCall::DeleteProvider { id: "p9".to_string() }))
    );
    assert_eq!(
        plan("remove_provider_from_live_config", args()),
        app_plan("gemini", Ok(AppCall::RemoveProviderFromLiveConfig { id: "p9".to_string() }))
    );
    assert_eq!(
        plan("switch_provider", args()),
        app_plan("gemini", Ok(AppCall::SwitchProvider { id: "p9".to_string() }))
    );
    assert_eq!(
        plan("switch_provider", object(vec![("app", text("gemini"))])),
        app_plan("gemini", Err(RpcError::MissingString("id")))
    );
}

#[test]
fn other_application_commands() {
    let app = || object(vec![("app", text("opencode"))]);
    assert_eq!(plan("import_default_config", app()), app_plan("opencode", Ok(AppCall::ImportDefaultConfig)));
    assert_eq!(plan("get_config_dir", app()), app_plan("opencode", Ok(AppCall::ConfigDir)));
    assert_eq!(
        plan("read_live_provider_settings", app()),
        app_plan("opencode", Ok(AppCall::ReadLiveProviderSettings))
    );
    assert_eq!(
        plan("update_providers_sort_order", app()),
        app_plan("opencode", Err(RpcError::MissingArgument("updates")))
    );
    assert_eq!(
        plan(
            "update_providers_sort_order",
            object(vec![("app", text("opencode")), ("updates", JsonValue::Array(JsonItems::from_vec(vec![])))])
        ),
        app_plan("opencode", Ok(AppCall::UpdateProvidersSortOrder { updates: JsonValue::Array(JsonItems::from_vec(vec![])) }))
    );
}

#[test]
fn snippet_extraction_names_the_application_as_app_type() {
    assert_eq!(
        plan(
            "extract_common_config_snippet",
            object(vec![("appType", text("codex")), ("settingsConfig", text("{}"))])
        ),
        app_plan(
            "codex",
            Ok(AppCall::ExtractCommonConfigSnippet { settings_config: Some("{}".to_string()) })
        )
    );
    assert_eq!(
        plan("extract_common_config_snippet", object(vec![("app", text("codex"))])),
        Err(RpcError::MissingString("appType"))
    );
}

#[test]
fn universal_providers_and_settings() {
    assert_eq!(
        plan("get_universal_providers", JsonValue::Null),
        Ok(RpcPlan::Service(ServiceCall::ListUniversalProviders))
    );
    assert_eq!(
        plan("get_universal_provider", object(vec![("id", text("u1"))])),
        Ok(RpcPlan::Service(ServiceCall::GetUniversalProvider { id: "u1".to_string() }))
    );
    assert_eq!(
        plan("sync_universal_provider", object(vec![("id", text("u1"))])),
        Ok(RpcPlan::Service(ServiceCall::SyncUniversalProvider { id: "u1".to_string() }))
    );
    assert_eq!(
        plan("delete_universal_provider", object(vec![])),
        Err(RpcError::MissingString("id"))
    );
    assert_eq!(
        plan("upsert_universal_provider", object(vec![("provider", text("u"))])),
        Ok(RpcPlan::Service(ServiceCall::UpsertUniversalProvider { provider: text("u") }))
    );
    assert_eq!(
        plan("save_settings", object(vec![])),
        Err(RpcError::MissingArgument("settings"))
    );
    assert_eq!(
        plan("save_settings", object(vec![("settings", object(vec![]))])),
        Ok(RpcPlan::Service(ServiceCall::SaveSettings { settings: object(vec![]) }))
    );
    assert_eq!(plan("get_settings", JsonValue::Null), Ok(RpcPlan::Service(ServiceCall::GetSettings)));
    assert_eq!(
        plan("get_app_config_path", JsonValue::Null),
        Ok(RpcPlan::Service(ServiceCall::AppConfigPath))
    );
}

#[test]
fn blank_snippets_are_cleared() {
    assert_eq!(
        plan(
            "set_common_config_snippet",
            object(vec![("appType", text("gemini")), ("snippet", text("  \n\t"))])
        ),
        Ok(RpcPlan::Service(ServiceCall::SetCommonConfigSnippet {
            app_type: "gemini".to_string(),
            snippet: None,
            cleared: true
        }))
    );
    assert_eq!(
        plan(
            "set_common_config_snippet",
            object(vec![("appType", text("gemini")), ("snippet", text(" x = 1 "))])
        ),
        Ok(RpcPlan::Service(ServiceCall::SetCommonConfigSnippet {
            app_type: "gemini".to_string(),
            snippet: Some(" x = 1 ".to_string()),
            cleared: false
        }))
    );
    assert_eq!(
        plan("set_common_config_snippet", object(vec![("snippet", text("x"))])),
        Err(RpcError::MissingString("appType"))
    );
    assert_eq!(
        plan("get_common_config_snippet", object(vec![("appType", text("gemini"))])),
        Ok(RpcPlan::Service(ServiceCall::GetCommonConfigSnippet { app_type: "gemini".to_string() }))
    );
}

#[test]
fn model_fetch_defaults_to_a_base_url() {
    assert_eq!(
        plan(
            "fetch_models_for_config",
            object(vec![("baseUrl", text("https://h")), ("apiKey", text("k"))])
        ),
        Ok(RpcPlan::Service(ServiceCall::FetchModels {
            base_url: "https://h".to_string(),
            api_key: "k".to_string(),
            is_full_url: false
        }))
    );
    assert_eq!(
        plan("fetch_models_for_config", object(vec![("baseUrl", text("https://h"))])),
        Err(RpcError::MissingString("apiKey"))
    );
}

#[test]
fn proxy_commands() {
    assert_eq!(
        plan("start_proxy_server", JsonValue::Null),
        Ok(RpcPlan::Service(ServiceCall::StartProxyServer))
    );
    assert_eq!(
        plan("is_proxy_running", JsonValue::Null),
        Ok(RpcPlan::Service(ServiceCall::IsProxyRunning))
    );
    assert_eq!(
        plan(
            "set_proxy_takeover_for_app",
            object(vec![("appType", text("gemini")), ("enabled", JsonValue::Bool(true))])
        ),
        Ok(RpcPlan::Service(ServiceCall::SetProxyTakeoverForApp {
            app_type: "gemini".to_string(),
            enabled: true
        }))
    );
    assert_eq!(
        plan("set_proxy_takeover_for_app", object(vec![("appType", text("gemini"))])),
        Err(RpcError::MissingBoolean("enabled"))
    );
    assert_eq!(
        plan(
            "switch_proxy_provider",
            object(vec![("appType", text("codex")), ("providerId", text("p"))])
        ),
        Ok(RpcPlan::Service(ServiceCall::SwitchProxyProvider {
            app_type: "codex".to_string(),
            provider_id: "p".to_string()
        }))
    );
    assert_eq!(
        plan("update_proxy_config", object(vec![])),
        Err(RpcError::MissingArgument("config"))
    );
    assert_eq!(
        plan("update_global_proxy_config", object(vec![("config", text("c"))])),
        Ok(RpcPlan::Service(ServiceCall::UpdateGlobalProxyConfig { config: text("c") }))
    );
}

#[test]
fn health_and_failover_commands_read_arguments_in_order() {
    assert_eq!(
        plan("get_provider_health", object(vec![])),
        Err(RpcError::MissingString("providerId"))
    );
    assert_eq!(
        plan("reset_circuit_breaker", object(vec![("providerId", text("p"))])),
        Err(RpcError::MissingString("appType"))
    );
    assert_eq!(
        plan(
            "reset_circuit_breaker",
            object(vec![("providerId", text("p")), ("appType", text("gemini"))])
        ),
        Ok(RpcPlan::Service(ServiceCall::ResetCircuitBreaker {
            provider_id: "p".to_string(),
            app_type: "gemini".to_string()
        }))
    );
    assert_eq!(
        plan("add_to_failover_queue", object(vec![("providerId", text("p"))])),
        Err(RpcError::MissingString("appType"))
    );
    assert_eq!(
        plan(
            "set_auto_failover_enabled",
            object(vec![("appType", text("gemini")), ("enabled", JsonValue::Bool(false))])
        ),
        Ok(RpcPlan::Service(ServiceCall::SetAutoFailoverEnabled {
            app_type: "gemini".to_string(),
            enabled: false
        }))
    );
    assert_eq!(
        plan(
            "set_default_cost_multiplier",
            object(vec![("appType", text("gemini")), ("value", text("1.5"))])
        ),
        Ok(RpcPlan::Service(ServiceCall::SetDefaultCostMultiplier {
            app_type: "gemini".to_string(),
            value: "1.5".to_string()
        }))
    );
}

#[test]
fn usage_reports_take_optional_filters() {
    assert_eq!(
        plan(
            "get_usage_summary",
            object(vec![
                ("startDate", JsonValue::Number(JsonNumber::PosInt(10))),
                ("appType", text("gemini")),
            ])
        ),
        Ok(RpcPlan::Service(ServiceCall::Usage {
            report: UsageReport::Summary,
            start_date: Some(10),
            end_date: None,
            app_type: Some("gemini".to_string())
        }))
    );
    assert_eq!(
        plan("get_model_stats", JsonValue::Null),
        Ok(RpcPlan::Service(ServiceCall::Usage {
            report: UsageReport::ModelStats,
            start_date: None,
            end_date: None,
            app_type: None
        }))
    );
}

#[test]
fn request_logs_default_paging() {
    assert_eq!(
        plan("get_request_logs", object(vec![])),
        Ok(RpcPlan::Service(ServiceCall::RequestLogs {
            filters: None,
            page: Ok(0),
            page_size: Ok(20)
        }))
    );
    assert_eq!(
        plan(
            "get_request_logs",
            object(vec![
                ("filters", object(vec![("model", text("m"))])),
                ("page", JsonValue::Number(JsonNumber::PosInt(2))),
                ("pageSize", JsonValue::Number(JsonNumber::PosInt(1 << 40))),
            ])
        ),
        Ok(RpcPlan::Service(ServiceCall::RequestLogs {
            filters: Some(object(vec![("model", text("m"))])),
            page: Ok(2),
            page_size: Err(RpcError::OutOfRangeU32("pageSize"))
        }))
    );
    assert_eq!(
        plan("get_request_detail", object(vec![("requestId", text("r1"))])),
        Ok(RpcPlan::Service(ServiceCall::RequestDetail { request_id: "r1".to_string() }))
    );
}

#[test]
fn account_commands() {
    assert_eq!(
        plan(
            "auth_start_login",
            object(vec![("authProvider", text("github_copilot")), ("githubDomain", text("ghe.example"))])
        ),
        Ok(RpcPlan::Auth(AuthCall {
            provider: AuthProvider::GithubCopilot,
            op: AuthOp::StartLogin { github_domain: Some("ghe.example".to_string()) }
        }))
    );
    assert_eq!(
        plan(
            "auth_start_login",
            object(vec![("authProvider", text("codex_oauth")), ("githubDomain", text("ghe.example"))])
        ),
        Ok(RpcPlan::Auth(AuthCall {
            provider: AuthProvider::CodexOAuth,
            op: AuthOp::StartLogin { github_domain: None }
        }))
    );
    assert_eq!(
        plan(
            "auth_poll_for_account",
            object(vec![("authProvider", text("codex_oauth")), ("deviceCode", text("dc"))])
        ),
        Ok(RpcPlan::Auth(AuthCall {
            provider: AuthProvider::CodexOAuth,
            op: AuthOp::PollForAccount { device_code: "dc".to_string(), github_domain: None }
        }))
    );
    assert_eq!(
        plan("auth_logout", object(vec![("authProvider", text("github_copilot"))])),
        Ok(RpcPlan::Auth(AuthCall { provider: AuthProvider::GithubCopilot, op: AuthOp::Logout }))
    );
    assert_eq!(
        plan(
            "auth_set_default_account",
            object(vec![("authProvider", text("codex_oauth")), ("accountId", text("a1"))])
        ),
        Ok(RpcPlan::Auth(AuthCall {
            provider: AuthProvider::CodexOAuth,
            op: AuthOp::SetDefaultAccount { account_id: "a1".to_string() }
        }))
    );
}

#[test]
fn unsupported_account_services_are_refused_after_the_other_arguments() {
    assert_eq!(
        plan("auth_get_status", object(vec![("authProvider", text("gitlab"))])),
        Err(RpcError::UnsupportedAuthProvider("gitlab".to_string()))
    );
    assert_eq!(
        plan("auth_remove_account", object(vec![("authProvider", text("gitlab"))])),
        Err(RpcError::MissingString("accountId"))
    );
    assert_eq!(
        plan("auth_poll_for_account", object(vec![("authProvider", text("gitlab"))])),
        Err(RpcError::MissingString("deviceCode"))
    );
    assert_eq!(plan("auth_list_accounts", object(vec![])), Err(RpcError::MissingString("authProvider")));
    assert_eq!(auth_provider_named("github_copilot"), Some(AuthProvider::GithubCopilot));
    assert_eq!(auth_provider_named("codex_oauth"), Some(AuthProvider::CodexOAuth));
    assert_eq!(auth_provider_named("Codex_OAuth"), None);
    assert_eq!(AuthProvider::GithubCopilot.id(), "github_copilot");
    assert_eq!(AuthProvider::CodexOAuth.id(), "codex_oauth");
}

#[test]
fn desktop_only_commands_are_acknowledged() {
    for c in ["update_tray_menu", "set_app_config_dir_override", "open_config_folder",
        "open_app_config_folder", "open_external", "copy_text_to_clipboard", "check_for_updates",
        "set_window_theme"]
    {
        assert_eq!(plan(c, JsonValue::Null), Ok(RpcPlan::Reply(Immediate::Bool(true))), "{c}");
    }
    for c in ["get_app_config_dir_override", "get_init_error", "get_skills_migration_result",
        "get_circuit_breaker_stats"]
    {
        assert_eq!(plan(c, JsonValue::Null), Ok(RpcPlan::Reply(Immediate::Null)), "{c}");
    }
    for c in ["is_portable_mode", "get_migration_result"] {
        assert_eq!(plan(c, JsonValue::Null), Ok(RpcPlan::Reply(Immediate::Bool(false))), "{c}");
    }
    for c in ["get_tool_versions", "check_env_conflicts"] {
        assert_eq!(plan(c, JsonValue::Null), Ok(RpcPlan::Reply(Immediate::EmptyList)), "{c}");
    }
}

#[test]
fn pick_directory_echoes_the_default_path() {
    assert_eq!(
        plan("pick_directory", object(vec![("defaultPath", text("/srv"))])),
        Ok(RpcPlan::Reply(Immediate::Text("/srv".to_string())))
    );
    assert_eq!(plan("pick_directory", object(vec![])), Ok(RpcPlan::Reply(Immediate::Null)));
}

#[test]
fn unknown_commands_are_not_implemented() {
    assert_eq!(
        plan("launch_rockets", object(vec![("app", text("gemini"))])),
        Err(RpcError::NotImplemented("launch_rockets".to_string()))
    );
    assert_eq!(plan("", JsonValue::Null), Err(RpcError::NotImplemented(String::new())));
    assert_eq!(
        plan("Get_Providers", object(vec![("app", text("gemini"))])),
        Err(RpcError::NotImplemented("Get_Providers".to_string()))
    );
}

#[test]
fn fixed_answers_after_success() {
    assert_eq!(AppCall::DeleteProvider { id: "x".to_string() }.fixed_reply(), Some(Immediate::Bool(true)));
    assert_eq!(AppCall::ListProviders.fixed_reply(), None);
    assert_eq!(
        ServiceCall::SaveSettings { settings: JsonValue::Null }.fixed_reply(),
        Some(Immediate::Bool(true))
    );
    assert_eq!(ServiceCall::StopProxyWithRestore.fixed_reply(), Some(Immediate::Null));
    assert_eq!(ServiceCall::ProxyStatus.fixed_reply(), None);
    assert_eq!(
        ServiceCall::AutoFailoverEnabled { app_type: "gemini".to_string() }.fixed_reply(),
        None
    );
    assert_eq!(AuthOp::Logout.fixed_reply(), Some(Immediate::Null));
    assert_eq!(AuthOp::GetStatus.fixed_reply(), None);
}
