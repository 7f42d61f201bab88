//! What an RPC command asks the services to do.
//!
//! `plan_rpc_command` reads a command name and its JSON arguments and decides,
//! before any service runs, whether the request is refused and with which
//! error, whether it is answered at once, or which service operation it calls
//! with which arguments. The host then runs the operation.
//!
//! Commands that act on one application name it in an argument; the
//! application is resolved by the host first, so a plan for them carries the
//! name and the rest of the plan, whose own errors come after a failed
//! resolution.
use vstd::prelude::*;

use crate::args::{
    arg, bool_arg, bool_arg_or, optional_i64_arg, optional_string_arg, parse_app, parse_provider,
    payload_arg, spec_bool_arg, spec_bool_arg_or, spec_optional_i64_arg, spec_optional_string_arg,
    spec_payload_arg, spec_string_arg, spec_u32_arg, string_arg, u32_arg, RpcError,
};
use crate::json::{spec_get, JsonValue};
use crate::text::{is_blank, str_equal, trim_chars};

verus! {

/// An answer that needs no service.
#[derive(Debug, PartialEq, Eq)]
pub enum Immediate {
    Bool(bool),
    Null,
    EmptyList,
    Text(String),
}

/// An operation on one application, which the host resolves from its name.
#[derive(Debug, PartialEq, Eq)]
pub enum AppCall {
    ListProviders,
    CurrentProvider,
    AddProvider { provider: JsonValue, add_to_live: bool },
    UpdateProvider { provider: JsonValue, original_id: Option<String> },
    DeleteProvider { id: String },
    RemoveProviderFromLiveConfig { id: String },
    SwitchProvider { id: String },
    ImportDefaultConfig,
    UpdateProvidersSortOrder { updates: JsonValue },
    ConfigDir,
    /// With settings text the snippet is taken from those settings (parsed as
    /// JSON by the host), otherwise from the stored configuration.
    ExtractCommonConfigSnippet { settings_config: Option<String> },
    ReadLiveProviderSettings,
}

/// The usage reports, all filtered by an optional date range and application.
#[derive(Clone, Copy, Debug, PartialEq, Eq)]
pub enum UsageReport {
    Summary,
    Trends,
    ProviderStats,
    ModelStats,
}

/// An operation of the provider, settings, proxy, failover or usage services.
#[allow(inconsistent_fields)]
#[derive(Debug, PartialEq, Eq)]
pub enum ServiceCall {
    ListUniversalProviders,
    GetUniversalProvider { id: String },
    UpsertUniversalProvider { provider: JsonValue },
    DeleteUniversalProvider { id: String },
    SyncUniversalProvider { id: String },
    GetSettings,
    SaveSettings { settings: JsonValue },
    AppConfigPath,
    GetCommonConfigSnippet { app_type: String },
    /// Stores `snippet` (nothing when the text was blank) and records whether
    /// it was cleared.
    SetCommonConfigSnippet { app_type: String, snippet: Option<String>, cleared: bool },
    FetchModels { base_url: String, api_key: String, is_full_url: bool },
    StartProxyServer,
    StopProxyWithRestore,
    ProxyStatus,
    IsProxyRunning,
    IsLiveTakeoverActive,
    ProxyTakeoverStatus,
    SetProxyTakeoverForApp { app_type: String, enabled: bool },
    SwitchProxyProvider { app_type: String, provider_id: String },
    ProxyConfig,
    UpdateProxyConfig { config: JsonValue },
    GlobalProxyConfig,
    UpdateGlobalProxyConfig { config: JsonValue },
    ProxyConfigForApp { app_type: String },
    UpdateProxyConfigForApp { config: JsonValue },
    DefaultCostMultiplier { app_type: String },
    SetDefaultCostMultiplier { app_type: String, value: String },
    PricingModelSource { app_type: String },
    SetPricingModelSource { app_type: String, value: String },
    ProviderHealth { provider_id: String, app_type: String },
    /// Marks the provider healthy, then resets its circuit breaker.
    ResetCircuitBreaker { provider_id: String, app_type: String },
    CircuitBreakerConfig,
    /// Stores the configuration, then hands it to the proxy.
    UpdateCircuitBreakerConfig { config: JsonValue },
    FailoverQueue { app_type: String },
    AvailableProvidersForFailover { app_type: String },
    AddToFailoverQueue { app_type: String, provider_id: String },
    RemoveFromFailoverQueue { app_type: String, provider_id: String },
    /// Answers the `auto_failover_enabled` flag of the application's proxy
    /// configuration.
    AutoFailoverEnabled { app_type: String },
    /// Reads the application's proxy configuration, sets its
    /// `auto_failover_enabled` flag and stores it.
    SetAutoFailoverEnabled { app_type: String, enabled: bool },
    Usage {
        report: UsageReport,
        start_date: Option<i64>,
        end_date: Option<i64>,
        app_type: Option<String>,
    },
    /// `filters` is `None` when the request names none, which selects every
    /// log (an empty filter object). The filters are decoded before the page
    /// numbers are checked.
    RequestLogs {
        filters: Option<JsonValue>,
        page: Result<u32, RpcError>,
        page_size: Result<u32, RpcError>,
    },
    RequestDetail { request_id: String },
    UsageDataSources,
}

/// The account services.
#[derive(Clone, Copy, Debug, PartialEq, Eq)]
pub enum AuthProvider {
    GithubCopilot,
    CodexOAuth,
}

/// An operation on the accounts of one account service.
#[derive(Debug, PartialEq, Eq)]
pub enum AuthOp {
    StartLogin { github_domain: Option<String> },
    PollForAccount { device_code: String, github_domain: Option<String> },
    GetStatus,
    ListAccounts,
    RemoveAccount { account_id: String },
    SetDefaultAccount { account_id: String },
    Logout,
}

#[derive(Debug, PartialEq, Eq)]
pub struct AuthCall {
    pub provider: AuthProvider,
    pub op: AuthOp,
}

/// What a request is answered with, or which operation answers it.
#[derive(Debug, PartialEq, Eq)]
pub enum RpcPlan {
    Reply(Immediate),
    App { app: String, call: Result<AppCall, RpcError> },
    Service(ServiceCall),
    Auth(AuthCall),
}

pub type Planned = Result<RpcPlan, RpcError>;

/// The name under which each account service is addressed.
pub open spec fn spec_auth_provider_id(p: AuthProvider) -> &'static str {
    match p {
        AuthProvider::GithubCopilot => "github_copilot",
        AuthProvider::CodexOAuth => "codex_oauth",
    }
}

impl AuthProvider {
    pub fn id(&self) -> (r: &'static str)
        ensures
            r == spec_auth_provider_id(*self),
    {
        match self {
            AuthProvider::GithubCopilot => "github_copilot",
            AuthProvider::CodexOAuth => "codex_oauth",
        }
    }
}

/// The account service a name addresses.
pub open spec fn spec_auth_provider_named(name: Seq<char>) -> Option<AuthProvider> {
    if name == "github_copilot"@ {
        Some(AuthProvider::GithubCopilot)
    } else if name == "codex_oauth"@ {
        Some(AuthProvider::CodexOAuth)
    } else {
        None
    }
}

pub fn auth_provider_named(name: &str) -> (r: Option<AuthProvider>)
    ensures
        r == spec_auth_provider_named(name@),
{
    if str_equal(name, "github_copilot") {
        Some(AuthProvider::GithubCopilot)
    } else if str_equal(name, "codex_oauth") {
        Some(AuthProvider::CodexOAuth)
    } else {
        None
    }
}

// ---------------------------------------------------------------------------
// The plan of each command, stated over the arguments.
pub open spec fn with_app(a: JsonValue, key: &'static str, call: Result<AppCall, RpcError>) -> Planned {
    match spec_string_arg(a, key) {
        Ok(app) => Ok(RpcPlan::App { app, call }),
        Err(e) => Err(e),
    }
}

pub open spec fn app_id_call(a: JsonValue, f: spec_fn(String) -> AppCall) -> Result<AppCall, RpcError> {
    match spec_string_arg(a, "id") {
        Ok(id) => Ok(f(id)),
        Err(e) => Err(e),
    }
}

pub open spec fn service(call: ServiceCall) -> Planned {
    Ok(RpcPlan::Service(call))
}

pub open spec fn service_str(a: JsonValue, key: &'static str, f: spec_fn(String) -> ServiceCall) -> Planned {
    match spec_string_arg(a, key) {
        Ok(s) => Ok(RpcPlan::Service(f(s))),
        Err(e) => Err(e),
    }
}

pub open spec fn service_str2(
    a: JsonValue,
    k1: &'static str,
    k2: &'static str,
    f: spec_fn(String, String) -> ServiceCall,
) -> Planned {
    match spec_string_arg(a, k1) {
        Ok(s1) => match spec_string_arg(a, k2) {
            Ok(s2) => Ok(RpcPlan::Service(f(s1, s2))),
            Err(e) => Err(e),
        },
        Err(e) => Err(e),
    }
}

pub open spec fn service_str_bool(
    a: JsonValue,
    k1: &'static str,
    k2: &'static str,
    f: spec_fn(String, bool) -> ServiceCall,
) -> Planned {
    match spec_string_arg(a, k1) {
        Ok(s) => match spec_bool_arg(a, k2) {
            Ok(b) => Ok(RpcPlan::Service(f(s, b))),
            Err(e) => Err(e),
        },
        Err(e) => Err(e),
    }
}

pub open spec fn service_payload(a: JsonValue, key: &'static str, f: spec_fn(JsonValue) -> ServiceCall) -> Planned {
    match spec_payload_arg(a, key) {
        Ok(v) => Ok(RpcPlan::Service(f(v))),
        Err(e) => Err(e),
    }
}

/// The provider commands and the others that name one application.
pub open spec fn spec_plan_app_command(c: Seq<char>, a: JsonValue) -> Option<Planned> {
    if c == "get_providers"@ {
        Some(with_app(a, "app", Ok(AppCall::ListProviders)))
    } else if c == "get_current_provider"@ {
        Some(with_app(a, "app", Ok(AppCall::CurrentProvider)))
    } else if c == "add_provider"@ {
        Some(
            with_app(
                a,
                "app",
                match spec_payload_arg(a, "provider") {
                    Ok(provider) => Ok(
                        AppCall::AddProvider {
                            provider,
                            add_to_live: spec_bool_arg_or(a, "addToLive", true),
                        },
                    ),
                    Err(e) => Err(e),
                },
            ),
        )
    } else if c == "update_provider"@ {
        Some(
            with_app(
                a,
                "app",
                match spec_payload_arg(a, "provider") {
                    Ok(provider) => Ok(
                        AppCall::UpdateProvider {
                            provider,
                            original_id: spec_optional_string_arg(a, "originalId"),
                        },
                    ),
                    Err(e) => Err(e),
                },
            ),
        )
    } else if c == "delete_provider"@ {
        Some(with_app(a, "app", app_id_call(a, |id| AppCall::DeleteProvider { id })))
    } else if c == "remove_provider_from_live_config"@ {
        Some(with_app(a, "app", app_id_call(a, |id| AppCall::RemoveProviderFromLiveConfig { id })))
    } else if c == "switch_provider"@ {
        Some(with_app(a, "app", app_id_call(a, |id| AppCall::SwitchProvider { id })))
    } else if c == "import_default_config"@ {
        Some(with_app(a, "app", Ok(AppCall::ImportDefaultConfig)))
    } else if c == "update_providers_sort_order"@ {
        Some(
            with_app(
                a,
                "app",
                match spec_payload_arg(a, "updates") {
                    Ok(updates) => Ok(AppCall::UpdateProvidersSortOrder { updates }),
                    Err(e) => Err(e),
                },
            ),
        )
    } else if c == "get_config_dir"@ {
        Some(with_app(a, "app", Ok(AppCall::ConfigDir)))
    } else if c == "extract_common_config_snippet"@ {
        Some(
            with_app(
                a,
                "appType",
                Ok(
                    AppCall::ExtractCommonConfigSnippet {
                        settings_config: spec_optional_string_arg(a, "settingsConfig"),
                    },
                ),
            ),
        )
    } else if c == "read_live_provider_settings"@ {
        Some(with_app(a, "app", Ok(AppCall::ReadLiveProviderSettings)))
    } else {
        None
    }
}

/// The stored snippet and whether it was cleared: blank text clears it.
pub open spec fn spec_snippet_update(snippet: String) -> (Option<String>, bool) {
    if trim_chars(snippet@).len() == 0 {
        (None, true)
    } else {
        (Some(snippet), false)
    }
}

/// The universal-provider, settings and snippet commands.
pub open spec fn spec_plan_config_command(c: Seq<char>, a: JsonValue) -> Option<Planned> {
    if c == "get_universal_providers"@ {
        Some(service(ServiceCall::ListUniversalProviders))
    } else if c == "get_universal_provider"@ {
        Some(service_str(a, "id", |id| ServiceCall::GetUniversalProvider { id }))
    } else if c == "upsert_universal_provider"@ {
        Some(service_payload(a, "provider", |provider| ServiceCall::UpsertUniversalProvider { provider }))
    } else if c == "delete_universal_provider"@ {
        Some(service_str(a, "id", |id| ServiceCall::DeleteUniversalProvider { id }))
    } else if c == "sync_universal_provider"@ {
        Some(service_str(a, "id", |id| ServiceCall::SyncUniversalProvider { id }))
    } else if c == "get_settings"@ {
        Some(service(ServiceCall::GetSettings))
    } else if c == "save_settings"@ {
        Some(service_payload(a, "settings", |settings| ServiceCall::SaveSettings { settings }))
    } else if c == "get_app_config_path"@ {
        Some(service(ServiceCall::AppConfigPath))
    } else if c == "get_common_config_snippet"@ {
        Some(service_str(a, "appType", |app_type| ServiceCall::GetCommonConfigSnippet { app_type }))
    } else if c == "set_common_config_snippet"@ {
        Some(
            service_str2(
                a,
                "appType",
                "snippet",
                |app_type, snippet|
                    ServiceCall::SetCommonConfigSnippet {
                        app_type,
                        snippet: spec_snippet_update(snippet).0,
                        cleared: spec_snippet_update(snippet).1,
                    },
            ),
        )
    } else if c == "fetch_models_for_config"@ {
        Some(
            service_str2(
                a,
                "baseUrl",
                "apiKey",
                |base_url, api_key|
                    ServiceCall::FetchModels {
                        base_url,
                        api_key,
                        is_full_url: spec_bool_arg_or(a, "isFullUrl", false),
                    },
            ),
        )
    } else {
        None
    }
}

/// The proxy, circuit-breaker, pricing and failover commands.
pub open spec fn spec_plan_proxy_command(c: Seq<char>, a: JsonValue) -> Option<Planned> {
    if c == "start_proxy_server"@ {
        Some(service(ServiceCall::StartProxyServer))
    } else if c == "stop_proxy_with_restore"@ {
        Some(service(ServiceCall::StopProxyWithRestore))
    } else if c == "get_proxy_status"@ {
        Some(service(ServiceCall::ProxyStatus))
    } else if c == "is_proxy_running"@ {
        Some(service(ServiceCall::IsProxyRunning))
    } else if c == "is_live_takeover_active"@ {
        Some(service(ServiceCall::IsLiveTakeoverActive))
    } else if c == "get_proxy_takeover_status"@ {
        Some(service(ServiceCall::ProxyTakeoverStatus))
    } else if c == "set_proxy_takeover_for_app"@ {
        Some(
            service_str_bool(
                a,
                "appType",
                "enabled",
                |app_type, enabled| ServiceCall::SetProxyTakeoverForApp { app_type, enabled },
            ),
        )
    } else if c == "switch_proxy_provider"@ {
        Some(
            service_str2(
                a,
                "appType",
                "providerId",
                |app_type, provider_id| ServiceCall::SwitchProxyProvider { app_type, provider_id },
            ),
        )
    } else if c == "get_proxy_config"@ {
        Some(service(ServiceCall::ProxyConfig))
    } else if c == "update_proxy_config"@ {
        Some(service_payload(a, "config", |config| ServiceCall::UpdateProxyConfig { config }))
    } else if c == "get_global_proxy_config"@ {
        Some(service(ServiceCall::GlobalProxyConfig))
    } else if c == "update_global_proxy_config"@ {
        Some(service_payload(a, "config", |config| ServiceCall::UpdateGlobalProxyConfig { config }))
    } else if c == "get_proxy_config_for_app"@ {
        Some(service_str(a, "appType", |app_type| ServiceCall::ProxyConfigForApp { app_type }))
    } else if c == "update_proxy_config_for_app"@ {
        Some(service_payload(a, "config", |config| ServiceCall::UpdateProxyConfigForApp { config }))
    } else if c == "get_default_cost_multiplier"@ {
        Some(service_str(a, "appType", |app_type| ServiceCall::DefaultCostMultiplier { app_type }))
    } else if c == "set_default_cost_multiplier"@ {
        Some(
            service_str2(
                a,
                "appType",
                "value",
                |app_type, value| ServiceCall::SetDefaultCostMultiplier { app_type, value },
            ),
        )
    } else if c == "get_pricing_model_source"@ {
        Some(service_str(a, "appType", |app_type| ServiceCall::PricingModelSource { app_type }))
    } else if c == "set_pricing_model_source"@ {
        Some(
            service_str2(
                a,
                "appType",
                "value",
                |app_type, value| ServiceCall::SetPricingModelSource { app_type, value },
            ),
        )
    } else if c == "get_provider_health"@ {
        Some(
            service_str2(
                a,
                "providerId",
                "appType",
                |provider_id, app_type| ServiceCall::ProviderHealth { provider_id, app_type },
            ),
        )
    } else if c == "reset_circuit_breaker"@ {
        Some(
            service_str2(
                a,
                "providerId",
                "appType",
                |provider_id, app_type| ServiceCall::ResetCircuitBreaker { provider_id, app_type },
            ),
        )
    } else if c == "get_circuit_breaker_config"@ {
        Some(service(ServiceCall::CircuitBreakerConfig))
    } else if c == "update_circuit_breaker_config"@ {
        Some(service_payload(a, "config", |config| ServiceCall::UpdateCircuitBreakerConfig { config }))
    } else if c == "get_failover_queue"@ {
        Some(service_str(a, "appType", |app_type| ServiceCall::FailoverQueue { app_type }))
    } else if c == "get_available_providers_for_failover"@ {
        Some(
            service_str(
                a,
                "appType",
                |app_type| ServiceCall::AvailableProvidersForFailover { app_type },
            ),
        )
    } else if c == "add_to_failover_queue"@ {
        Some(
            service_str2(
                a,
                "appType",
                "providerId",
                |app_type, provider_id| ServiceCall::AddToFailoverQueue { app_type, provider_id },
            ),
        )
    } else if c == "remove_from_failover_queue"@ {
        Some(
            service_str2(
                a,
                "appType",
                "providerId",
                |app_type, provider_id|
                    ServiceCall::RemoveFromFailoverQueue { app_type, provider_id },
            ),
        )
    } else if c == "get_auto_failover_enabled"@ {
        Some(service_str(a, "appType", |app_type| ServiceCall::AutoFailoverEnabled { app_type }))
    } else if c == "set_auto_failover_enabled"@ {
        Some(
            service_str_bool(
                a,
                "appType",
                "enabled",
                |app_type, enabled| ServiceCall::SetAutoFailoverEnabled { app_type, enabled },
            ),
        )
    } else {
        None
    }
}

pub open spec fn usage(a: JsonValue, report: UsageReport) -> Planned {
    service(
        ServiceCall::Usage {
            report,
            start_date: spec_optional_i64_arg(a, "startDate"),
            end_date: spec_optional_i64_arg(a, "endDate"),
            app_type: spec_optional_string_arg(a, "appType"),
        },
    )
}

/// The usage-statistics commands.
pub open spec fn spec_plan_usage_command(c: Seq<char>, a: JsonValue) -> Option<Planned> {
    if c == "get_usage_summary"@ {
        Some(usage(a, UsageReport::Summary))
    } else if c == "get_usage_trends"@ {
        Some(usage(a, UsageReport::Trends))
    } else if c == "get_provider_stats"@ {
        Some(usage(a, UsageReport::ProviderStats))
    } else if c == "get_model_stats"@ {
        Some(usage(a, UsageReport::ModelStats))
    } else if c == "get_request_logs"@ {
        Some(
            service(
                ServiceCall::RequestLogs {
                    filters: spec_get(a, "filters"@),
                    page: spec_u32_arg(a, "page", 0),
                    page_size: spec_u32_arg(a, "pageSize", 20),
                },
            ),
        )
    } else if c == "get_request_detail"@ {
        Some(service_str(a, "requestId", |request_id| ServiceCall::RequestDetail { request_id }))
    } else if c == "get_usage_data_sources"@ {
        Some(service(ServiceCall::UsageDataSources))
    } else {
        None
    }
}

/// An account operation on the service `authProvider` names, once the other
/// arguments of the operation are read.
pub open spec fn auth_on(provider_name: String, op: AuthOp) -> Planned {
    match spec_auth_provider_named(provider_name@) {
        Some(provider) => Ok(RpcPlan::Auth(AuthCall { provider, op })),
        None => Err(RpcError::UnsupportedAuthProvider(provider_name)),
    }
}

/// The account commands.
pub open spec fn spec_plan_auth_command(c: Seq<char>, a: JsonValue) -> Option<Planned> {
    if c == "auth_start_login"@ {
        Some(
            match spec_string_arg(a, "authProvider") {
                Err(e) => Err(e),
                Ok(p) => auth_on(
                    p,
                    AuthOp::StartLogin {
                        github_domain: if spec_auth_provider_named(p@) == Some(
                            AuthProvider::GithubCopilot,
                        ) {
                            spec_optional_string_arg(a, "githubDomain")
                        } else {
                            None
                        },
                    },
                ),
            },
        )
    } else if c == "auth_poll_for_account"@ {
        Some(
            match spec_string_arg(a, "authProvider") {
                Err(e) => Err(e),
                Ok(p) => match spec_string_arg(a, "deviceCode") {
                    Err(e) => Err(e),
                    Ok(device_code) => auth_on(
                        p,
                        AuthOp::PollForAccount {
                            device_code,
                            github_domain: if spec_auth_provider_named(p@) == Some(
                                AuthProvider::GithubCopilot,
                            ) {
                                spec_optional_string_arg(a, "githubDomain")
                            } else {
                                None
                            },
                        },
                    ),
                },
            },
        )
    } else if c == "auth_get_status"@ {
        Some(
            match spec_string_arg(a, "authProvider") {
                Err(e) => Err(e),
                Ok(p) => auth_on(p, AuthOp::GetStatus),
            },
        )
    } else if c == "auth_list_accounts"@ {
        Some(
            match spec_string_arg(a, "authProvider") {
                Err(e) => Err(e),
                Ok(p) => auth_on(p, AuthOp::ListAccounts),
            },
        )
    } else if c == "auth_remove_account"@ {
        Some(
            match spec_string_arg(a, "authProvider") {
                Err(e) => Err(e),
                Ok(p) => match spec_string_arg(a, "accountId") {
                    Err(e) => Err(e),
                    Ok(account_id) => auth_on(p, AuthOp::RemoveAccount { account_id }),
                },
            },
        )
    } else if c == "auth_set_default_account"@ {
        Some(
            match spec_string_arg(a, "authProvider") {
                Err(e) => Err(e),
                Ok(p) => match spec_string_arg(a, "accountId") {
                    Err(e) => Err(e),
                    Ok(account_id) => auth_on(p, AuthOp::SetDefaultAccount { account_id }),
                },
            },
        )
    } else if c == "auth_logout"@ {
        Some(
            match spec_string_arg(a, "authProvider") {
                Err(e) => Err(e),
                Ok(p) => auth_on(p, AuthOp::Logout),
            },
        )
    } else {
        None
    }
}

pub open spec fn reply(answer: Immediate) -> Planned {
    Ok(RpcPlan::Reply(answer))
}

/// The commands answered without a service: desktop-only features are
/// acknowledged, and `pick_directory` echoes the suggested path.
pub open spec fn spec_plan_fixed_reply(c: Seq<char>, a: JsonValue) -> Option<Planned> {
    if c == "update_tray_menu"@ {
        Some(reply(Immediate::Bool(true)))
    } else if c == "get_app_config_dir_override"@ {
        Some(reply(Immediate::Null))
    } else if c == "set_app_config_dir_override"@ {
        Some(reply(Immediate::Bool(true)))
    } else if c == "open_config_folder"@ {
        Some(reply(Immediate::Bool(true)))
    } else if c == "pick_directory"@ {
        Some(
            reply(
                match spec_optional_string_arg(a, "defaultPath") {
                    Some(path) => Immediate::Text(path),
                    None => Immediate::Null,
                },
            ),
        )
    } else if c == "open_app_config_folder"@ {
        Some(reply(Immediate::Bool(true)))
    } else if c == "is_portable_mode"@ {
        Some(reply(Immediate::Bool(false)))
    } else if c == "get_init_error"@ {
        Some(reply(Immediate::Null))
    } else if c == "get_migration_result"@ {
        Some(reply(Immediate::Bool(false)))
    } else if c == "get_skills_migration_result"@ {
        Some(reply(Immediate::Null))
    } else if c == "open_external"@ {
        Some(reply(Immediate::Bool(true)))
    } else if c == "copy_text_to_clipboard"@ {
        Some(reply(Immediate::Bool(true)))
    } else if c == "check_for_updates"@ {
        Some(reply(Immediate::Bool(true)))
    } else if c == "get_tool_versions"@ {
        Some(reply(Immediate::EmptyList))
    } else if c == "check_env_conflicts"@ {
        Some(reply(Immediate::EmptyList))
    } else if c == "get_circuit_breaker_stats"@ {
        Some(reply(Immediate::Null))
    } else if c == "set_window_theme"@ {
        Some(reply(Immediate::Bool(true)))
    } else {
        None
    }
}

/// The plan of a request: the first group that knows the command decides;
/// an unknown command is refused.
pub open spec fn spec_plan_rpc_command(command: String, args: JsonValue) -> Planned {
    let c = command@;
    match spec_plan_app_command(c, args) {
        Some(p) => p,
        None => match spec_plan_config_command(c, args) {
            Some(p) => p,
            None => match spec_plan_proxy_command(c, args) {
                Some(p) => p,
                None => match spec_plan_usage_command(c, args) {
                    Some(p) => p,
                    None => match spec_plan_auth_command(c, args) {
                        Some(p) => p,
                        None => match spec_plan_fixed_reply(c, args) {
                            Some(p) => p,
                            None => Err(RpcError::NotImplemented(command)),
                        },
                    },
                },
            },
        },
    }
}


// ---------------------------------------------------------------------------
// Planning.
/// Plans the commands that name one application.
fn plan_app_command(c: &str, args: &JsonValue) -> (r: Option<Planned>)
    ensures
        r == spec_plan_app_command(c@, *args),
{
    if str_equal(c, "get_providers") {
        let app = match parse_app(args) {
            Ok(app) => app,
            Err(e) => return Some(Err(e)),
        };
        let call = Ok(AppCall::ListProviders);
        Some(Ok(RpcPlan::App { app, call }))
    } else if str_equal(c, "get_current_provider") {
        let app = match parse_app(args) {
            Ok(app) => app,
            Err(e) => return Some(Err(e)),
        };
        let call = Ok(AppCall::CurrentProvider);
        Some(Ok(RpcPlan::App { app, call }))
    } else if str_equal(c, "add_provider") {
        let app = match parse_app(args) {
            Ok(app) => app,
            Err(e) => return Some(Err(e)),
        };
        let add_to_live = bool_arg_or(args, "addToLive", true);
        let call = match parse_provider(args) {
            Ok(provider) => Ok(AppCall::AddProvider { provider, add_to_live }),
            Err(e) => Err(e),
        };
        Some(Ok(RpcPlan::App { app, call }))
    } else if str_equal(c, "update_provider") {
        let app = match parse_app(args) {
            Ok(app) => app,
            Err(e) => return Some(Err(e)),
        };
        let original_id = optional_string_arg(args, "originalId");
        let call = match parse_provider(args) {
            Ok(provider) => Ok(AppCall::UpdateProvider { provider, original_id }),
            Err(e) => Err(e),
        };
        Some(Ok(RpcPlan::App { app, call }))
    } else if str_equal(c, "delete_provider") {
        let app = match parse_app(args) {
            Ok(app) => app,
            Err(e) => return Some(Err(e)),
        };
        let call = match string_arg(args, "id") {
            Ok(id) => Ok(AppCall::DeleteProvider { id }),
            Err(e) => Err(e),
        };
        Some(Ok(RpcPlan::App { app, call }))
    } else if str_equal(c, "remove_provider_from_live_config") {
        let app = match parse_app(args) {
            Ok(app) => app,
            Err(e) => return Some(Err(e)),
        };
        let call = match string_arg(args, "id") {
            Ok(id) => Ok(AppCall::RemoveProviderFromLiveConfig { id }),
            Err(e) => Err(e),
        };
        Some(Ok(RpcPlan::App { app, call }))
    } else if str_equal(c, "switch_provider") {
        let app = match parse_app(args) {
            Ok(app) => app,
            Err(e) => return Some(Err(e)),
        };
        let call = match string_arg(args, "id") {
            Ok(id) => Ok(AppCall::SwitchProvider { id }),
            Err(e) => Err(e),
        };
        Some(Ok(RpcPlan::App { app, call }))
    } else if str_equal(c, "import_default_config") {
        let app = match parse_app(args) {
            Ok(app) => app,
            Err(e) => return Some(Err(e)),
        };
        let call = Ok(AppCall::ImportDefaultConfig);
        Some(Ok(RpcPlan::App { app, call }))
    } else if str_equal(c, "update_providers_sort_order") {
        let app = match parse_app(args) {
            Ok(app) => app,
            Err(e) => return Some(Err(e)),
        };
        let call = match payload_arg(args, "updates") {
            Ok(updates) => Ok(AppCall::UpdateProvidersSortOrder { updates }),
            Err(e) => Err(e),
        };
        Some(Ok(RpcPlan::App { app, call }))
    } else if str_equal(c, "get_config_dir") {
        let app = match parse_app(args) {
            Ok(app) => app,
            Err(e) => return Some(Err(e)),
        };
        let call = Ok(AppCall::ConfigDir);
        Some(Ok(RpcPlan::App { app, call }))
    } else if str_equal(c, "extract_common_config_snippet") {
        let app = match string_arg(args, "appType") {
            Ok(app) => app,
            Err(e) => return Some(Err(e)),
        };
        let call = Ok(
            AppCall::ExtractCommonConfigSnippet {
                settings_config: optional_string_arg(args, "settingsConfig"),
            },
        );
        Some(Ok(RpcPlan::App { app, call }))
    } else if str_equal(c, "read_live_provider_settings") {
        let app = match parse_app(args) {
            Ok(app) => app,
            Err(e) => return Some(Err(e)),
        };
        let call = Ok(AppCall::ReadLiveProviderSettings);
        Some(Ok(RpcPlan::App { app, call }))
    } else {
        None
    }
}

/// Plans the universal-provider, settings and snippet commands.
fn plan_config_command(c: &str, args: &JsonValue) -> (r: Option<Planned>)
    ensures
        r == spec_plan_config_command(c@, *args),
{
    if str_equal(c, "get_universal_providers") {
        Some(Ok(RpcPlan::Service(ServiceCall::ListUniversalProviders)))
    } else if str_equal(c, "get_universal_provider") {
        Some(
            match string_arg(args, "id") {
                Ok(id) => Ok(RpcPlan::Service(ServiceCall::GetUniversalProvider { id })),
                Err(e) => Err(e),
            },
        )
    } else if str_equal(c, "upsert_universal_provider") {
        Some(
            match parse_provider(args) {
                Ok(provider) => Ok(RpcPlan::Service(ServiceCall::UpsertUniversalProvider { provider })),
                Err(e) => Err(e),
            },
        )
    } else if str_equal(c, "delete_universal_provider") {
        Some(
            match string_arg(args, "id") {
                Ok(id) => Ok(RpcPlan::Service(ServiceCall::DeleteUniversalProvider { id })),
                Err(e) => Err(e),
            },
        )
    } else if str_equal(c, "sync_universal_provider") {
        Some(
            match string_arg(args, "id") {
                Ok(id) => Ok(RpcPlan::Service(ServiceCall::SyncUniversalProvider { id })),
                Err(e) => Err(e),
            },
        )
    } else if str_equal(c, "get_settings") {
        Some(Ok(RpcPlan::Service(ServiceCall::GetSettings)))
    } else if str_equal(c, "save_settings") {
        Some(
            match payload_arg(args, "settings") {
                Ok(settings) => Ok(RpcPlan::Service(ServiceCall::SaveSettings { settings })),
                Err(e) => Err(e),
            },
        )
    } else if str_equal(c, "get_app_config_path") {
        Some(Ok(RpcPlan::Service(ServiceCall::AppConfigPath)))
    } else if str_equal(c, "get_common_config_snippet") {
        Some(
            match string_arg(args, "appType") {
                Ok(app_type) => Ok(RpcPlan::Service(ServiceCall::GetCommonConfigSnippet { app_type })),
                Err(e) => Err(e),
            },
        )
    } else if str_equal(c, "set_common_config_snippet") {
        let app_type = match string_arg(args, "appType") {
            Ok(s) => s,
            Err(e) => return Some(Err(e)),
        };
        let snippet = match string_arg(args, "snippet") {
            Ok(s) => s,
            Err(e) => return Some(Err(e)),
        };
        let cleared = is_blank(snippet.as_str());
        let stored = if cleared {
            None
        } else {
            Some(snippet)
        };
        Some(
            Ok(
                RpcPlan::Service(
                    ServiceCall::SetCommonConfigSnippet { app_type, snippet: stored, cleared },
                ),
            ),
        )
    } else if str_equal(c, "fetch_models_for_config") {
        let base_url = match string_arg(args, "baseUrl") {
            Ok(s) => s,
            Err(e) => return Some(Err(e)),
        };
        let api_key = match string_arg(args, "apiKey") {
            Ok(s) => s,
            Err(e) => return Some(Err(e)),
        };
        let is_full_url = bool_arg_or(args, "isFullUrl", false);
        Some(Ok(RpcPlan::Service(ServiceCall::FetchModels { base_url, api_key, is_full_url })))
    } else {
        None
    }
}


/// Plans the proxy, circuit-breaker, pricing and failover commands.
fn plan_proxy_command(c: &str, args: &JsonValue) -> (r: Option<Planned>)
    ensures
        r == spec_plan_proxy_command(c@, *args),
{
    if str_equal(c, "start_proxy_server") {
        Some(Ok(RpcPlan::Service(ServiceCall::StartProxyServer)))
    } else if str_equal(c, "stop_proxy_with_restore") {
        Some(Ok(RpcPlan::Service(ServiceCall::StopProxyWithRestore)))
    } else if str_equal(c, "get_proxy_status") {
        Some(Ok(RpcPlan::Service(ServiceCall::ProxyStatus)))
    } else if str_equal(c, "is_proxy_running") {
        Some(Ok(RpcPlan::Service(ServiceCall::IsProxyRunning)))
    } else if str_equal(c, "is_live_takeover_active") {
        Some(Ok(RpcPlan::Service(ServiceCall::IsLiveTakeoverActive)))
    } else if str_equal(c, "get_proxy_takeover_status") {
        Some(Ok(RpcPlan::Service(ServiceCall::ProxyTakeoverStatus)))
    } else if str_equal(c, "set_proxy_takeover_for_app") {
        let app_type = match string_arg(args, "appType") {
            Ok(s) => s,
            Err(e) => return Some(Err(e)),
        };
        let enabled = match bool_arg(args, "enabled") {
            Ok(b) => b,
            Err(e) => return Some(Err(e)),
        };
        Some(Ok(RpcPlan::Service(ServiceCall::SetProxyTakeoverForApp { app_type, enabled })))
    } else if str_equal(c, "switch_proxy_provider") {
        let app_type = match string_arg(args, "appType") {
            Ok(s) => s,
            Err(e) => return Some(Err(e)),
        };
        let provider_id = match string_arg(args, "providerId") {
            Ok(s) => s,
            Err(e) => return Some(Err(e)),
        };
        Some(Ok(RpcPlan::Service(ServiceCall::SwitchProxyProvider { app_type, provider_id })))
    } else if str_equal(c, "get_proxy_config") {
        Some(Ok(RpcPlan::Service(ServiceCall::ProxyConfig)))
    } else if str_equal(c, "update_proxy_config") {
        Some(
            match payload_arg(args, "config") {
                Ok(config) => Ok(RpcPlan::Service(ServiceCall::UpdateProxyConfig { config })),
                Err(e) => Err(e),
            },
        )
    } else if str_equal(c, "get_global_proxy_config") {
        Some(Ok(RpcPlan::Service(ServiceCall::GlobalProxyConfig)))
    } else if str_equal(c, "update_global_proxy_config") {
        Some(
            match payload_arg(args, "config") {
                Ok(config) => Ok(RpcPlan::Service(ServiceCall::UpdateGlobalProxyConfig { config })),
                Err(e) => Err(e),
            },
        )
    } else if str_equal(c, "get_proxy_config_for_app") {
        Some(
            match string_arg(args, "appType") {
                Ok(app_type) => Ok(RpcPlan::Service(ServiceCall::ProxyConfigForApp { app_type })),
                Err(e) => Err(e),
            },
        )
    } else if str_equal(c, "update_proxy_config_for_app") {
        Some(
            match payload_arg(args, "config") {
                Ok(config) => Ok(RpcPlan::Service(ServiceCall::UpdateProxyConfigForApp { config })),
                Err(e) => Err(e),
            },
        )
    } else if str_equal(c, "get_default_cost_multiplier") {
        Some(
            match string_arg(args, "appType") {
                Ok(app_type) => Ok(RpcPlan::Service(ServiceCall::DefaultCostMultiplier { app_type })),
                Err(e) => Err(e),
            },
        )
    } else if str_equal(c, "set_default_cost_multiplier") {
        let app_type = match string_arg(args, "appType") {
            Ok(s) => s,
            Err(e) => return Some(Err(e)),
        };
        let value = match string_arg(args, "value") {
            Ok(s) => s,
            Err(e) => return Some(Err(e)),
        };
        Some(Ok(RpcPlan::Service(ServiceCall::SetDefaultCostMultiplier { app_type, value })))
    } else if str_equal(c, "get_pricing_model_source") {
        Some(
            match string_arg(args, "appType") {
                Ok(app_type) => Ok(RpcPlan::Service(ServiceCall::PricingModelSource { app_type })),
                Err(e) => Err(e),
            },
        )
    } else if str_equal(c, "set_pricing_model_source") {
        let app_type = match string_arg(args, "appType") {
            Ok(s) => s,
            Err(e) => return Some(Err(e)),
        };
        let value = match string_arg(args, "value") {
            Ok(s) => s,
            Err(e) => return Some(Err(e)),
        };
        Some(Ok(RpcPlan::Service(ServiceCall::SetPricingModelSource { app_type, value })))
    } else if str_equal(c, "get_provider_health") {
        let provider_id = match string_arg(args, "providerId") {
            Ok(s) => s,
            Err(e) => return Some(Err(e)),
        };
        let app_type = match string_arg(args, "appType") {
            Ok(s) => s,
            Err(e) => return Some(Err(e)),
        };
        Some(Ok(RpcPlan::Service(ServiceCall::ProviderHealth { provider_id, app_type })))
    } else if str_equal(c, "reset_circuit_breaker") {
        let provider_id = match string_arg(args, "providerId") {
            Ok(s) => s,
            Err(e) => return Some(Err(e)),
        };
        let app_type = match string_arg(args, "appType") {
            Ok(s) => s,
            Err(e) => return Some(Err(e)),
        };
        Some(Ok(RpcPlan::Service(ServiceCall::ResetCircuitBreaker { provider_id, app_type })))
    } else if str_equal(c, "get_circuit_breaker_config") {
        Some(Ok(RpcPlan::Service(ServiceCall::CircuitBreakerConfig)))
    } else if str_equal(c, "update_circuit_breaker_config") {
        Some(
            match payload_arg(args, "config") {
                Ok(config) => Ok(RpcPlan::Service(ServiceCall::UpdateCircuitBreakerConfig { config })),
                Err(e) => Err(e),
            },
        )
    } else if str_equal(c, "get_failover_queue") {
        Some(
            match string_arg(args, "appType") {
                Ok(app_type) => Ok(RpcPlan::Service(ServiceCall::FailoverQueue { app_type })),
                Err(e) => Err(e),
            },
        )
    } else if str_equal(c, "get_available_providers_for_failover") {
        Some(
            match string_arg(args, "appType") {
                Ok(app_type) => Ok(RpcPlan::Service(ServiceCall::AvailableProvidersForFailover { app_type })),
                Err(e) => Err(e),
            },
        )
    } else if str_equal(c, "add_to_failover_queue") {
        let app_type = match string_arg(args, "appType") {
            Ok(s) => s,
            Err(e) => return Some(Err(e)),
        };
        let provider_id = match string_arg(args, "providerId") {
            Ok(s) => s,
            Err(e) => return Some(Err(e)),
        };
        Some(Ok(RpcPlan::Service(ServiceCall::AddToFailoverQueue { app_type, provider_id })))
    } else if str_equal(c, "remove_from_failover_queue") {
        let app_type = match string_arg(args, "appType") {
            Ok(s) => s,
            Err(e) => return Some(Err(e)),
        };
        let provider_id = match string_arg(args, "providerId") {
            Ok(s) => s,
            Err(e) => return Some(Err(e)),
        };
        Some(Ok(RpcPlan::Service(ServiceCall::RemoveFromFailoverQueue { app_type, provider_id })))
    } else if str_equal(c, "get_auto_failover_enabled") {
        Some(
            match string_arg(args, "appType") {
                Ok(app_type) => Ok(RpcPlan::Service(ServiceCall::AutoFailoverEnabled { app_type })),
                Err(e) => Err(e),
            },
        )
    } else if str_equal(c, "set_auto_failover_enabled") {
        let app_type = match string_arg(args, "appType") {
            Ok(s) => s,
            Err(e) => return Some(Err(e)),
        };
        let enabled = match bool_arg(args, "enabled") {
            Ok(b) => b,
            Err(e) => return Some(Err(e)),
        };
        Some(Ok(RpcPlan::Service(ServiceCall::SetAutoFailoverEnabled { app_type, enabled })))
    } else {
        None
    }
}


/// Plans the usage-statistics commands.
fn plan_usage_command(c: &str, args: &JsonValue) -> (r: Option<Planned>)
    ensures
        r == spec_plan_usage_command(c@, *args),
{
    let report = if str_equal(c, "get_usage_summary") {
        Some(UsageReport::Summary)
    } else if str_equal(c, "get_usage_trends") {
        Some(UsageReport::Trends)
    } else if str_equal(c, "get_provider_stats") {
        Some(UsageReport::ProviderStats)
    } else if str_equal(c, "get_model_stats") {
        Some(UsageReport::ModelStats)
    } else {
        None
    };
    if let Some(report) = report {
        return Some(
            Ok(
                RpcPlan::Service(
                    ServiceCall::Usage {
                        report,
                        start_date: optional_i64_arg(args, "startDate"),
                        end_date: optional_i64_arg(args, "endDate"),
                        app_type: optional_string_arg(args, "appType"),
                    },
                ),
            ),
        );
    }
    if str_equal(c, "get_request_logs") {
        let page = u32_arg(args, "page", 0);
        let page_size = u32_arg(args, "pageSize", 20);
        let filters = match arg(args, "filters") {
            Some(f) => Some(f.deep_clone()),
            None => None,
        };
        Some(Ok(RpcPlan::Service(ServiceCall::RequestLogs { filters, page, page_size })))
    } else if str_equal(c, "get_request_detail") {
        Some(
            match string_arg(args, "requestId") {
                Ok(request_id) => Ok(RpcPlan::Service(ServiceCall::RequestDetail { request_id })),
                Err(e) => Err(e),
            },
        )
    } else if str_equal(c, "get_usage_data_sources") {
        Some(Ok(RpcPlan::Service(ServiceCall::UsageDataSources)))
    } else {
        None
    }
}

/// The account operation on the service `provider_name` names.
fn auth_on_provider(provider_name: String, op: AuthOp) -> (r: Planned)
    ensures
        r == auth_on(provider_name, op),
{
    match auth_provider_named(provider_name.as_str()) {
        Some(provider) => Ok(RpcPlan::Auth(AuthCall { provider, op })),
        None => Err(RpcError::UnsupportedAuthProvider(provider_name)),
    }
}

/// Plans the account commands.
fn plan_auth_command(c: &str, args: &JsonValue) -> (r: Option<Planned>)
    ensures
        r == spec_plan_auth_command(c@, *args),
{
    let is_start = str_equal(c, "auth_start_login");
    let is_poll = str_equal(c, "auth_poll_for_account");
    let is_status = str_equal(c, "auth_get_status");
    let is_list = str_equal(c, "auth_list_accounts");
    let is_remove = str_equal(c, "auth_remove_account");
    let is_default = str_equal(c, "auth_set_default_account");
    let is_logout = str_equal(c, "auth_logout");
    if !(is_start || is_poll || is_status || is_list || is_remove || is_default || is_logout) {
        return None;
    }
    let provider_name = match string_arg(args, "authProvider") {
        Ok(p) => p,
        Err(e) => return Some(Err(e)),
    };
    let copilot = match auth_provider_named(provider_name.as_str()) {
        Some(AuthProvider::GithubCopilot) => true,
        _ => false,
    };
    let op = if is_start {
        AuthOp::StartLogin {
            github_domain: if copilot {
                optional_string_arg(args, "githubDomain")
            } else {
                None
            },
        }
    } else if is_poll {
        let device_code = match string_arg(args, "deviceCode") {
            Ok(d) => d,
            Err(e) => return Some(Err(e)),
        };
        AuthOp::PollForAccount {
            device_code,
            github_domain: if copilot {
                optional_string_arg(args, "githubDomain")
            } else {
                None
            },
        }
    } else if is_status {
        AuthOp::GetStatus
    } else if is_list {
        AuthOp::ListAccounts
    } else if is_remove || is_default {
        let account_id = match string_arg(args, "accountId") {
            Ok(d) => d,
            Err(e) => return Some(Err(e)),
        };
        if is_remove {
            AuthOp::RemoveAccount { account_id }
        } else {
            AuthOp::SetDefaultAccount { account_id }
        }
    } else {
        AuthOp::Logout
    };
    Some(auth_on_provider(provider_name, op))
}

/// Plans the commands answered without a service.
fn plan_fixed_reply(c: &str, args: &JsonValue) -> (r: Option<Planned>)
    ensures
        r == spec_plan_fixed_reply(c@, *args),
{
    if str_equal(c, "update_tray_menu") {
        Some(Ok(RpcPlan::Reply(Immediate::Bool(true))))
    } else if str_equal(c, "get_app_config_dir_override") {
        Some(Ok(RpcPlan::Reply(Immediate::Null)))
    } else if str_equal(c, "set_app_config_dir_override") {
        Some(Ok(RpcPlan::Reply(Immediate::Bool(true))))
    } else if str_equal(c, "open_config_folder") {
        Some(Ok(RpcPlan::Reply(Immediate::Bool(true))))
    } else if str_equal(c, "pick_directory") {
        Some(
            Ok(
                RpcPlan::Reply(
                    match optional_string_arg(args, "defaultPath") {
                        Some(path) => Immediate::Text(path),
                        None => Immediate::Null,
                    },
                ),
            ),
        )
    } else if str_equal(c, "open_app_config_folder") {
        Some(Ok(RpcPlan::Reply(Immediate::Bool(true))))
    } else if str_equal(c, "is_portable_mode") {
        Some(Ok(RpcPlan::Reply(Immediate::Bool(false))))
    } else if str_equal(c, "get_init_error") {
        Some(Ok(RpcPlan::Reply(Immediate::Null)))
    } else if str_equal(c, "get_migration_result") {
        Some(Ok(RpcPlan::Reply(Immediate::Bool(false))))
    } else if str_equal(c, "get_skills_migration_result") {
        Some(Ok(RpcPlan::Reply(Immediate::Null)))
    } else if str_equal(c, "open_external") {
        Some(Ok(RpcPlan::Reply(Immediate::Bool(true))))
    } else if str_equal(c, "copy_text_to_clipboard") {
        Some(Ok(RpcPlan::Reply(Immediate::Bool(true))))
    } else if str_equal(c, "check_for_updates") {
        Some(Ok(RpcPlan::Reply(Immediate::Bool(true))))
    } else if str_equal(c, "get_tool_versions") {
        Some(Ok(RpcPlan::Reply(Immediate::EmptyList)))
    } else if str_equal(c, "check_env_conflicts") {
        Some(Ok(RpcPlan::Reply(Immediate::EmptyList)))
    } else if str_equal(c, "get_circuit_breaker_stats") {
        Some(Ok(RpcPlan::Reply(Immediate::Null)))
    } else if str_equal(c, "set_window_theme") {
        Some(Ok(RpcPlan::Reply(Immediate::Bool(true))))
    } else {
        None
    }
}

/// Reads an RPC command and its arguments and decides what answers it:
/// a refusal, an immediate answer, or the service operation to run with the
/// arguments it takes; object arguments are copied into the plan whole.
pub fn plan_rpc_command(command: &String, args: &JsonValue) -> (r: Planned)
    ensures
        r == spec_plan_rpc_command(*command, *args),
{
    let c = command.as_str();
    if let Some(p) = plan_app_command(c, args) {
        return p;
    }
    if let Some(p) = plan_config_command(c, args) {
        return p;
    }
    if let Some(p) = plan_proxy_command(c, args) {
        return p;
    }
    if let Some(p) = plan_usage_command(c, args) {
        return p;
    }
    if let Some(p) = plan_auth_command(c, args) {
        return p;
    }
    if let Some(p) = plan_fixed_reply(c, args) {
        return p;
    }
    Err(RpcError::NotImplemented(command.clone()))
}


// ---------------------------------------------------------------------------
// Answers fixed in advance.
pub open spec fn spec_app_call_reply(call: AppCall) -> Option<Immediate> {
    match call {
        AppCall::DeleteProvider { .. } => Some(Immediate::Bool(true)),
        AppCall::RemoveProviderFromLiveConfig { .. } => Some(Immediate::Bool(true)),
        _ => None,
    }
}

pub open spec fn spec_service_call_reply(call: ServiceCall) -> Option<Immediate> {
    match call {
        ServiceCall::SaveSettings { .. } => Some(Immediate::Bool(true)),
        ServiceCall::SetCommonConfigSnippet { .. } => Some(Immediate::Null),
        ServiceCall::StopProxyWithRestore => Some(Immediate::Null),
        ServiceCall::SetProxyTakeoverForApp { .. } => Some(Immediate::Null),
        ServiceCall::SwitchProxyProvider { .. } => Some(Immediate::Null),
        ServiceCall::UpdateProxyConfig { .. } => Some(Immediate::Null),
        ServiceCall::UpdateGlobalProxyConfig { .. } => Some(Immediate::Null),
        ServiceCall::UpdateProxyConfigForApp { .. } => Some(Immediate::Null),
        ServiceCall::SetDefaultCostMultiplier { .. } => Some(Immediate::Null),
        ServiceCall::SetPricingModelSource { .. } => Some(Immediate::Null),
        ServiceCall::ResetCircuitBreaker { .. } => Some(Immediate::Null),
        ServiceCall::UpdateCircuitBreakerConfig { .. } => Some(Immediate::Null),
        ServiceCall::AddToFailoverQueue { .. } => Some(Immediate::Null),
        ServiceCall::RemoveFromFailoverQueue { .. } => Some(Immediate::Null),
        ServiceCall::SetAutoFailoverEnabled { .. } => Some(Immediate::Null),
        _ => None,
    }
}

pub open spec fn spec_auth_op_reply(op: AuthOp) -> Option<Immediate> {
    match op {
        AuthOp::RemoveAccount { .. } => Some(Immediate::Null),
        AuthOp::SetDefaultAccount { .. } => Some(Immediate::Null),
        AuthOp::Logout => Some(Immediate::Null),
        _ => None,
    }
}

impl AppCall {
    /// The answer once the operation succeeded, when it does not answer
    /// with what the service returns.
    pub fn fixed_reply(&self) -> (r: Option<Immediate>)
        ensures
            r == spec_app_call_reply(*self),
    {
        match self {
            AppCall::DeleteProvider { .. } => Some(Immediate::Bool(true)),
            AppCall::RemoveProviderFromLiveConfig { .. } => Some(Immediate::Bool(true)),
            _ => None,
        }
    }
}

impl ServiceCall {
    /// The answer once the operation succeeded, when it does not answer
    /// with what the service returns.
    pub fn fixed_reply(&self) -> (r: Option<Immediate>)
        ensures
            r == spec_service_call_reply(*self),
    {
        match self {
            ServiceCall::SaveSettings { .. } => Some(Immediate::Bool(true)),
            ServiceCall::SetCommonConfigSnippet { .. } => Some(Immediate::Null),
            ServiceCall::StopProxyWithRestore => Some(Immediate::Null),
            ServiceCall::SetProxyTakeoverForApp { .. } => Some(Immediate::Null),
            ServiceCall::SwitchProxyProvider { .. } => Some(Immediate::Null),
            ServiceCall::UpdateProxyConfig { .. } => Some(Immediate::Null),
            ServiceCall::UpdateGlobalProxyConfig { .. } => Some(Immediate::Null),
            ServiceCall::UpdateProxyConfigForApp { .. } => Some(Immediate::Null),
            ServiceCall::SetDefaultCostMultiplier { .. } => Some(Immediate::Null),
            ServiceCall::SetPricingModelSource { .. } => Some(Immediate::Null),
            ServiceCall::ResetCircuitBreaker { .. } => Some(Immediate::Null),
            ServiceCall::UpdateCircuitBreakerConfig { .. } => Some(Immediate::Null),
            ServiceCall::AddToFailoverQueue { .. } => Some(Immediate::Null),
            ServiceCall::RemoveFromFailoverQueue { .. } => Some(Immediate::Null),
            ServiceCall::SetAutoFailoverEnabled { .. } => Some(Immediate::Null),
            _ => None,
        }
    }
}

impl AuthOp {
    /// The answer once the operation succeeded, when it does not answer
    /// with what the service returns.
    pub fn fixed_reply(&self) -> (r: Option<Immediate>)
        ensures
            r == spec_auth_op_reply(*self),
    {
        match self {
            AuthOp::RemoveAccount { .. } => Some(Immediate::Null),
            AuthOp::SetDefaultAccount { .. } => Some(Immediate::Null),
            AuthOp::Logout => Some(Immediate::Null),
            _ => None,
        }
    }
}


/// Whether a command is refused as not implemented does not depend on its
/// arguments, and the refusal names the command.
pub proof fn lemma_not_implemented_ignores_arguments(command: String, a1: JsonValue, a2: JsonValue)
    ensures
        (spec_plan_rpc_command(command, a1) matches Err(RpcError::NotImplemented(_))) == (
        spec_plan_rpc_command(command, a2) matches Err(RpcError::NotImplemented(_))),
        spec_plan_rpc_command(command, a1) matches Err(RpcError::NotImplemented(c)) ==> c == command,
{
}

} // verus!
