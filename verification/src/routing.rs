//! What each command asks of the services, stated over its arguments: the
//! operation a command plans is the one its name says, with the arguments
//! the request gives.
use vstd::prelude::*;

use crate::args::{spec_optional_i64_arg, spec_optional_string_arg, RpcError};
use crate::json::{spec_get, JsonValue};
use crate::plan::{
    spec_plan_rpc_command, AppCall, AuthCall, AuthOp, AuthProvider, Immediate, RpcPlan, ServiceCall,
    UsageReport,
};
use crate::text::trim_chars;

verus! {

/// The command that asks for an operation of the provider, settings, proxy,
/// failover or usage services.
pub open spec fn service_command(call: ServiceCall) -> Seq<char> {
    match call {
        ServiceCall::ListUniversalProviders => "get_universal_providers"@,
        ServiceCall::GetUniversalProvider { .. } => "get_universal_provider"@,
        ServiceCall::UpsertUniversalProvider { .. } => "upsert_universal_provider"@,
        ServiceCall::DeleteUniversalProvider { .. } => "delete_universal_provider"@,
        ServiceCall::SyncUniversalProvider { .. } => "sync_universal_provider"@,
        ServiceCall::GetSettings => "get_settings"@,
        ServiceCall::SaveSettings { .. } => "save_settings"@,
        ServiceCall::AppConfigPath => "get_app_config_path"@,
        ServiceCall::GetCommonConfigSnippet { .. } => "get_common_config_snippet"@,
        ServiceCall::SetCommonConfigSnippet { .. } => "set_common_config_snippet"@,
        ServiceCall::FetchModels { .. } => "fetch_models_for_config"@,
        ServiceCall::StartProxyServer => "start_proxy_server"@,
        ServiceCall::StopProxyWithRestore => "stop_proxy_with_restore"@,
        ServiceCall::ProxyStatus => "get_proxy_status"@,
        ServiceCall::IsProxyRunning => "is_proxy_running"@,
        ServiceCall::IsLiveTakeoverActive => "is_live_takeover_active"@,
        ServiceCall::ProxyTakeoverStatus => "get_proxy_takeover_status"@,
        ServiceCall::SetProxyTakeoverForApp { .. } => "set_proxy_takeover_for_app"@,
        ServiceCall::SwitchProxyProvider { .. } => "switch_proxy_provider"@,
        ServiceCall::ProxyConfig => "get_proxy_config"@,
        ServiceCall::UpdateProxyConfig { .. } => "update_proxy_config"@,
        ServiceCall::GlobalProxyConfig => "get_global_proxy_config"@,
        ServiceCall::UpdateGlobalProxyConfig { .. } => "update_global_proxy_config"@,
        ServiceCall::ProxyConfigForApp { .. } => "get_proxy_config_for_app"@,
        ServiceCall::UpdateProxyConfigForApp { .. } => "update_proxy_config_for_app"@,
        ServiceCall::DefaultCostMultiplier { .. } => "get_default_cost_multiplier"@,
        ServiceCall::SetDefaultCostMultiplier { .. } => "set_default_cost_multiplier"@,
        ServiceCall::PricingModelSource { .. } => "get_pricing_model_source"@,
        ServiceCall::SetPricingModelSource { .. } => "set_pricing_model_source"@,
        ServiceCall::ProviderHealth { .. } => "get_provider_health"@,
        ServiceCall::ResetCircuitBreaker { .. } => "reset_circuit_breaker"@,
        ServiceCall::CircuitBreakerConfig => "get_circuit_breaker_config"@,
        ServiceCall::UpdateCircuitBreakerConfig { .. } => "update_circuit_breaker_config"@,
        ServiceCall::FailoverQueue { .. } => "get_failover_queue"@,
        ServiceCall::AvailableProvidersForFailover { .. } => "get_available_providers_for_failover"@,
        ServiceCall::AddToFailoverQueue { .. } => "add_to_failover_queue"@,
        ServiceCall::RemoveFromFailoverQueue { .. } => "remove_from_failover_queue"@,
        ServiceCall::AutoFailoverEnabled { .. } => "get_auto_failover_enabled"@,
        ServiceCall::SetAutoFailoverEnabled { .. } => "set_auto_failover_enabled"@,
        ServiceCall::Usage { report: UsageReport::Summary, .. } => "get_usage_summary"@,
        ServiceCall::Usage { report: UsageReport::Trends, .. } => "get_usage_trends"@,
        ServiceCall::Usage { report: UsageReport::ProviderStats, .. } => "get_provider_stats"@,
        ServiceCall::Usage { report: UsageReport::ModelStats, .. } => "get_model_stats"@,
        ServiceCall::RequestLogs { .. } => "get_request_logs"@,
        ServiceCall::RequestDetail { .. } => "get_request_detail"@,
        ServiceCall::UsageDataSources => "get_usage_data_sources"@,
    }
}

/// The command that asks for an operation on one application.
pub open spec fn app_command(call: AppCall) -> Seq<char> {
    match call {
        AppCall::ListProviders => "get_providers"@,
        AppCall::CurrentProvider => "get_current_provider"@,
        AppCall::AddProvider { .. } => "add_provider"@,
        AppCall::UpdateProvider { .. } => "update_provider"@,
        AppCall::DeleteProvider { .. } => "delete_provider"@,
        AppCall::RemoveProviderFromLiveConfig { .. } => "remove_provider_from_live_config"@,
        AppCall::SwitchProvider { .. } => "switch_provider"@,
        AppCall::ImportDefaultConfig => "import_default_config"@,
        AppCall::UpdateProvidersSortOrder { .. } => "update_providers_sort_order"@,
        AppCall::ConfigDir => "get_config_dir"@,
        AppCall::ExtractCommonConfigSnippet { .. } => "extract_common_config_snippet"@,
        AppCall::ReadLiveProviderSettings => "read_live_provider_settings"@,
    }
}

/// The command that asks for an operation on the accounts of a service.
pub open spec fn auth_command(op: AuthOp) -> Seq<char> {
    match op {
        AuthOp::StartLogin { .. } => "auth_start_login"@,
        AuthOp::PollForAccount { .. } => "auth_poll_for_account"@,
        AuthOp::GetStatus => "auth_get_status"@,
        AuthOp::ListAccounts => "auth_list_accounts"@,
        AuthOp::RemoveAccount { .. } => "auth_remove_account"@,
        AuthOp::SetDefaultAccount { .. } => "auth_set_default_account"@,
        AuthOp::Logout => "auth_logout"@,
    }
}

/// Whatever the arguments, the operation a command plans is the one its
/// name asks for: no command plans another command's operation (so, for
/// instance, only `add_to_failover_queue` adds to a failover queue, only
/// `auth_set_default_account` changes the default account, and the four
/// usage commands ask for four different reports).
pub proof fn lemma_each_operation_is_planned_by_its_command(command: String, args: JsonValue)
    ensures
        match spec_plan_rpc_command(command, args) {
            Ok(RpcPlan::App { call: Ok(call), .. }) => command@ == app_command(call),
            Ok(RpcPlan::Service(call)) => command@ == service_command(call),
            Ok(RpcPlan::Auth(call)) => command@ == auth_command(call.op),
            _ => true,
        },
{
}

/// The length of every command name and account-service name, and, for
/// names of the same length, a position where they differ: enough to tell
/// any two of them apart.
proof fn lemma_names_differ()
    ensures
        "get_providers"@.len() == 13,
        "get_providers"@[0] == 'g',
        "get_current_provider"@.len() == 20,
        "get_current_provider"@[4] == 'c',
        "add_provider"@.len() == 12,
        "add_provider"@[0] == 'a',
        "update_provider"@.len() == 15,
        "update_provider"@[0] == 'u',
        "delete_provider"@.len() == 15,
        "delete_provider"@[0] == 'd',
        "remove_provider_from_live_config"@.len() == 32,
        "switch_provider"@.len() == 15,
        "switch_provider"@[0] == 's',
        "import_default_config"@.len() == 21,
        "import_default_config"@[0] == 'i',
        "update_providers_sort_order"@.len() == 27,
        "update_providers_sort_order"@[0] == 'u',
        "update_providers_sort_order"@[10] == 'v',
        "get_config_dir"@.len() == 14,
        "get_config_dir"@[0] == 'g',
        "get_config_dir"@[1] == 'e',
        "get_config_dir"@[4] == 'c',
        "extract_common_config_snippet"@.len() == 29,
        "extract_common_config_snippet"@[0] == 'e',
        "read_live_provider_settings"@.len() == 27,
        "read_live_provider_settings"@[0] == 'r',
        "get_universal_providers"@.len() == 23,
        "get_universal_providers"@[0] == 'g',
        "get_universal_providers"@[4] == 'u',
        "get_universal_provider"@.len() == 22,
        "get_universal_provider"@[0] == 'g',
        "get_universal_provider"@[5] == 'n',
        "upsert_universal_provider"@.len() == 25,
        "upsert_universal_provider"@[0] == 'u',
        "delete_universal_provider"@.len() == 25,
        "delete_universal_provider"@[0] == 'd',
        "sync_universal_provider"@.len() == 23,
        "sync_universal_provider"@[0] == 's',
        "sync_universal_provider"@[1] == 'y',
        "get_settings"@.len() == 12,
        "get_settings"@[0] == 'g',
        "save_settings"@.len() == 13,
        "save_settings"@[0] == 's',
        "get_app_config_path"@.len() == 19,
        "get_app_config_path"@[0] == 'g',
        "get_app_config_path"@[4] == 'a',
        "get_common_config_snippet"@.len() == 25,
        "get_common_config_snippet"@[0] == 'g',
        "get_common_config_snippet"@[4] == 'c',
        "get_common_config_snippet"@[5] == 'o',
        "set_common_config_snippet"@.len() == 25,
        "set_common_config_snippet"@[0] == 's',
        "set_common_config_snippet"@[4] == 'c',
        "fetch_models_for_config"@.len() == 23,
        "fetch_models_for_config"@[0] == 'f',
        "start_proxy_server"@.len() == 18,
        "start_proxy_server"@[0] == 's',
        "stop_proxy_with_restore"@.len() == 23,
        "stop_proxy_with_restore"@[0] == 's',
        "stop_proxy_with_restore"@[1] == 't',
        "get_proxy_status"@.len() == 16,
        "get_proxy_status"@[0] == 'g',
        "get_proxy_status"@[4] == 'p',
        "get_proxy_status"@[10] == 's',
        "is_proxy_running"@.len() == 16,
        "is_proxy_running"@[0] == 'i',
        "is_proxy_running"@[4] == 'r',
        "is_live_takeover_active"@.len() == 23,
        "is_live_takeover_active"@[0] == 'i',
        "get_proxy_takeover_status"@.len() == 25,
        "get_proxy_takeover_status"@[0] == 'g',
        "get_proxy_takeover_status"@[4] == 'p',
        "set_proxy_takeover_for_app"@.len() == 26,
        "set_proxy_takeover_for_app"@[0] == 's',
        "switch_proxy_provider"@.len() == 21,
        "switch_proxy_provider"@[0] == 's',
        "get_proxy_config"@.len() == 16,
        "get_proxy_config"@[0] == 'g',
        "get_proxy_config"@[4] == 'p',
        "get_proxy_config"@[10] == 'c',
        "update_proxy_config"@.len() == 19,
        "update_proxy_config"@[0] == 'u',
        "get_global_proxy_config"@.len() == 23,
        "get_global_proxy_config"@[0] == 'g',
        "get_global_proxy_config"@[4] == 'g',
        "update_global_proxy_config"@.len() == 26,
        "update_global_proxy_config"@[0] == 'u',
        "get_proxy_config_for_app"@.len() == 24,
        "get_proxy_config_for_app"@[0] == 'g',
        "get_proxy_config_for_app"@[6] == 'o',
        "update_proxy_config_for_app"@.len() == 27,
        "update_proxy_config_for_app"@[0] == 'u',
        "update_proxy_config_for_app"@[10] == 'x',
        "get_default_cost_multiplier"@.len() == 27,
        "get_default_cost_multiplier"@[0] == 'g',
        "get_default_cost_multiplier"@[4] == 'd',
        "set_default_cost_multiplier"@.len() == 27,
        "set_default_cost_multiplier"@[0] == 's',
        "set_default_cost_multiplier"@[4] == 'd',
        "get_pricing_model_source"@.len() == 24,
        "get_pricing_model_source"@[0] == 'g',
        "get_pricing_model_source"@[6] == 'i',
        "set_pricing_model_source"@.len() == 24,
        "set_pricing_model_source"@[0] == 's',
        "get_provider_health"@.len() == 19,
        "get_provider_health"@[0] == 'g',
        "get_provider_health"@[4] == 'p',
        "reset_circuit_breaker"@.len() == 21,
        "reset_circuit_breaker"@[0] == 'r',
        "get_circuit_breaker_config"@.len() == 26,
        "get_circuit_breaker_config"@[0] == 'g',
        "update_circuit_breaker_config"@.len() == 29,
        "update_circuit_breaker_config"@[0] == 'u',
        "get_failover_queue"@.len() == 18,
        "get_failover_queue"@[0] == 'g',
        "get_failover_queue"@[4] == 'f',
        "get_available_providers_for_failover"@.len() == 36,
        "add_to_failover_queue"@.len() == 21,
        "add_to_failover_queue"@[0] == 'a',
        "add_to_failover_queue"@[1] == 'd',
        "remove_from_failover_queue"@.len() == 26,
        "remove_from_failover_queue"@[0] == 'r',
        "get_auto_failover_enabled"@.len() == 25,
        "get_auto_failover_enabled"@[0] == 'g',
        "get_auto_failover_enabled"@[4] == 'a',
        "set_auto_failover_enabled"@.len() == 25,
        "set_auto_failover_enabled"@[0] == 's',
        "set_auto_failover_enabled"@[4] == 'a',
        "get_usage_summary"@.len() == 17,
        "get_usage_summary"@[0] == 'g',
        "get_usage_summary"@[4] == 'u',
        "get_usage_trends"@.len() == 16,
        "get_usage_trends"@[0] == 'g',
        "get_usage_trends"@[4] == 'u',
        "get_provider_stats"@.len() == 18,
        "get_provider_stats"@[0] == 'g',
        "get_provider_stats"@[4] == 'p',
        "get_model_stats"@.len() == 15,
        "get_model_stats"@[0] == 'g',
        "get_request_logs"@.len() == 16,
        "get_request_logs"@[0] == 'g',
        "get_request_logs"@[4] == 'r',
        "get_request_detail"@.len() == 18,
        "get_request_detail"@[0] == 'g',
        "get_request_detail"@[4] == 'r',
        "get_usage_data_sources"@.len() == 22,
        "get_usage_data_sources"@[0] == 'g',
        "get_usage_data_sources"@[5] == 's',
        "auth_start_login"@.len() == 16,
        "auth_start_login"@[0] == 'a',
        "auth_poll_for_account"@.len() == 21,
        "auth_poll_for_account"@[0] == 'a',
        "auth_poll_for_account"@[1] == 'u',
        "auth_get_status"@.len() == 15,
        "auth_get_status"@[0] == 'a',
        "auth_list_accounts"@.len() == 18,
        "auth_list_accounts"@[0] == 'a',
        "auth_remove_account"@.len() == 19,
        "auth_remove_account"@[0] == 'a',
        "auth_set_default_account"@.len() == 24,
        "auth_set_default_account"@[0] == 'a',
        "auth_logout"@.len() == 11,
        "auth_logout"@[0] == 'a',
        "update_tray_menu"@.len() == 16,
        "update_tray_menu"@[0] == 'u',
        "get_app_config_dir_override"@.len() == 27,
        "get_app_config_dir_override"@[0] == 'g',
        "get_app_config_dir_override"@[4] == 'a',
        "set_app_config_dir_override"@.len() == 27,
        "set_app_config_dir_override"@[0] == 's',
        "set_app_config_dir_override"@[4] == 'a',
        "open_config_folder"@.len() == 18,
        "open_config_folder"@[0] == 'o',
        "pick_directory"@.len() == 14,
        "pick_directory"@[0] == 'p',
        "open_app_config_folder"@.len() == 22,
        "open_app_config_folder"@[0] == 'o',
        "is_portable_mode"@.len() == 16,
        "is_portable_mode"@[0] == 'i',
        "is_portable_mode"@[4] == 'o',
        "get_init_error"@.len() == 14,
        "get_init_error"@[0] == 'g',
        "get_init_error"@[1] == 'e',
        "get_init_error"@[4] == 'i',
        "get_migration_result"@.len() == 20,
        "get_migration_result"@[4] == 'm',
        "get_skills_migration_result"@.len() == 27,
        "get_skills_migration_result"@[0] == 'g',
        "get_skills_migration_result"@[4] == 's',
        "open_external"@.len() == 13,
        "open_external"@[0] == 'o',
        "copy_text_to_clipboard"@.len() == 22,
        "copy_text_to_clipboard"@[0] == 'c',
        "check_for_updates"@.len() == 17,
        "check_for_updates"@[0] == 'c',
        "get_tool_versions"@.len() == 17,
        "get_tool_versions"@[0] == 'g',
        "get_tool_versions"@[4] == 't',
        "check_env_conflicts"@.len() == 19,
        "check_env_conflicts"@[0] == 'c',
        "get_circuit_breaker_stats"@.len() == 25,
        "get_circuit_breaker_stats"@[0] == 'g',
        "get_circuit_breaker_stats"@[4] == 'c',
        "get_circuit_breaker_stats"@[5] == 'i',
        "set_window_theme"@.len() == 16,
        "set_window_theme"@[0] == 's',
        "github_copilot"@.len() == 14,
        "github_copilot"@[0] == 'g',
        "github_copilot"@[1] == 'i',
        "codex_oauth"@.len() == 11,
        "codex_oauth"@[0] == 'c',
{
    reveal_strlit("get_providers");
    reveal_strlit("get_current_provider");
    reveal_strlit("add_provider");
    reveal_strlit("update_provider");
    reveal_strlit("delete_provider");
    reveal_strlit("remove_provider_from_live_config");
    reveal_strlit("switch_provider");
    reveal_strlit("import_default_config");
    reveal_strlit("update_providers_sort_order");
    reveal_strlit("get_config_dir");
    reveal_strlit("extract_common_config_snippet");
    reveal_strlit("read_live_provider_settings");
    reveal_strlit("get_universal_providers");
    reveal_strlit("get_universal_provider");
    reveal_strlit("upsert_universal_provider");
    reveal_strlit("delete_universal_provider");
    reveal_strlit("sync_universal_provider");
    reveal_strlit("get_settings");
    reveal_strlit("save_settings");
    reveal_strlit("get_app_config_path");
    reveal_strlit("get_common_config_snippet");
    reveal_strlit("set_common_config_snippet");
    reveal_strlit("fetch_models_for_config");
    reveal_strlit("start_proxy_server");
    reveal_strlit("stop_proxy_with_restore");
    reveal_strlit("get_proxy_status");
    reveal_strlit("is_proxy_running");
    reveal_strlit("is_live_takeover_active");
    reveal_strlit("get_proxy_takeover_status");
    reveal_strlit("set_proxy_takeover_for_app");
    reveal_strlit("switch_proxy_provider");
    reveal_strlit("get_proxy_config");
    reveal_strlit("update_proxy_config");
    reveal_strlit("get_global_proxy_config");
    reveal_strlit("update_global_proxy_config");
    reveal_strlit("get_proxy_config_for_app");
    reveal_strlit("update_proxy_config_for_app");
    reveal_strlit("get_default_cost_multiplier");
    reveal_strlit("set_default_cost_multiplier");
    reveal_strlit("get_pricing_model_source");
    reveal_strlit("set_pricing_model_source");
    reveal_strlit("get_provider_health");
    reveal_strlit("reset_circuit_breaker");
    reveal_strlit("get_circuit_breaker_config");
    reveal_strlit("update_circuit_breaker_config");
    reveal_strlit("get_failover_queue");
    reveal_strlit("get_available_providers_for_failover");
    reveal_strlit("add_to_failover_queue");
    reveal_strlit("remove_from_failover_queue");
    reveal_strlit("get_auto_failover_enabled");
    reveal_strlit("set_auto_failover_enabled");
    reveal_strlit("get_usage_summary");
    reveal_strlit("get_usage_trends");
    reveal_strlit("get_provider_stats");
    reveal_strlit("get_model_stats");
    reveal_strlit("get_request_logs");
    reveal_strlit("get_request_detail");
    reveal_strlit("get_usage_data_sources");
    reveal_strlit("auth_start_login");
    reveal_strlit("auth_poll_for_account");
    reveal_strlit("auth_get_status");
    reveal_strlit("auth_list_accounts");
    reveal_strlit("auth_remove_account");
    reveal_strlit("auth_set_default_account");
    reveal_strlit("auth_logout");
    reveal_strlit("update_tray_menu");
    reveal_strlit("get_app_config_dir_override");
    reveal_strlit("set_app_config_dir_override");
    reveal_strlit("open_config_folder");
    reveal_strlit("pick_directory");
    reveal_strlit("open_app_config_folder");
    reveal_strlit("is_portable_mode");
    reveal_strlit("get_init_error");
    reveal_strlit("get_migration_result");
    reveal_strlit("get_skills_migration_result");
    reveal_strlit("open_external");
    reveal_strlit("copy_text_to_clipboard");
    reveal_strlit("check_for_updates");
    reveal_strlit("get_tool_versions");
    reveal_strlit("check_env_conflicts");
    reveal_strlit("get_circuit_breaker_stats");
    reveal_strlit("set_window_theme");
    reveal_strlit("github_copilot");
    reveal_strlit("codex_oauth");
}

/// The failover-queue commands change the queue of the application
/// `appType` names, for the provider `providerId` names:
/// `add_to_failover_queue` adds it and `remove_from_failover_queue`
/// removes it.
pub proof fn lemma_failover_queue_commands(command: String, args: JsonValue, app_type: String, provider_id: String)
    requires
        spec_get(args, "appType"@) == Some(JsonValue::Str(app_type)),
        spec_get(args, "providerId"@) == Some(JsonValue::Str(provider_id)),
    ensures
        command@ == "add_to_failover_queue"@ ==> spec_plan_rpc_command(command, args) == Ok::<RpcPlan, RpcError>(
            RpcPlan::Service(ServiceCall::AddToFailoverQueue { app_type, provider_id }),
        ),
        command@ == "remove_from_failover_queue"@ ==> spec_plan_rpc_command(command, args) == Ok::<
            RpcPlan,
            RpcError,
        >(RpcPlan::Service(ServiceCall::RemoveFromFailoverQueue { app_type, provider_id })),
        command@ == "switch_proxy_provider"@ ==> spec_plan_rpc_command(command, args) == Ok::<RpcPlan, RpcError>(
            RpcPlan::Service(ServiceCall::SwitchProxyProvider { app_type, provider_id }),
        ),
{
    lemma_names_differ();
}

/// The usage report each usage command asks for, over the period
/// `startDate`..`endDate` and the application `appType` of the request.
pub open spec fn usage_of(report: UsageReport, args: JsonValue) -> Result<RpcPlan, RpcError> {
    Ok(
        RpcPlan::Service(
            ServiceCall::Usage {
                report,
                start_date: spec_optional_i64_arg(args, "startDate"),
                end_date: spec_optional_i64_arg(args, "endDate"),
                app_type: spec_optional_string_arg(args, "appType"),
            },
        ),
    )
}

/// `get_usage_summary`, `get_usage_trends`, `get_provider_stats` and
/// `get_model_stats` ask for the summary, the daily trends, the per-provider
/// and the per-model statistics, whatever the other arguments.
pub proof fn lemma_usage_commands(command: String, args: JsonValue)
    ensures
        command@ == "get_usage_summary"@ ==> spec_plan_rpc_command(command, args) == usage_of(UsageReport::Summary, args),
        command@ == "get_usage_trends"@ ==> spec_plan_rpc_command(command, args) == usage_of(UsageReport::Trends, args),
        command@ == "get_provider_stats"@ ==> spec_plan_rpc_command(command, args) == usage_of(
            UsageReport::ProviderStats,
            args,
        ),
        command@ == "get_model_stats"@ ==> spec_plan_rpc_command(command, args) == usage_of(UsageReport::ModelStats, args),
{
    lemma_names_differ();
}

/// The account service an `authProvider` name addresses.
pub open spec fn names_service(name: String, provider: AuthProvider) -> bool {
    ||| name@ == "github_copilot"@ && provider == AuthProvider::GithubCopilot
    ||| name@ == "codex_oauth"@ && provider == AuthProvider::CodexOAuth
}

/// On the account service `authProvider` names, `auth_remove_account`
/// removes the account `accountId` names and `auth_set_default_account`
/// makes it the default; `auth_get_status`, `auth_list_accounts` and
/// `auth_logout` act on that service.
pub proof fn lemma_account_commands(
    command: String,
    args: JsonValue,
    name: String,
    provider: AuthProvider,
    account_id: String,
)
    requires
        spec_get(args, "authProvider"@) == Some(JsonValue::Str(name)),
        names_service(name, provider),
        spec_get(args, "accountId"@) == Some(JsonValue::Str(account_id)),
    ensures
        command@ == "auth_remove_account"@ ==> spec_plan_rpc_command(command, args) == Ok::<RpcPlan, RpcError>(
            RpcPlan::Auth(AuthCall { provider, op: AuthOp::RemoveAccount { account_id } }),
        ),
        command@ == "auth_set_default_account"@ ==> spec_plan_rpc_command(command, args) == Ok::<
            RpcPlan,
            RpcError,
        >(RpcPlan::Auth(AuthCall { provider, op: AuthOp::SetDefaultAccount { account_id } })),
        command@ == "auth_get_status"@ ==> spec_plan_rpc_command(command, args) == Ok::<RpcPlan, RpcError>(
            RpcPlan::Auth(AuthCall { provider, op: AuthOp::GetStatus }),
        ),
        command@ == "auth_list_accounts"@ ==> spec_plan_rpc_command(command, args) == Ok::<RpcPlan, RpcError>(
            RpcPlan::Auth(AuthCall { provider, op: AuthOp::ListAccounts }),
        ),
        command@ == "auth_logout"@ ==> spec_plan_rpc_command(command, args) == Ok::<RpcPlan, RpcError>(
            RpcPlan::Auth(AuthCall { provider, op: AuthOp::Logout }),
        ),
{
    lemma_names_differ();
}

/// The per-application proxy, pricing, health and failover commands act on
/// the application `appType` names and, where they take them, the provider
/// `providerId` names, the value `value` gives and the flag `enabled` gives.
pub proof fn lemma_application_settings_commands(
    command: String,
    args: JsonValue,
    app_type: String,
    provider_id: String,
    value: String,
    enabled: bool,
)
    requires
        spec_get(args, "appType"@) == Some(JsonValue::Str(app_type)),
        spec_get(args, "providerId"@) == Some(JsonValue::Str(provider_id)),
        spec_get(args, "value"@) == Some(JsonValue::Str(value)),
        spec_get(args, "enabled"@) == Some(JsonValue::Bool(enabled)),
    ensures
        command@ == "get_provider_health"@ ==> spec_plan_rpc_command(command, args) == Ok::<RpcPlan, RpcError>(
            RpcPlan::Service(ServiceCall::ProviderHealth { provider_id, app_type }),
        ),
        command@ == "reset_circuit_breaker"@ ==> spec_plan_rpc_command(command, args) == Ok::<RpcPlan, RpcError>(
            RpcPlan::Service(ServiceCall::ResetCircuitBreaker { provider_id, app_type }),
        ),
        command@ == "get_failover_queue"@ ==> spec_plan_rpc_command(command, args) == Ok::<RpcPlan, RpcError>(
            RpcPlan::Service(ServiceCall::FailoverQueue { app_type }),
        ),
        command@ == "get_available_providers_for_failover"@ ==> spec_plan_rpc_command(command, args) == Ok::<RpcPlan, RpcError>(
            RpcPlan::Service(ServiceCall::AvailableProvidersForFailover { app_type }),
        ),
        command@ == "get_auto_failover_enabled"@ ==> spec_plan_rpc_command(command, args) == Ok::<RpcPlan, RpcError>(
            RpcPlan::Service(ServiceCall::AutoFailoverEnabled { app_type }),
        ),
        command@ == "set_auto_failover_enabled"@ ==> spec_plan_rpc_command(command, args) == Ok::<RpcPlan, RpcError>(
            RpcPlan::Service(ServiceCall::SetAutoFailoverEnabled { app_type, enabled }),
        ),
        command@ == "set_proxy_takeover_for_app"@ ==> spec_plan_rpc_command(command, args) == Ok::<RpcPlan, RpcError>(
            RpcPlan::Service(ServiceCall::SetProxyTakeoverForApp { app_type, enabled }),
        ),
        command@ == "get_proxy_config_for_app"@ ==> spec_plan_rpc_command(command, args) == Ok::<RpcPlan, RpcError>(
            RpcPlan::Service(ServiceCall::ProxyConfigForApp { app_type }),
        ),
        command@ == "get_default_cost_multiplier"@ ==> spec_plan_rpc_command(command, args) == Ok::<RpcPlan, RpcError>(
            RpcPlan::Service(ServiceCall::DefaultCostMultiplier { app_type }),
        ),
        command@ == "set_default_cost_multiplier"@ ==> spec_plan_rpc_command(command, args) == Ok::<RpcPlan, RpcError>(
            RpcPlan::Service(ServiceCall::SetDefaultCostMultiplier { app_type, value }),
        ),
        command@ == "get_pricing_model_source"@ ==> spec_plan_rpc_command(command, args) == Ok::<RpcPlan, RpcError>(
            RpcPlan::Service(ServiceCall::PricingModelSource { app_type }),
        ),
        command@ == "set_pricing_model_source"@ ==> spec_plan_rpc_command(command, args) == Ok::<RpcPlan, RpcError>(
            RpcPlan::Service(ServiceCall::SetPricingModelSource { app_type, value }),
        ),
        command@ == "get_common_config_snippet"@ ==> spec_plan_rpc_command(command, args) == Ok::<RpcPlan, RpcError>(
            RpcPlan::Service(ServiceCall::GetCommonConfigSnippet { app_type }),
        ),
{
    lemma_names_differ();
}

/// The commands that take no argument ask for their operation whatever the
/// request carries.
pub proof fn lemma_commands_without_arguments(command: String, args: JsonValue)
    ensures
        command@ == "start_proxy_server"@ ==> spec_plan_rpc_command(command, args) == Ok::<RpcPlan, RpcError>(
            RpcPlan::Service(ServiceCall::StartProxyServer),
        ),
        command@ == "stop_proxy_with_restore"@ ==> spec_plan_rpc_command(command, args) == Ok::<RpcPlan, RpcError>(
            RpcPlan::Service(ServiceCall::StopProxyWithRestore),
        ),
        command@ == "get_proxy_status"@ ==> spec_plan_rpc_command(command, args) == Ok::<RpcPlan, RpcError>(
            RpcPlan::Service(ServiceCall::ProxyStatus),
        ),
        command@ == "is_proxy_running"@ ==> spec_plan_rpc_command(command, args) == Ok::<RpcPlan, RpcError>(
            RpcPlan::Service(ServiceCall::IsProxyRunning),
        ),
        command@ == "is_live_takeover_active"@ ==> spec_plan_rpc_command(command, args) == Ok::<RpcPlan, RpcError>(
            RpcPlan::Service(ServiceCall::IsLiveTakeoverActive),
        ),
        command@ == "get_proxy_takeover_status"@ ==> spec_plan_rpc_command(command, args) == Ok::<RpcPlan, RpcError>(
            RpcPlan::Service(ServiceCall::ProxyTakeoverStatus),
        ),
        command@ == "get_proxy_config"@ ==> spec_plan_rpc_command(command, args) == Ok::<RpcPlan, RpcError>(
            RpcPlan::Service(ServiceCall::ProxyConfig),
        ),
        command@ == "get_global_proxy_config"@ ==> spec_plan_rpc_command(command, args) == Ok::<RpcPlan, RpcError>(
            RpcPlan::Service(ServiceCall::GlobalProxyConfig),
        ),
        command@ == "get_circuit_breaker_config"@ ==> spec_plan_rpc_command(command, args) == Ok::<RpcPlan, RpcError>(
            RpcPlan::Service(ServiceCall::CircuitBreakerConfig),
        ),
        command@ == "get_universal_providers"@ ==> spec_plan_rpc_command(command, args) == Ok::<RpcPlan, RpcError>(
            RpcPlan::Service(ServiceCall::ListUniversalProviders),
        ),
        command@ == "get_settings"@ ==> spec_plan_rpc_command(command, args) == Ok::<RpcPlan, RpcError>(
            RpcPlan::Service(ServiceCall::GetSettings),
        ),
        command@ == "get_app_config_path"@ ==> spec_plan_rpc_command(command, args) == Ok::<RpcPlan, RpcError>(
            RpcPlan::Service(ServiceCall::AppConfigPath),
        ),
        command@ == "get_usage_data_sources"@ ==> spec_plan_rpc_command(command, args) == Ok::<RpcPlan, RpcError>(
            RpcPlan::Service(ServiceCall::UsageDataSources),
        ),
{
    lemma_names_differ();
}

/// The provider commands act on the application `app` names and, where
/// they take one, the provider `id` names.
pub proof fn lemma_provider_commands(command: String, args: JsonValue, app: String, id: String)
    requires
        spec_get(args, "app"@) == Some(JsonValue::Str(app)),
        spec_get(args, "id"@) == Some(JsonValue::Str(id)),
    ensures
        command@ == "get_providers"@ ==> spec_plan_rpc_command(command, args) == Ok::<RpcPlan, RpcError>(
            RpcPlan::App { app, call: Ok(AppCall::ListProviders) },
        ),
        command@ == "get_current_provider"@ ==> spec_plan_rpc_command(command, args) == Ok::<RpcPlan, RpcError>(
            RpcPlan::App { app, call: Ok(AppCall::CurrentProvider) },
        ),
        command@ == "delete_provider"@ ==> spec_plan_rpc_command(command, args) == Ok::<RpcPlan, RpcError>(
            RpcPlan::App { app, call: Ok(AppCall::DeleteProvider { id }) },
        ),
        command@ == "remove_provider_from_live_config"@ ==> spec_plan_rpc_command(command, args) == Ok::<RpcPlan, RpcError>(
            RpcPlan::App { app, call: Ok(AppCall::RemoveProviderFromLiveConfig { id }) },
        ),
        command@ == "switch_provider"@ ==> spec_plan_rpc_command(command, args) == Ok::<RpcPlan, RpcError>(
            RpcPlan::App { app, call: Ok(AppCall::SwitchProvider { id }) },
        ),
        command@ == "import_default_config"@ ==> spec_plan_rpc_command(command, args) == Ok::<RpcPlan, RpcError>(
            RpcPlan::App { app, call: Ok(AppCall::ImportDefaultConfig) },
        ),
        command@ == "get_config_dir"@ ==> spec_plan_rpc_command(command, args) == Ok::<RpcPlan, RpcError>(
            RpcPlan::App { app, call: Ok(AppCall::ConfigDir) },
        ),
        command@ == "read_live_provider_settings"@ ==> spec_plan_rpc_command(command, args) == Ok::<RpcPlan, RpcError>(
            RpcPlan::App { app, call: Ok(AppCall::ReadLiveProviderSettings) },
        ),
{
    lemma_names_differ();
}

/// The desktop-only commands are answered at once, whatever the request
/// carries: acknowledged with `true`, or with nothing, no migration and no
/// portable mode.
pub proof fn lemma_desktop_commands_are_answered_at_once(command: String, args: JsonValue)
    ensures
        command@ == "update_tray_menu"@ ==> spec_plan_rpc_command(command, args) == Ok::<RpcPlan, RpcError>(
            RpcPlan::Reply(Immediate::Bool(true)),
        ),
        command@ == "get_app_config_dir_override"@ ==> spec_plan_rpc_command(command, args) == Ok::<RpcPlan, RpcError>(
            RpcPlan::Reply(Immediate::Null),
        ),
        command@ == "set_app_config_dir_override"@ ==> spec_plan_rpc_command(command, args) == Ok::<RpcPlan, RpcError>(
            RpcPlan::Reply(Immediate::Bool(true)),
        ),
        command@ == "open_config_folder"@ ==> spec_plan_rpc_command(command, args) == Ok::<RpcPlan, RpcError>(
            RpcPlan::Reply(Immediate::Bool(true)),
        ),
        command@ == "open_app_config_folder"@ ==> spec_plan_rpc_command(command, args) == Ok::<RpcPlan, RpcError>(
            RpcPlan::Reply(Immediate::Bool(true)),
        ),
        command@ == "is_portable_mode"@ ==> spec_plan_rpc_command(command, args) == Ok::<RpcPlan, RpcError>(
            RpcPlan::Reply(Immediate::Bool(false)),
        ),
        command@ == "get_init_error"@ ==> spec_plan_rpc_command(command, args) == Ok::<RpcPlan, RpcError>(
            RpcPlan::Reply(Immediate::Null),
        ),
        command@ == "get_migration_result"@ ==> spec_plan_rpc_command(command, args) == Ok::<RpcPlan, RpcError>(
            RpcPlan::Reply(Immediate::Bool(false)),
        ),
        command@ == "get_skills_migration_result"@ ==> spec_plan_rpc_command(command, args) == Ok::<RpcPlan, RpcError>(
            RpcPlan::Reply(Immediate::Null),
        ),
        command@ == "open_external"@ ==> spec_plan_rpc_command(command, args) == Ok::<RpcPlan, RpcError>(
            RpcPlan::Reply(Immediate::Bool(true)),
        ),
        command@ == "copy_text_to_clipboard"@ ==> spec_plan_rpc_command(command, args) == Ok::<RpcPlan, RpcError>(
            RpcPlan::Reply(Immediate::Bool(true)),
        ),
        command@ == "check_for_updates"@ ==> spec_plan_rpc_command(command, args) == Ok::<RpcPlan, RpcError>(
            RpcPlan::Reply(Immediate::Bool(true)),
        ),
        command@ == "get_tool_versions"@ ==> spec_plan_rpc_command(command, args) == Ok::<RpcPlan, RpcError>(
            RpcPlan::Reply(Immediate::EmptyList),
        ),
        command@ == "check_env_conflicts"@ ==> spec_plan_rpc_command(command, args) == Ok::<RpcPlan, RpcError>(
            RpcPlan::Reply(Immediate::EmptyList),
        ),
        command@ == "get_circuit_breaker_stats"@ ==> spec_plan_rpc_command(command, args) == Ok::<RpcPlan, RpcError>(
            RpcPlan::Reply(Immediate::Null),
        ),
        command@ == "set_window_theme"@ ==> spec_plan_rpc_command(command, args) == Ok::<RpcPlan, RpcError>(
            RpcPlan::Reply(Immediate::Bool(true)),
        ),
{
    lemma_names_differ();
}

/// `set_common_config_snippet` stores the snippet of the application
/// `appType` names; a blank snippet clears it instead.
pub proof fn lemma_blank_snippet_clears(command: String, args: JsonValue, app_type: String, snippet: String)
    requires
        command@ == "set_common_config_snippet"@,
        spec_get(args, "appType"@) == Some(JsonValue::Str(app_type)),
        spec_get(args, "snippet"@) == Some(JsonValue::Str(snippet)),
    ensures
        trim_chars(snippet@).len() == 0 ==> spec_plan_rpc_command(command, args) == Ok::<RpcPlan, RpcError>(
            RpcPlan::Service(ServiceCall::SetCommonConfigSnippet { app_type, snippet: None, cleared: true }),
        ),
        trim_chars(snippet@).len() > 0 ==> spec_plan_rpc_command(command, args) == Ok::<RpcPlan, RpcError>(
            RpcPlan::Service(
                ServiceCall::SetCommonConfigSnippet { app_type, snippet: Some(snippet), cleared: false },
            ),
        ),
{
    lemma_names_differ();
}

/// `get_request_logs` asks for the logs that `filters` selects (all of
/// them when it names none), from the first page, twenty to a page, unless
/// the request gives a page or a page size.
pub proof fn lemma_request_logs_default_paging(command: String, args: JsonValue)
    requires
        command@ == "get_request_logs"@,
        spec_get(args, "page"@) is None,
        spec_get(args, "pageSize"@) is None,
    ensures
        spec_plan_rpc_command(command, args) == Ok::<RpcPlan, RpcError>(
            RpcPlan::Service(
                ServiceCall::RequestLogs { filters: spec_get(args, "filters"@), page: Ok(0), page_size: Ok(20) },
            ),
        ),
{
    lemma_names_differ();
}

} // verus!
