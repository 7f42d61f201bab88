use cc_switch_web::auth::{
    account_list, managed_status, map_account, map_accounts, map_device_code_response,
    poll_step, polled_account, AuthStatus, GitHubAccount, GitHubDeviceCodeResponse,
    ManagedAuthAccount, PollOutcome, PollStep,
};
use cc_switch_web::plan::AuthProvider;

fn account(id: &str) -> GitHubAccount {
    GitHubAccount {
        id: id.to_string(),
        login: format!("{id}-login"),
        avatar_url: Some(format!("https://a/{id}")),
        authenticated_at: 1_700_000_000,
        github_domain: "github.com".to_string(),
    }
}

fn managed(provider: &str, id: &str, is_default: bool) -> ManagedAuthAccount {
    ManagedAuthAccount {
        id: id.to_string(),
        provider: provider.to_string(),
        login: format!("{id}-login"),
        avatar_url: Some(format!("https://a/{id}")),
        authenticated_at: 1_700_000_000,
        is_default,
        github_domain: "github.com".to_string(),
    }
}

#[test]
fn map_account_marks_the_default() {
    assert_eq!(
        map_account("github_copilot", account("u1"), Some("u1")),
        managed("github_copilot", "u1", true)
    );
    assert_eq!(
        map_account("github_copilot", account("u1"), Some("u2")),
        managed("github_copilot", "u1", false)
    );
    assert_eq!(map_account("codex_oauth", account("u1"), None), managed("codex_oauth", "u1", false));
}

#[test]
fn map_device_code_response_names_the_service() {
    let r = map_device_code_response(
        "github_copilot",
        GitHubDeviceCodeResponse {
            device_code: "dc".to_string(),
            user_code: "ABCD-1234".to_string(),
            verification_uri: "https://github.com/login/device".to_string(),
            expires_in: 900,
            interval: 5,
        },
    );
    assert_eq!(r.provider, "github_copilot");
    assert_eq!(r.device_code, "dc");
    assert_eq!(r.user_code, "ABCD-1234");
    assert_eq!(r.verification_uri, "https://github.com/login/device");
    assert_eq!(r.expires_in, 900);
    assert_eq!(r.interval, 5);
}

#[test]
fn accounts_keep_their_order_and_one_default() {
    let out = map_accounts("codex_oauth", vec![account("a"), account("b"), account("c")], Some("b"));
    assert_eq!(
        out,
        vec![
            managed("codex_oauth", "a", false),
            managed("codex_oauth", "b", true),
            managed("codex_oauth", "c", false)
        ]
    );
    assert_eq!(out.iter().filter(|a| a.is_default).count(), 1);
    assert_eq!(map_accounts("codex_oauth", vec![], Some("b")), vec![]);
}

fn status() -> AuthStatus {
    AuthStatus {
        authenticated: true,
        default_account_id: Some("b".to_string()),
        migration_error: Some("old token unreadable".to_string()),
        accounts: vec![account("a"), account("b")],
    }
}

#[test]
fn copilot_status_reports_its_migration_error() {
    let s = managed_status(AuthProvider::GithubCopilot, status());
    assert_eq!(s.provider, "github_copilot");
    assert!(s.authenticated);
    assert_eq!(s.default_account_id, Some("b".to_string()));
    assert_eq!(s.migration_error, Some("old token unreadable".to_string()));
    assert_eq!(
        s.accounts,
        vec![managed("github_copilot", "a", false), managed("github_copilot", "b", true)]
    );
}

#[test]
fn codex_status_has_no_migration_error() {
    let s = managed_status(AuthProvider::CodexOAuth, status());
    assert_eq!(s.provider, "codex_oauth");
    assert_eq!(s.migration_error, None);
    assert_eq!(s.accounts.len(), 2);
}

#[test]
fn account_list_of_a_service() {
    assert_eq!(
        account_list(AuthProvider::CodexOAuth, status()),
        vec![managed("codex_oauth", "a", false), managed("codex_oauth", "b", true)]
    );
    let none_default = AuthStatus {
        authenticated: false,
        default_account_id: None,
        migration_error: None,
        accounts: vec![account("a")],
    };
    assert_eq!(
        account_list(AuthProvider::GithubCopilot, none_default),
        vec![managed("github_copilot", "a", false)]
    );
}

#[test]
fn polling_steps() {
    assert_eq!(poll_step(PollOutcome::Pending), PollStep::NoAccount);
    assert_eq!(
        poll_step(PollOutcome::Failed("expired_token".to_string())),
        PollStep::Fail("expired_token".to_string())
    );
    assert_eq!(
        poll_step(PollOutcome::Account(Some(account("a")))),
        PollStep::FetchDefault(Some(account("a")))
    );
    assert_eq!(poll_step(PollOutcome::Account(None)), PollStep::FetchDefault(None));
}

#[test]
fn polled_account_is_mapped_with_the_default() {
    assert_eq!(
        polled_account(AuthProvider::GithubCopilot, Some(account("a")), Some("a".to_string())),
        Some(managed("github_copilot", "a", true))
    );
    assert_eq!(polled_account(AuthProvider::CodexOAuth, None, Some("a".to_string())), None);
}
