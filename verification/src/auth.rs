//! The answers of the account commands: accounts, login device codes and
//! the status of an account service, in the shape the web front end reads.
use vstd::prelude::*;
use vstd::string::StringExecFns;

use crate::plan::{spec_auth_provider_id, AuthProvider};
use crate::text::str_equal;

verus! {

/// An account as an account service reports it.
#[derive(Debug, PartialEq, Eq)]
pub struct GitHubAccount {
    pub id: String,
    pub login: String,
    pub avatar_url: Option<String>,
    pub authenticated_at: i64,
    pub github_domain: String,
}

/// The device code an account service hands out to start a login.
#[derive(Debug, PartialEq, Eq)]
pub struct GitHubDeviceCodeResponse {
    pub device_code: String,
    pub user_code: String,
    pub verification_uri: String,
    pub expires_in: u64,
    pub interval: u64,
}

/// The status of an account service.
#[derive(Debug, PartialEq, Eq)]
pub struct AuthStatus {
    pub authenticated: bool,
    pub default_account_id: Option<String>,
    /// Only GitHub Copilot reports one.
    pub migration_error: Option<String>,
    pub accounts: Vec<GitHubAccount>,
}

/// An account as the front end sees it.
#[derive(Debug, PartialEq, Eq)]
pub struct ManagedAuthAccount {
    pub id: String,
    pub provider: String,
    pub login: String,
    pub avatar_url: Option<String>,
    pub authenticated_at: i64,
    pub is_default: bool,
    pub github_domain: String,
}

/// The status of an account service as the front end sees it.
#[derive(Debug, PartialEq, Eq)]
pub struct ManagedAuthStatus {
    pub provider: String,
    pub authenticated: bool,
    pub default_account_id: Option<String>,
    pub migration_error: Option<String>,
    pub accounts: Vec<ManagedAuthAccount>,
}

/// A login device code as the front end sees it.
#[derive(Debug, PartialEq, Eq)]
pub struct ManagedAuthDeviceCodeResponse {
    pub provider: String,
    pub device_code: String,
    pub user_code: String,
    pub verification_uri: String,
    pub expires_in: u64,
    pub interval: u64,
}

/// Whether `id` is the default account id.
pub open spec fn is_default_id(id: Seq<char>, default_account_id: Option<Seq<char>>) -> bool {
    default_account_id == Some(id)
}

/// `out` is `account` as the front end sees it, for the service named
/// `provider` whose default account id is `default_account_id`.
pub open spec fn account_mapped(
    provider: Seq<char>,
    account: GitHubAccount,
    default_account_id: Option<Seq<char>>,
    out: ManagedAuthAccount,
) -> bool {
    &&& out.id == account.id
    &&& out.provider@ == provider
    &&& out.login == account.login
    &&& out.avatar_url == account.avatar_url
    &&& out.authenticated_at == account.authenticated_at
    &&& out.is_default == is_default_id(account.id@, default_account_id)
    &&& out.github_domain == account.github_domain
}

pub open spec fn opt_str_view(s: Option<&str>) -> Option<Seq<char>> {
    match s {
        Some(s) => Some(s@),
        None => None,
    }
}

pub open spec fn opt_string_view(s: Option<String>) -> Option<Seq<char>> {
    match s {
        Some(s) => Some(s@),
        None => None,
    }
}

/// An account as the front end sees it: it is the default account when its
/// id is the default account id.
pub fn map_account(
    provider: &str,
    account: GitHubAccount,
    default_account_id: Option<&str>,
) -> (r: ManagedAuthAccount)
    ensures
        account_mapped(provider@, account, opt_str_view(default_account_id), r),
{
    let is_default = match default_account_id {
        Some(d) => str_equal(d, account.id.as_str()),
        None => false,
    };
    ManagedAuthAccount {
        is_default,
        id: account.id,
        provider: String::from_str(provider),
        login: account.login,
        avatar_url: account.avatar_url,
        authenticated_at: account.authenticated_at,
        github_domain: account.github_domain,
    }
}

/// A login device code as the front end sees it.
pub fn map_device_code_response(
    provider: &str,
    response: GitHubDeviceCodeResponse,
) -> (r: ManagedAuthDeviceCodeResponse)
    ensures
        r.provider@ == provider@,
        r.device_code == response.device_code,
        r.user_code == response.user_code,
        r.verification_uri == response.verification_uri,
        r.expires_in == response.expires_in,
        r.interval == response.interval,
{
    ManagedAuthDeviceCodeResponse {
        provider: String::from_str(provider),
        device_code: response.device_code,
        user_code: response.user_code,
        verification_uri: response.verification_uri,
        expires_in: response.expires_in,
        interval: response.interval,
    }
}

/// `out` lists `accounts` in order as the front end sees them.
pub open spec fn accounts_mapped(
    provider: Seq<char>,
    accounts: Seq<GitHubAccount>,
    default_account_id: Option<Seq<char>>,
    out: Seq<ManagedAuthAccount>,
) -> bool {
    &&& out.len() == accounts.len()
    &&& forall|i: int|
        0 <= i < accounts.len() ==> account_mapped(
            provider,
            #[trigger] accounts[i],
            default_account_id,
            out[i],
        )
}

/// The accounts of a service as the front end sees them, in order.
pub fn map_accounts(
    provider: &str,
    accounts: Vec<GitHubAccount>,
    default_account_id: Option<&str>,
) -> (r: Vec<ManagedAuthAccount>)
    ensures
        accounts_mapped(provider@, accounts@, opt_str_view(default_account_id), r@),
{
    let ghost all = accounts@;
    let mut rest = accounts;
    let mut out: Vec<ManagedAuthAccount> = Vec::new();
    while rest.len() > 0
        invariant
            out@.len() + rest@.len() == all.len(),
            rest@ == all.subrange(out@.len() as int, all.len() as int),
            forall|i: int|
                0 <= i < out@.len() ==> account_mapped(
                    provider@,
                    #[trigger] all[i],
                    opt_str_view(default_account_id),
                    out@[i],
                ),
        decreases rest@.len(),
    {
        let account = rest.remove(0);
        let mapped = map_account(provider, account, default_account_id);
        out.push(mapped);
        assert(rest@ =~= all.subrange(out@.len() as int, all.len() as int));
    }
    out
}

/// The status of an account service as the front end sees it.
pub open spec fn status_mapped(provider: AuthProvider, status: AuthStatus, out: ManagedAuthStatus) -> bool {
    &&& out.provider@ == spec_auth_provider_id(provider)@
    &&& out.authenticated == status.authenticated
    &&& out.default_account_id == status.default_account_id
    &&& out.migration_error == match provider {
        AuthProvider::GithubCopilot => status.migration_error,
        AuthProvider::CodexOAuth => None,
    }
    &&& accounts_mapped(
        spec_auth_provider_id(provider)@,
        status.accounts@,
        opt_string_view(status.default_account_id),
        out.accounts@,
    )
}

/// The default account id of a status, borrowed.
fn default_id_of(default_account_id: &Option<String>) -> (r: Option<&str>)
    ensures
        opt_str_view(r) == opt_string_view(*default_account_id),
{
    match default_account_id {
        Some(d) => Some(d.as_str()),
        None => None,
    }
}

/// The status of an account service as the front end sees it. Only GitHub
/// Copilot reports a migration error.
pub fn managed_status(provider: AuthProvider, status: AuthStatus) -> (r: ManagedAuthStatus)
    ensures
        status_mapped(provider, status, r),
{
    let id = provider.id();
    let default_account_id = status.default_account_id;
    let migration_error = match provider {
        AuthProvider::GithubCopilot => status.migration_error,
        AuthProvider::CodexOAuth => None,
    };
    let accounts = map_accounts(id, status.accounts, default_id_of(&default_account_id));
    ManagedAuthStatus {
        provider: String::from_str(id),
        authenticated: status.authenticated,
        default_account_id,
        migration_error,
        accounts,
    }
}

/// The accounts of a service's status as the front end lists them.
pub open spec fn list_mapped(provider: AuthProvider, status: AuthStatus, out: Seq<ManagedAuthAccount>) -> bool {
    accounts_mapped(
        spec_auth_provider_id(provider)@,
        status.accounts@,
        opt_string_view(status.default_account_id),
        out,
    )
}

/// The accounts of an account service as the front end sees them.
pub fn account_list(provider: AuthProvider, status: AuthStatus) -> (r: Vec<ManagedAuthAccount>)
    ensures
        list_mapped(provider, status, r@),
{
    let default_account_id = status.default_account_id;
    map_accounts(provider.id(), status.accounts, default_id_of(&default_account_id))
}

/// What polling for a login gave.
#[derive(Debug, PartialEq, Eq)]
pub enum PollOutcome {
    /// The login finished; the service may hand out the account.
    Account(Option<GitHubAccount>),
    /// The user has not confirmed the login yet.
    Pending,
    /// Polling failed with this message.
    Failed(String),
}

/// What to do after polling for a login.
#[derive(Debug, PartialEq, Eq)]
pub enum PollStep {
    /// Read the default account id, then answer with the account.
    FetchDefault(Option<GitHubAccount>),
    /// Answer with no account.
    NoAccount,
    /// Answer with the error.
    Fail(String),
}

pub open spec fn spec_poll_step(outcome: PollOutcome) -> PollStep {
    match outcome {
        PollOutcome::Account(a) => PollStep::FetchDefault(a),
        PollOutcome::Pending => PollStep::NoAccount,
        PollOutcome::Failed(e) => PollStep::Fail(e),
    }
}

/// After a poll: a finished login needs the default account id, a pending
/// one is answered with no account, a failure with its message.
pub fn poll_step(outcome: PollOutcome) -> (r: PollStep)
    ensures
        r == spec_poll_step(outcome),
{
    match outcome {
        PollOutcome::Account(a) => PollStep::FetchDefault(a),
        PollOutcome::Pending => PollStep::NoAccount,
        PollOutcome::Failed(e) => PollStep::Fail(e),
    }
}

/// The answer to a finished login: the account as the front end sees it.
pub fn polled_account(
    provider: AuthProvider,
    account: Option<GitHubAccount>,
    default_account_id: Option<String>,
) -> (r: Option<ManagedAuthAccount>)
    ensures
        (r is Some) == (account is Some),
        account matches Some(a) ==> account_mapped(
            spec_auth_provider_id(provider)@,
            a,
            opt_string_view(default_account_id),
            r->0,
        ),
{
    match account {
        Some(a) => Some(map_account(provider.id(), a, default_id_of(&default_account_id))),
        None => None,
    }
}


/// Among accounts with distinct ids, at most one is marked as the default.
pub proof fn lemma_at_most_one_default(
    provider: Seq<char>,
    accounts: Seq<GitHubAccount>,
    default_account_id: Option<Seq<char>>,
    out: Seq<ManagedAuthAccount>,
)
    requires
        accounts_mapped(provider, accounts, default_account_id, out),
        forall|i: int, j: int|
            0 <= i < j < accounts.len() ==> (#[trigger] accounts[i]).id@ != (#[trigger] accounts[j]).id@,
    ensures
        forall|i: int, j: int|
            0 <= i < j < out.len() && (#[trigger] out[i]).is_default ==> !(#[trigger] out[j]).is_default,
{
    assert forall|i: int, j: int|
        0 <= i < j < out.len() && (#[trigger] out[i]).is_default implies !(#[trigger] out[j]).is_default by {
        assert(account_mapped(provider, accounts[i], default_account_id, out[i]));
        assert(account_mapped(provider, accounts[j], default_account_id, out[j]));
    }
}

/// An account is marked as the default exactly when the service names a
/// default account and its id is that id.
pub proof fn lemma_default_marks_match_id(
    provider: Seq<char>,
    accounts: Seq<GitHubAccount>,
    default_account_id: Option<Seq<char>>,
    out: Seq<ManagedAuthAccount>,
    i: int,
)
    requires
        accounts_mapped(provider, accounts, default_account_id, out),
        0 <= i < out.len(),
    ensures
        out[i].is_default <==> (default_account_id is Some && default_account_id->0 == out[i].id@),
        out[i].id == accounts[i].id,
{
    assert(account_mapped(provider, accounts[i], default_account_id, out[i]));
}

/// Whether the account at position `i` of a status is its default account:
/// the status names a default account id and it is that account's id.
pub open spec fn is_default_of(status: AuthStatus, i: int) -> bool {
    status.default_account_id matches Some(d) && d@ == status.accounts@[i].id@
}

/// For either account service, the status answer lists the service's
/// accounts in order, and marks an account as the default exactly when the
/// status names it as the default account.
pub proof fn lemma_status_marks_the_default_account(
    provider: AuthProvider,
    status: AuthStatus,
    out: ManagedAuthStatus,
)
    requires
        status_mapped(provider, status, out),
    ensures
        out.accounts@.len() == status.accounts@.len(),
        forall|i: int|
            0 <= i < status.accounts@.len() ==> (#[trigger] out.accounts@[i]).id == status.accounts@[i].id
                && (out.accounts@[i].is_default <==> is_default_of(status, i)),
{
    assert forall|i: int| 0 <= i < status.accounts@.len() implies (#[trigger] out.accounts@[i]).id
        == status.accounts@[i].id && (out.accounts@[i].is_default <==> is_default_of(status, i)) by {
        assert(account_mapped(
            spec_auth_provider_id(provider)@,
            status.accounts@[i],
            opt_string_view(status.default_account_id),
            out.accounts@[i],
        ));
    }
}

/// For either account service, the account list answer lists the service's
/// accounts in order, and marks an account as the default exactly when the
/// status names it as the default account.
pub proof fn lemma_list_marks_the_default_account(
    provider: AuthProvider,
    status: AuthStatus,
    out: Seq<ManagedAuthAccount>,
)
    requires
        list_mapped(provider, status, out),
    ensures
        out.len() == status.accounts@.len(),
        forall|i: int|
            0 <= i < status.accounts@.len() ==> (#[trigger] out[i]).id == status.accounts@[i].id && (
            out[i].is_default <==> is_default_of(status, i)),
{
    assert forall|i: int| 0 <= i < status.accounts@.len() implies (#[trigger] out[i]).id
        == status.accounts@[i].id && (out[i].is_default <==> is_default_of(status, i)) by {
        assert(account_mapped(
            spec_auth_provider_id(provider)@,
            status.accounts@[i],
            opt_string_view(status.default_account_id),
            out[i],
        ));
    }
}

/// The status answer and the account list answer of the same service and
/// status show the same accounts, in the same order, with the same default
/// mark.
pub proof fn lemma_status_accounts_are_the_account_list(
    provider: AuthProvider,
    status: AuthStatus,
    out: ManagedAuthStatus,
    list: Seq<ManagedAuthAccount>,
)
    requires
        status_mapped(provider, status, out),
        list_mapped(provider, status, list),
    ensures
        out.accounts@.len() == list.len(),
        forall|i: int|
            0 <= i < list.len() ==> {
                &&& (#[trigger] out.accounts@[i]).id == list[i].id
                &&& out.accounts@[i].provider@ == list[i].provider@
                &&& out.accounts@[i].login == list[i].login
                &&& out.accounts@[i].avatar_url == list[i].avatar_url
                &&& out.accounts@[i].authenticated_at == list[i].authenticated_at
                &&& out.accounts@[i].is_default == list[i].is_default
                &&& out.accounts@[i].github_domain == list[i].github_domain
            },
{
    assert forall|i: int| 0 <= i < list.len() implies {
        &&& (#[trigger] out.accounts@[i]).id == list[i].id
        &&& out.accounts@[i].provider@ == list[i].provider@
        &&& out.accounts@[i].login == list[i].login
        &&& out.accounts@[i].avatar_url == list[i].avatar_url
        &&& out.accounts@[i].authenticated_at == list[i].authenticated_at
        &&& out.accounts@[i].is_default == list[i].is_default
        &&& out.accounts@[i].github_domain == list[i].github_domain
    } by {
        assert(account_mapped(
            spec_auth_provider_id(provider)@,
            status.accounts@[i],
            opt_string_view(status.default_account_id),
            out.accounts@[i],
        ));
        assert(account_mapped(
            spec_auth_provider_id(provider)@,
            status.accounts@[i],
            opt_string_view(status.default_account_id),
            list[i],
        ));
    }
}

} // verus!
