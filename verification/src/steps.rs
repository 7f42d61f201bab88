//! The service operations that take more than one step.
//!
//! Some operations are carried out as a sequence of service steps: storing a
//! snippet and then recording whether it was cleared; marking a provider
//! healthy and then resetting its circuit breaker; storing a circuit-breaker
//! configuration and then handing it to the proxy; reading an application's
//! proxy configuration and then answering its auto-failover flag or storing
//! it with the flag changed. `stage_after` says, after each step, which step
//! runs next or how the request is answered. A failed step ends the request
//! with its error, and no later step runs.
use vstd::prelude::*;

use crate::json::JsonValue;
use crate::plan::{Immediate, ServiceCall};

verus! {

/// An application's proxy configuration: its auto-failover flag, and the
/// rest of it as the services hold it, which is passed on untouched.
#[derive(Debug, PartialEq, Eq)]
pub struct AppProxyConfig<C> {
    pub auto_failover_enabled: bool,
    pub settings: C,
}

/// One step of a service operation.
#[derive(Debug, PartialEq, Eq)]
pub enum ServiceStep<C> {
    /// Stores the snippet (`None` removes it).
    StoreConfigSnippet { app_type: String, snippet: Option<String> },
    RecordSnippetCleared { app_type: String, cleared: bool },
    /// Records the provider as healthy, with no error.
    MarkProviderHealthy { provider_id: String, app_type: String },
    ResetProviderCircuitBreaker { provider_id: String, app_type: String },
    StoreCircuitBreakerConfig { config: JsonValue },
    ApplyCircuitBreakerConfig { config: JsonValue },
    ReadProxyConfigForApp { app_type: String },
    StoreProxyConfigForApp { proxy_config: AppProxyConfig<C> },
}

/// What a step gave.
#[derive(Debug, PartialEq, Eq)]
pub enum StepOutcome<C> {
    /// The step succeeded and gave nothing.
    Done,
    /// `ReadProxyConfigForApp` succeeded with this configuration.
    ProxyConfig(AppProxyConfig<C>),
    /// The step failed with this message.
    Failed(String),
}

/// What happens next.
#[derive(Debug, PartialEq, Eq)]
pub enum Stage<C> {
    Run(ServiceStep<C>),
    Finish(Result<Immediate, String>),
}

/// The number of steps of an operation (none for an operation of one call).
pub open spec fn spec_step_count(call: ServiceCall) -> nat {
    match call {
        ServiceCall::SetCommonConfigSnippet { .. } => 2,
        ServiceCall::ResetCircuitBreaker { .. } => 2,
        ServiceCall::UpdateCircuitBreakerConfig { .. } => 2,
        ServiceCall::AutoFailoverEnabled { .. } => 1,
        ServiceCall::SetAutoFailoverEnabled { .. } => 2,
        _ => 0,
    }
}

/// The steps of an operation, in order (none for an operation of one call).
/// `read` is the configuration that reading the application's proxy
/// configuration gave: the change of the auto-failover flag stores it, in
/// its second step, with the flag set as requested. No other step depends on
/// what an earlier one gave.
pub open spec fn spec_steps<C>(call: ServiceCall, read: AppProxyConfig<C>) -> Seq<ServiceStep<C>> {
    match call {
        ServiceCall::SetCommonConfigSnippet { app_type, snippet, cleared } => seq![
            ServiceStep::StoreConfigSnippet { app_type, snippet },
            ServiceStep::RecordSnippetCleared { app_type, cleared },
        ],
        ServiceCall::ResetCircuitBreaker { provider_id, app_type } => seq![
            ServiceStep::MarkProviderHealthy { provider_id, app_type },
            ServiceStep::ResetProviderCircuitBreaker { provider_id, app_type },
        ],
        ServiceCall::UpdateCircuitBreakerConfig { config } => seq![
            ServiceStep::StoreCircuitBreakerConfig { config },
            ServiceStep::ApplyCircuitBreakerConfig { config },
        ],
        ServiceCall::AutoFailoverEnabled { app_type } => seq![ServiceStep::ReadProxyConfigForApp { app_type }],
        ServiceCall::SetAutoFailoverEnabled { app_type, enabled } => seq![
            ServiceStep::ReadProxyConfigForApp { app_type },
            ServiceStep::StoreProxyConfigForApp {
                proxy_config: AppProxyConfig { auto_failover_enabled: enabled, settings: read.settings },
            },
        ],
        _ => Seq::empty(),
    }
}

/// What a step gives when it succeeds: reading a proxy configuration gives
/// the configuration, every other step gives nothing.
pub open spec fn succeeded_with<C>(step: ServiceStep<C>, outcome: StepOutcome<C>) -> bool {
    match outcome {
        StepOutcome::Done => !(step is ReadProxyConfigForApp),
        StepOutcome::ProxyConfig(_) => step is ReadProxyConfigForApp,
        StepOutcome::Failed(_) => false,
    }
}

/// The configuration an outcome carries (any, when it carries none).
pub open spec fn read_in<C>(outcome: StepOutcome<C>) -> AppProxyConfig<C> {
    match outcome {
        StepOutcome::ProxyConfig(read) => read,
        _ => vstd::pervasive::arbitrary(),
    }
}

/// The stage after `completed` steps, the last of which gave `outcome`
/// (`Done` before the first): a failure ends the request with its message;
/// otherwise the next step runs, and after the last one the request is
/// answered, with the flag read when the last step read it, else with
/// nothing. `None` when the operation has no steps, or the outcome cannot
/// come from that step.
pub open spec fn spec_stage_after<C>(call: ServiceCall, completed: nat, outcome: StepOutcome<C>) -> Option<Stage<C>> {
    let steps = spec_steps(call, read_in(outcome));
    if outcome is Failed {
        if 1 <= completed <= steps.len() {
            Some(Stage::Finish(Err(outcome->Failed_0)))
        } else {
            None
        }
    } else if completed > steps.len() || (completed == 0 && !(outcome is Done)) || (completed >= 1
        && !succeeded_with(steps[completed - 1], outcome)) {
        None
    } else if completed < steps.len() {
        Some(Stage::Run(steps[completed as int]))
    } else if completed > 0 {
        Some(
            Stage::Finish(
                Ok(
                    match outcome {
                        StepOutcome::ProxyConfig(read) => Immediate::Bool(read.auto_failover_enabled),
                        _ => Immediate::Null,
                    },
                ),
            ),
        )
    } else {
        None
    }
}

fn step_count<C>(call: &ServiceCall) -> (r: usize)
    ensures
        r == spec_step_count(*call),
        forall|read: AppProxyConfig<C>| #[trigger] spec_steps::<C>(*call, read).len() == r,
{
    match call {
        ServiceCall::SetCommonConfigSnippet { .. } => 2,
        ServiceCall::ResetCircuitBreaker { .. } => 2,
        ServiceCall::UpdateCircuitBreakerConfig { .. } => 2,
        ServiceCall::AutoFailoverEnabled { .. } => 1,
        ServiceCall::SetAutoFailoverEnabled { .. } => 2,
        _ => 0,
    }
}

fn clone_option(s: &Option<String>) -> (r: Option<String>)
    ensures
        r == *s,
{
    match s {
        Some(s) => Some(s.clone()),
        None => None,
    }
}

/// Whether step `k` reads the application's proxy configuration.
fn reads_at<C>(call: &ServiceCall, k: usize) -> (r: bool)
    ensures
        forall|read: AppProxyConfig<C>|
            r == (k < spec_steps::<C>(*call, read).len() && #[trigger] spec_steps::<C>(*call, read)[k as int] is ReadProxyConfigForApp),
{
    match call {
        ServiceCall::AutoFailoverEnabled { .. } => k == 0,
        ServiceCall::SetAutoFailoverEnabled { .. } => k == 0,
        _ => false,
    }
}

/// Step `k` of an operation, when it does not depend on what an earlier
/// step gave.
fn plain_step<C>(call: &ServiceCall, k: usize) -> (r: ServiceStep<C>)
    requires
        k < spec_step_count(*call),
        !(*call is SetAutoFailoverEnabled && k == 1),
    ensures
        forall|read: AppProxyConfig<C>| r == #[trigger] spec_steps::<C>(*call, read)[k as int],
{
    match call {
        ServiceCall::SetCommonConfigSnippet { app_type, snippet, cleared } => if k == 0 {
            ServiceStep::StoreConfigSnippet { app_type: app_type.clone(), snippet: clone_option(snippet) }
        } else {
            ServiceStep::RecordSnippetCleared { app_type: app_type.clone(), cleared: *cleared }
        },
        ServiceCall::ResetCircuitBreaker { provider_id, app_type } => if k == 0 {
            ServiceStep::MarkProviderHealthy { provider_id: provider_id.clone(), app_type: app_type.clone() }
        } else {
            ServiceStep::ResetProviderCircuitBreaker {
                provider_id: provider_id.clone(),
                app_type: app_type.clone(),
            }
        },
        ServiceCall::UpdateCircuitBreakerConfig { config } => if k == 0 {
            ServiceStep::StoreCircuitBreakerConfig { config: config.deep_clone() }
        } else {
            ServiceStep::ApplyCircuitBreakerConfig { config: config.deep_clone() }
        },
        ServiceCall::AutoFailoverEnabled { app_type } => ServiceStep::ReadProxyConfigForApp {
            app_type: app_type.clone(),
        },
        ServiceCall::SetAutoFailoverEnabled { app_type, .. } => ServiceStep::ReadProxyConfigForApp {
            app_type: app_type.clone(),
        },
        _ => {
            proof {
                assert(false);
            }
            ServiceStep::ReadProxyConfigForApp { app_type: String::new() }
        },
    }
}

/// The second step of the change of the auto-failover flag: store the
/// configuration read with the flag set as requested.
fn store_with_flag<C>(call: &ServiceCall, read: AppProxyConfig<C>) -> (r: ServiceStep<C>)
    requires
        *call is SetAutoFailoverEnabled,
    ensures
        r == spec_steps(*call, read)[1],
{
    match call {
        ServiceCall::SetAutoFailoverEnabled { enabled, .. } => ServiceStep::StoreProxyConfigForApp {
            proxy_config: AppProxyConfig { auto_failover_enabled: *enabled, settings: read.settings },
        },
        _ => {
            proof {
                assert(false);
            }
            ServiceStep::ReadProxyConfigForApp { app_type: String::new() }
        },
    }
}

/// Says what happens after `completed` steps of `call`, the last of which
/// gave `outcome` (pass `Done` to get the first step).
pub fn stage_after<C>(call: &ServiceCall, completed: usize, outcome: StepOutcome<C>) -> (r: Option<Stage<C>>)
    ensures
        r == spec_stage_after(*call, completed as nat, outcome),
{
    let count = step_count::<C>(call);
    match outcome {
        StepOutcome::Failed(e) => if 1 <= completed && completed <= count {
            Some(Stage::Finish(Err(e)))
        } else {
            None
        },
        StepOutcome::Done => {
            if completed > count || (completed >= 1 && reads_at::<C>(call, completed - 1)) {
                None
            } else if completed < count {
                Some(Stage::Run(plain_step(call, completed)))
            } else if completed > 0 {
                Some(Stage::Finish(Ok(Immediate::Null)))
            } else {
                None
            }
        },
        StepOutcome::ProxyConfig(read) => {
            if completed == 0 || completed > count || !reads_at::<C>(call, completed - 1) {
                None
            } else if completed < count {
                Some(Stage::Run(store_with_flag(call, read)))
            } else {
                Some(Stage::Finish(Ok(Immediate::Bool(read.auto_failover_enabled))))
            }
        },
    }
}

/// The outcomes a step can give: any step may fail, and one that succeeds
/// gives what `succeeded_with` says.
pub open spec fn outcome_fits<C>(step: ServiceStep<C>, outcome: StepOutcome<C>) -> bool {
    outcome is Failed || succeeded_with(step, outcome)
}

/// Whatever a step gives, among the outcomes it can give, there is a next
/// stage: every multi-step operation runs to an answer.
pub proof fn lemma_every_outcome_leads_on<C>(
    call: ServiceCall,
    completed: nat,
    outcome: StepOutcome<C>,
    next: StepOutcome<C>,
)
    requires
        spec_stage_after(call, completed, outcome) matches Some(Stage::Run(step)) && outcome_fits(
            step,
            next,
        ),
    ensures
        spec_stage_after(call, completed + 1, next) is Some,
{
}

/// A failed step ends the operation with the step's message.
pub proof fn lemma_failed_step_ends_the_request<C>(call: ServiceCall, completed: nat, message: String)
    requires
        1 <= completed <= spec_step_count(call),
    ensures
        spec_stage_after::<C>(call, completed, StepOutcome::Failed(message)) == Some(
            Stage::<C>::Finish(Err(message)),
        ),
{
}

/// A step runs only while steps remain and after the previous step
/// succeeded; the operation succeeds only once all its steps succeeded.
pub proof fn lemma_steps_run_in_order<C>(call: ServiceCall, completed: nat, outcome: StepOutcome<C>)
    ensures
        spec_stage_after(call, completed, outcome) matches Some(Stage::Run(_)) ==> completed
            < spec_step_count(call) && !(outcome is Failed),
        spec_stage_after(call, completed, outcome) matches Some(Stage::Finish(Ok(_)))
            ==> completed == spec_step_count(call) && !(outcome is Failed),
        spec_stage_after(call, completed, outcome) matches Some(Stage::Finish(Err(_)))
            ==> outcome is Failed,
{
}

/// Turning auto-failover on or off stores the configuration just read with
/// only its flag changed, and answers nothing once that is stored.
pub proof fn lemma_auto_failover_update_changes_only_the_flag<C>(
    app_type: String,
    enabled: bool,
    read: AppProxyConfig<C>,
)
    ensures
        spec_stage_after(
            ServiceCall::SetAutoFailoverEnabled { app_type, enabled },
            0,
            StepOutcome::<C>::Done,
        ) == Some(Stage::<C>::Run(ServiceStep::ReadProxyConfigForApp { app_type })),
        spec_stage_after(
            ServiceCall::SetAutoFailoverEnabled { app_type, enabled },
            1,
            StepOutcome::ProxyConfig(read),
        ) == Some(
            Stage::Run(
                ServiceStep::StoreProxyConfigForApp {
                    proxy_config: AppProxyConfig { auto_failover_enabled: enabled, settings: read.settings },
                },
            ),
        ),
        spec_stage_after(
            ServiceCall::SetAutoFailoverEnabled { app_type, enabled },
            2,
            StepOutcome::<C>::Done,
        ) == Some(Stage::<C>::Finish(Ok(Immediate::Null))),
{
}

/// Asking for the auto-failover flag reads the application's proxy
/// configuration and answers the flag it holds, on or off.
pub proof fn lemma_auto_failover_flag_is_the_one_read<C>(app_type: String, read: AppProxyConfig<C>)
    ensures
        spec_stage_after(ServiceCall::AutoFailoverEnabled { app_type }, 0, StepOutcome::<C>::Done) == Some(
            Stage::<C>::Run(ServiceStep::ReadProxyConfigForApp { app_type }),
        ),
        spec_stage_after(ServiceCall::AutoFailoverEnabled { app_type }, 1, StepOutcome::ProxyConfig(read))
            == Some(Stage::<C>::Finish(Ok(Immediate::Bool(read.auto_failover_enabled)))),
{
}

/// Setting the auto-failover flag stores a configuration for which asking
/// for the flag answers the value that was set.
pub proof fn lemma_auto_failover_reads_back_what_was_set<C>(
    app_type: String,
    enabled: bool,
    read: AppProxyConfig<C>,
)
    ensures
        spec_stage_after(
            ServiceCall::SetAutoFailoverEnabled { app_type, enabled },
            1,
            StepOutcome::ProxyConfig(read),
        ) matches Some(Stage::Run(ServiceStep::StoreProxyConfigForApp { proxy_config: stored }))
            && spec_stage_after(
            ServiceCall::AutoFailoverEnabled { app_type },
            1,
            StepOutcome::ProxyConfig(stored),
        ) == Some(Stage::<C>::Finish(Ok(Immediate::Bool(enabled)))),
{
}

/// The steps each multi-step operation runs, in order, when they succeed:
/// a snippet is stored and then whether it was cleared is recorded; a
/// provider is marked healthy before its circuit breaker is reset; a
/// circuit-breaker configuration is stored before the proxy is given it.
/// Each of them answers nothing once its last step succeeded.
pub proof fn lemma_multi_step_operations_run_in_this_order<C>(
    app_type: String,
    snippet: Option<String>,
    cleared: bool,
    provider_id: String,
    config: JsonValue,
)
    ensures
        ({
            let call = ServiceCall::SetCommonConfigSnippet { app_type, snippet, cleared };
            &&& spec_stage_after(call, 0, StepOutcome::<C>::Done) == Some(
                Stage::<C>::Run(ServiceStep::StoreConfigSnippet { app_type, snippet }),
            )
            &&& spec_stage_after(call, 1, StepOutcome::<C>::Done) == Some(
                Stage::<C>::Run(ServiceStep::RecordSnippetCleared { app_type, cleared }),
            )
            &&& spec_stage_after(call, 2, StepOutcome::<C>::Done) == Some(Stage::<C>::Finish(Ok(Immediate::Null)))
        }),
        ({
            let call = ServiceCall::ResetCircuitBreaker { provider_id, app_type };
            &&& spec_stage_after(call, 0, StepOutcome::<C>::Done) == Some(
                Stage::<C>::Run(ServiceStep::MarkProviderHealthy { provider_id, app_type }),
            )
            &&& spec_stage_after(call, 1, StepOutcome::<C>::Done) == Some(
                Stage::<C>::Run(ServiceStep::ResetProviderCircuitBreaker { provider_id, app_type }),
            )
            &&& spec_stage_after(call, 2, StepOutcome::<C>::Done) == Some(Stage::<C>::Finish(Ok(Immediate::Null)))
        }),
        ({
            let call = ServiceCall::UpdateCircuitBreakerConfig { config };
            &&& spec_stage_after(call, 0, StepOutcome::<C>::Done) == Some(
                Stage::<C>::Run(ServiceStep::StoreCircuitBreakerConfig { config }),
            )
            &&& spec_stage_after(call, 1, StepOutcome::<C>::Done) == Some(
                Stage::<C>::Run(ServiceStep::ApplyCircuitBreakerConfig { config }),
            )
            &&& spec_stage_after(call, 2, StepOutcome::<C>::Done) == Some(Stage::<C>::Finish(Ok(Immediate::Null)))
        }),
{
}

} // verus!
