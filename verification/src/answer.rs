//! How the outcome of a service call becomes the answer to a request, and in
//! which order errors found by the host are reported.
use vstd::prelude::*;

use crate::args::{error_text, RpcError};
use crate::auth::{spec_poll_step, PollOutcome, PollStep};
use crate::json::JsonValue;
use crate::plan::{
    spec_app_call_reply, spec_auth_op_reply, spec_plan_rpc_command, spec_service_call_reply, AppCall,
    AuthOp, Immediate, RpcPlan, ServiceCall,
};
use crate::steps::{spec_stage_after, spec_step_count, Stage, StepOutcome};

verus! {

/// The answer to a request whose operation succeeded.
#[derive(Debug, PartialEq, Eq)]
pub enum Answer<V> {
    /// An answer fixed in advance (`true`, `null`, ...).
    Fixed(Immediate),
    /// What the service returned.
    Service(V),
}

/// After the single call of an operation: a failed call answers the request
/// with its error; otherwise the answer is the fixed one when the operation
/// has one, else what the service returned.
pub open spec fn spec_call_answer<V>(fixed: Option<Immediate>, result: Result<V, String>) -> Result<Answer<V>, String> {
    match result {
        Err(e) => Err(e),
        Ok(v) => Ok(
            match fixed {
                Some(answer) => Answer::Fixed(answer),
                None => Answer::Service(v),
            },
        ),
    }
}

pub fn call_answer<V>(fixed: Option<Immediate>, result: Result<V, String>) -> (r: Result<Answer<V>, String>)
    ensures
        r == spec_call_answer(fixed, result),
{
    match result {
        Err(e) => Err(e),
        Ok(v) => Ok(
            match fixed {
                Some(answer) => Answer::Fixed(answer),
                None => Answer::Service(v),
            },
        ),
    }
}

/// A result with its error message taken as text.
pub open spec fn text_result<T>(r: Result<T, String>) -> Result<T, Seq<char>> {
    match r {
        Ok(v) => Ok(v),
        Err(e) => Err(e@),
    }
}

/// An operation on one application is ready once the host resolved the
/// application and the operation's own arguments were read; an application
/// that cannot be resolved is reported first.
pub open spec fn spec_app_call_ready<A>(resolved: Result<A, Seq<char>>, call: Result<AppCall, RpcError>) -> Result<(A, AppCall), Seq<char>> {
    match resolved {
        Err(e) => Err(e),
        Ok(app) => match call {
            Err(err) => Err(error_text(err)),
            Ok(c) => Ok((app, c)),
        },
    }
}

/// An operation on one application, ready to run: the application the host
/// resolved from its name, and the operation.
pub fn app_call_ready<A>(resolved: Result<A, String>, call: Result<AppCall, RpcError>) -> (r: Result<(A, AppCall), String>)
    ensures
        text_result(r) == spec_app_call_ready(text_result(resolved), call),
{
    match resolved {
        Err(e) => Err(e),
        Ok(app) => match call {
            Err(err) => Err(err.message()),
            Ok(c) => Ok((app, c)),
        },
    }
}

/// A request-log query is ready once its filters were decoded and its page
/// and page size read: undecodable filters are reported first, then the
/// page, then the page size.
pub open spec fn spec_request_logs_ready<F>(
    filters: Result<F, Seq<char>>,
    page: Result<u32, RpcError>,
    page_size: Result<u32, RpcError>,
) -> Result<(F, u32, u32), Seq<char>> {
    match filters {
        Err(e) => Err(e),
        Ok(f) => match page {
            Err(err) => Err(error_text(err)),
            Ok(p) => match page_size {
                Err(err) => Err(error_text(err)),
                Ok(n) => Ok((f, p, n)),
            },
        },
    }
}

/// The arguments of a request-log query, ready to run.
pub fn request_logs_ready<F>(
    filters: Result<F, String>,
    page: Result<u32, RpcError>,
    page_size: Result<u32, RpcError>,
) -> (r: Result<(F, u32, u32), String>)
    ensures
        text_result(r) == spec_request_logs_ready(text_result(filters), page, page_size),
{
    match filters {
        Err(e) => Err(e),
        Ok(f) => match page {
            Err(err) => Err(err.message()),
            Ok(p) => match page_size {
                Err(err) => Err(err.message()),
                Ok(n) => Ok((f, p, n)),
            },
        },
    }
}

/// A failed service call ends the request with its own message, whatever
/// the operation.
pub proof fn lemma_failed_call_ends_the_request<V>(fixed: Option<Immediate>, message: String)
    ensures
        spec_call_answer::<V>(fixed, Err(message)) == Err::<Answer<V>, String>(message),
{
}

/// Whatever the command, a service call that fails answers the request with
/// the call's own message, and no later call of the command is made:
/// - an application that cannot be resolved stops the operation before it
///   runs;
/// - filters that cannot be decoded stop a request-log query before it runs;
/// - a failed step of a multi-step operation ends it, whichever step it is;
/// - a failed poll for a login is answered with its message (a login not yet
///   confirmed is no failure), and the default account is then not read;
/// - any other failed call is answered with its message, never with the
///   operation's fixed answer.
pub proof fn lemma_every_failed_call_answers_with_its_error<A, F, V, C>(
    command: String,
    args: JsonValue,
    message: String,
)
    requires
        spec_plan_rpc_command(command, args) is Ok,
    ensures
        match spec_plan_rpc_command(command, args)->Ok_0 {
            RpcPlan::Reply(_) => true,
            RpcPlan::App { call, .. } => {
                &&& spec_app_call_ready::<A>(Err(message@), call) == Err::<(A, AppCall), Seq<char>>(
                    message@,
                )
                &&& call matches Ok(c) ==> spec_call_answer::<V>(spec_app_call_reply(c), Err(message))
                    == Err::<Answer<V>, String>(message)
            },
            RpcPlan::Service(call) => if spec_step_count(call) > 0 {
                forall|k: nat|
                    1 <= k <= spec_step_count(call) ==> #[trigger] spec_stage_after::<C>(
                        call,
                        k,
                        StepOutcome::Failed(message),
                    ) == Some(Stage::<C>::Finish(Err(message)))
            } else {
                &&& spec_call_answer::<V>(spec_service_call_reply(call), Err(message)) == Err::<
                    Answer<V>,
                    String,
                >(message)
                &&& call matches ServiceCall::RequestLogs { page, page_size, .. }
                    ==> spec_request_logs_ready::<F>(Err(message@), page, page_size) == Err::<
                    (F, u32, u32),
                    Seq<char>,
                >(message@)
            },
            RpcPlan::Auth(c) => match c.op {
                AuthOp::PollForAccount { .. } => spec_poll_step(PollOutcome::Failed(message))
                    == PollStep::Fail(message),
                op => spec_call_answer::<V>(spec_auth_op_reply(op), Err(message)) == Err::<
                    Answer<V>,
                    String,
                >(message),
            },
        },
{
}

} // verus!
