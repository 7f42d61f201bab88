use cc_switch_web::answer::{app_call_ready, call_answer, request_logs_ready, Answer};
use cc_switch_web::args::RpcError;
use cc_switch_web::json::JsonValue;
use cc_switch_web::plan::{AppCall, Immediate, ServiceCall};
use cc_switch_web::steps::{stage_after, AppProxyConfig, ServiceStep, Stage, StepOutcome};

fn s(x: &str) -> String {
    x.to_string()
}

#[test]
fn a_failed_call_answers_with_its_message() {
    let r: Result<Answer<u8>, String> = call_answer(Some(Immediate::Bool(true)), Err(s("disk full")));
    assert_eq!(r, Err(s("disk full")));
    let r: Result<Answer<u8>, String> = call_answer(None, Err(s("no such provider")));
    assert_eq!(r, Err(s("no such provider")));
}

#[test]
fn a_fixed_answer_replaces_what_the_service_returned() {
    assert_eq!(call_answer(Some(Immediate::Bool(true)), Ok(7u8)), Ok(Answer::Fixed(Immediate::Bool(true))));
    assert_eq!(call_answer(Some(Immediate::Null), Ok(())), Ok(Answer::Fixed(Immediate::Null)));
    assert_eq!(call_answer(None, Ok(7u8)), Ok(Answer::Service(7u8)));
}

#[test]
fn an_unknown_application_is_reported_before_the_arguments() {
    let missing = Err(RpcError::MissingString("id"));
    assert_eq!(
        app_call_ready::<u8>(Err(s("Unknown app type: foo")), missing),
        Err(s("Unknown app type: foo"))
    );
    assert_eq!(
        app_call_ready(Ok(1u8), Err(RpcError::MissingString("id"))),
        Err(s("Missing string argument: id"))
    );
    assert_eq!(
        app_call_ready(Ok(1u8), Ok(AppCall::ListProviders)),
        Ok((1u8, AppCall::ListProviders))
    );
}

#[test]
fn log_filters_are_checked_before_the_page_and_page_size() {
    let bad_page = Err(RpcError::OutOfRangeU32("page"));
    let bad_size = Err(RpcError::OutOfRangeU32("pageSize"));
    assert_eq!(
        request_logs_ready::<u8>(Err(s("invalid type: string")), Err(RpcError::OutOfRangeU32("page")), Ok(20)),
        Err(s("invalid type: string"))
    );
    assert_eq!(
        request_logs_ready(Ok(0u8), bad_page, bad_size),
        Err(s("Argument out of range for u32: page"))
    );
    assert_eq!(
        request_logs_ready(Ok(0u8), Ok(3), Err(RpcError::OutOfRangeU32("pageSize"))),
        Err(s("Argument out of range for u32: pageSize"))
    );
    assert_eq!(request_logs_ready(Ok(0u8), Ok(3), Ok(50)), Ok((0u8, 3, 50)));
}

#[test]
fn steps_are_given_in_order() {
    let call = ServiceCall::UpdateCircuitBreakerConfig { config: JsonValue::Bool(true) };
    assert_eq!(
        stage_after::<()>(&call, 0, StepOutcome::Done),
        Some(Stage::Run(ServiceStep::StoreCircuitBreakerConfig { config: JsonValue::Bool(true) }))
    );
    assert_eq!(
        stage_after::<()>(&call, 1, StepOutcome::Done),
        Some(Stage::Run(ServiceStep::ApplyCircuitBreakerConfig { config: JsonValue::Bool(true) }))
    );
    assert_eq!(stage_after::<()>(&call, 2, StepOutcome::Done), Some(Stage::Finish(Ok(Immediate::Null))));
    assert_eq!(stage_after::<()>(&call, 3, StepOutcome::Done), None);
    assert_eq!(stage_after::<()>(&ServiceCall::GetSettings, 0, StepOutcome::Done), None);
}

#[test]
fn the_auto_failover_flag_is_answered_from_the_configuration_read() {
    let call = ServiceCall::AutoFailoverEnabled { app_type: s("codex") };
    assert_eq!(
        stage_after::<u8>(&call, 0, StepOutcome::Done),
        Some(Stage::Run(ServiceStep::ReadProxyConfigForApp { app_type: s("codex") }))
    );
    let read = AppProxyConfig { auto_failover_enabled: true, settings: 5u8 };
    assert_eq!(
        stage_after(&call, 1, StepOutcome::ProxyConfig(read)),
        Some(Stage::Finish(Ok(Immediate::Bool(true))))
    );
    assert_eq!(stage_after::<u8>(&call, 1, StepOutcome::Done), None);
    let reset = ServiceCall::ResetCircuitBreaker { provider_id: s("p"), app_type: s("codex") };
    let read = AppProxyConfig { auto_failover_enabled: false, settings: 5u8 };
    assert_eq!(stage_after(&reset, 2, StepOutcome::ProxyConfig(read)), None);
}
