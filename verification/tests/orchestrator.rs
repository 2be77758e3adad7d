use league_notifier::limiter::Limiter;
use league_notifier::orchestrator::run_call;
use league_notifier::orchestrator::CallError;
use league_notifier::orchestrator::TransportEvent;
use league_notifier::quota::QuotaSet;

fn standard_quota() -> QuotaSet {
    QuotaSet::new(vec![Limiter::new(20, 1), Limiter::new(100, 120)])
}

fn response(status: u16, retry_after: Option<&str>, body: &str) -> TransportEvent {
    TransportEvent::Response {
        status,
        retry_after: retry_after.map(|s| s.to_string()),
        body: body.to_string(),
    }
}

#[test]
fn not_found_is_terminal_after_one_send() {
    let mut quota = standard_quota();
    let events = vec![
        response(404, None, ""),
        response(404, None, ""),
        response(404, None, ""),
    ];
    let report = run_call(&mut quota, "lol/summoner/v4/summoners/by-name/nobody", events);
    match report.result {
        Err(CallError::NotFound { endpoint }) => {
            assert_eq!(endpoint, "lol/summoner/v4/summoners/by-name/nobody");
        }
        other => panic!("expected the not-found error, got {:?}", other.is_ok()),
    }
    assert_eq!(report.sends, 1);
    assert!(report.pauses.is_empty());
}

#[test]
fn attempt_budget_is_exactly_three_sends() {
    let mut quota = standard_quota();
    let events = vec![
        response(500, None, ""),
        response(500, None, ""),
        response(500, None, ""),
        response(500, None, ""),
        response(500, None, ""),
    ];
    let report = run_call(&mut quota, "lol/match/v5/matches/NA1_1", events);
    match report.result {
        Err(CallError::AttemptsExhausted { endpoint, attempts }) => {
            assert_eq!(endpoint, "lol/match/v5/matches/NA1_1");
            assert_eq!(attempts, 3);
        }
        _ => panic!("expected the attempts-exhausted error"),
    }
    assert_eq!(report.sends, 3);
    assert_eq!(report.attempt_count, 3);
}

#[test]
fn transport_failures_spend_the_budget_too() {
    let mut quota = standard_quota();
    let events = vec![TransportEvent::Failure, TransportEvent::Failure];
    let report = run_call(&mut quota, "lol/summoner/v4/summoners/x", events);
    assert!(matches!(
        report.result,
        Err(CallError::AttemptsExhausted { .. })
    ));
    assert_eq!(report.sends, 3);
}

#[test]
fn throttle_then_success_does_not_spend_an_attempt() {
    let mut quota = standard_quota();
    let events = vec![
        response(429, Some("2"), ""),
        response(200, None, "{\"ok\":true}"),
    ];
    let report = run_call(&mut quota, "lol/spectator/v4/featured-games", events);
    let body = report.result.expect("the second exchange succeeds");
    assert_eq!(body, "{\"ok\":true}");
    let decoded: serde_json::Value = serde_json::from_str(&body).expect("body decodes");
    assert_eq!(decoded["ok"], serde_json::Value::Bool(true));
    assert_eq!(report.sends, 2);
    assert_eq!(report.attempt_count, 1);
    assert_eq!(report.pauses, vec![2]);
}

#[test]
fn throttle_without_retry_after_falls_back_to_transient() {
    let mut quota = standard_quota();
    let events = vec![
        response(429, None, ""),
        response(429, Some("soon"), ""),
        response(429, None, ""),
    ];
    let report = run_call(&mut quota, "lol/league/v4/entries/by-summoner/a", events);
    assert!(matches!(
        report.result,
        Err(CallError::AttemptsExhausted { .. })
    ));
    assert_eq!(report.sends, 3);
    assert!(report.pauses.is_empty());
}

#[test]
fn success_on_first_send_delivers_the_body() {
    let mut quota = standard_quota();
    let events = vec![response(200, None, "[\"13.1.1\"]")];
    let report = run_call(&mut quota, "api/versions.json", events);
    assert_eq!(report.result.unwrap(), "[\"13.1.1\"]");
    assert_eq!(report.sends, 1);
    assert_eq!(report.attempt_count, 1);
    assert_eq!(report.refill_waits, 0);
}

#[test]
fn drained_quota_is_waited_out_once() {
    let mut quota = standard_quota();
    quota.drain_all();
    let events = vec![response(200, None, "ok")];
    let report = run_call(&mut quota, "any", events);
    assert!(report.result.is_ok());
    assert_eq!(report.refill_waits, 1);
}

#[test]
fn status_classes_at_their_boundaries() {
    // 203 is still a success; 300 and 199 are transient
    let mut quota = standard_quota();
    let report = run_call(&mut quota, "any", vec![response(203, None, "body")]);
    assert_eq!(report.result.unwrap(), "body");

    let mut quota = standard_quota();
    let report = run_call(&mut quota, "any", vec![response(300, None, ""), response(200, None, "ok")]);
    assert_eq!(report.result.unwrap(), "ok");
    assert_eq!(report.sends, 2);
    assert_eq!(report.attempt_count, 2);

    let mut quota = standard_quota();
    let report = run_call(&mut quota, "any", vec![response(199, None, ""), response(200, None, "ok")]);
    assert_eq!(report.result.unwrap(), "ok");
    assert_eq!(report.sends, 2);
}

#[test]
fn two_transient_failures_then_success_uses_the_whole_budget() {
    let mut quota = standard_quota();
    let events = vec![
        TransportEvent::Failure,
        response(503, None, ""),
        response(200, None, "late"),
    ];
    let report = run_call(&mut quota, "any", events);
    assert_eq!(report.result.unwrap(), "late");
    assert_eq!(report.sends, 3);
    assert_eq!(report.attempt_count, 3);
}

#[test]
fn decode_error_carries_endpoint_and_message() {
    let err = CallError::Decode {
        endpoint: "lol/match/v5/matches/NA1_2".to_string(),
        message: "missing field".to_string(),
    };
    match err {
        CallError::Decode { endpoint, message } => {
            assert_eq!(endpoint, "lol/match/v5/matches/NA1_2");
            assert_eq!(message, "missing field");
        }
        _ => unreachable!(),
    }
}
