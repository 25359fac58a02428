use solana_dev_tools::auth::credentials::Credentials;
use solana_dev_tools::auth::device_flow::{
    DeviceAuthPollResponse, DeviceAuthRequest, DeviceFlowAuth, Exchange, FlowReport, FlowStep,
    PollOutcome, MAX_POLL_ATTEMPTS, POLL_INTERVAL_SECS, REQUEST_TIMEOUT_SECS,
};
use solana_dev_tools::error::CliError;

type Polled = Result<DeviceAuthPollResponse, CliError>;

fn response(status: &str, api_token: Option<&str>, user_id: Option<&str>) -> DeviceAuthPollResponse {
    DeviceAuthPollResponse {
        status: status.to_string(),
        api_token: api_token.map(|s| s.to_string()),
        user_id: user_id.map(|s| s.to_string()),
    }
}

fn pending() -> Polled {
    Ok(response("pending", None, None))
}

fn verified(token: &str, id: &str) -> Polled {
    Ok(response("verified", Some(token), Some(id)))
}

fn expired() -> Polled {
    Ok(response("expired", None, None))
}

fn flow() -> DeviceFlowAuth {
    DeviceFlowAuth::new("http://localhost:3000".to_string())
}

fn credentials(user_id: &str, api_token: &str) -> Credentials {
    Credentials { user_id: user_id.to_string(), api_token: api_token.to_string() }
}

#[test]
fn constants_bound_a_login() {
    assert_eq!(MAX_POLL_ATTEMPTS, 60);
    assert_eq!(POLL_INTERVAL_SECS, 5);
    assert_eq!(REQUEST_TIMEOUT_SECS, 30);
}

#[test]
fn waiting_is_bounded_by_five_minutes() {
    assert_eq!(flow().wait_left_secs(), 300);
    match flow().authenticate(&pending()) {
        FlowStep::PollAgain(next) => assert_eq!(next.wait_left_secs(), 295),
        FlowStep::Done(r) => panic!("the login ended: {:?}", r),
    }
}

#[test]
fn new_flow_has_made_no_poll() {
    let f = flow();
    assert_eq!(f.polls_made(), 0);
    assert_eq!(f.base_url(), "http://localhost:3000");
}

#[test]
fn urls_are_built_from_the_base() {
    let f = flow();
    assert_eq!(f.request_url(), "http://localhost:3000/cli-auth/request");
    assert_eq!(f.poll_url("abc123"), "http://localhost:3000/cli-auth/poll/abc123");
}

#[test]
fn pending_pending_verified_yields_credentials_after_three_polls() {
    let polled = vec![pending(), pending(), verified("t", "u")];
    let report = flow().run(&polled);
    assert_eq!(report, FlowReport { polls: 3, result: Some(Ok(credentials("u", "t"))) });
}

#[test]
fn pending_expired_yields_session_expired_after_two_polls() {
    let polled = vec![pending(), expired()];
    let report = flow().run(&polled);
    assert_eq!(report, FlowReport { polls: 2, result: Some(Err(CliError::SessionExpired)) });
}

#[test]
fn all_pending_up_to_the_ceiling_yields_timeout() {
    let polled: Vec<Polled> = (0..60).map(|_| pending()).collect();
    let report = flow().run(&polled);
    assert_eq!(report, FlowReport { polls: 60, result: Some(Err(CliError::AuthTimeout)) });
}

#[test]
fn results_after_the_end_are_not_used() {
    let polled = vec![pending(), verified("t", "u"), expired(), pending()];
    assert_eq!(
        flow().run(&polled),
        FlowReport { polls: 2, result: Some(Ok(credentials("u", "t"))) }
    );
    let many: Vec<Polled> = (0..75).map(|_| pending()).collect();
    assert_eq!(
        flow().run(&many),
        FlowReport { polls: 60, result: Some(Err(CliError::AuthTimeout)) }
    );
}

#[test]
fn too_few_pending_results_leave_the_login_open() {
    let polled: Vec<Polled> = (0..59).map(|_| pending()).collect();
    assert_eq!(flow().run(&polled), FlowReport { polls: 59, result: None });
    assert_eq!(flow().run(&Vec::new()), FlowReport { polls: 0, result: None });
}

#[test]
fn last_allowed_poll_can_still_succeed() {
    let mut polled: Vec<Polled> = (0..59).map(|_| pending()).collect();
    polled.push(verified("t", "u"));
    assert_eq!(
        flow().run(&polled),
        FlowReport { polls: 60, result: Some(Ok(credentials("u", "t"))) }
    );
}

#[test]
fn verified_without_token_is_malformed() {
    let missing_token = Ok(response("verified", None, Some("u")));
    assert_eq!(flow().authenticate(&missing_token), FlowStep::Done(Err(CliError::MalformedSuccess)));
    let missing_id = Ok(response("verified", Some("t"), None));
    assert_eq!(flow().authenticate(&missing_id), FlowStep::Done(Err(CliError::MalformedSuccess)));
    let missing_both = Ok(response("verified", None, None));
    assert_eq!(
        flow().run(&vec![pending(), missing_both]),
        FlowReport { polls: 2, result: Some(Err(CliError::MalformedSuccess)) }
    );
}

#[test]
fn unknown_status_is_pending() {
    let queued = Ok(response("queued", None, None));
    match flow().authenticate(&queued) {
        FlowStep::PollAgain(next) => {
            assert_eq!(next.polls_made(), 1);
            assert_eq!(next.base_url(), "http://localhost:3000");
        }
        FlowStep::Done(r) => panic!("the login ended: {:?}", r),
    }
    let polled = vec![Ok(response("queued", None, None)), verified("t", "u")];
    assert_eq!(
        flow().run(&polled),
        FlowReport { polls: 2, result: Some(Ok(credentials("u", "t"))) }
    );
}

#[test]
fn status_is_matched_exactly() {
    assert_eq!(response("Verified", Some("t"), Some("u")).outcome(), Ok(PollOutcome::Pending));
    assert_eq!(response("expired ", None, None).outcome(), Ok(PollOutcome::Pending));
    assert_eq!(response("", None, None).outcome(), Ok(PollOutcome::Pending));
    assert_eq!(response("expired", Some("t"), Some("u")).outcome(), Ok(PollOutcome::Expired));
    assert_eq!(
        response("verified", Some("t"), Some("u")).outcome(),
        Ok(PollOutcome::Verified(credentials("u", "t")))
    );
    assert_eq!(response("verified", Some("t"), None).outcome(), Err(CliError::MalformedSuccess));
}

#[test]
fn pending_with_fields_stays_pending() {
    assert_eq!(response("pending", Some("t"), Some("u")).outcome(), Ok(PollOutcome::Pending));
}

#[test]
fn failed_poll_ends_the_login_at_once() {
    let failed: Polled = Err(CliError::NetworkError("connection reset".to_string()));
    assert_eq!(
        flow().authenticate(&failed),
        FlowStep::Done(Err(CliError::PollFailed("Network error: connection reset".to_string())))
    );
    let rejected: Polled =
        Err(CliError::ApiResponseError { status: 500, message: "boom".to_string() });
    let polled = vec![pending(), rejected, verified("t", "u")];
    assert_eq!(
        flow().run(&polled),
        FlowReport {
            polls: 2,
            result: Some(Err(CliError::PollFailed("API returned error 500: boom".to_string()))),
        }
    );
}

#[test]
fn stepwise_flow_counts_polls() {
    let mut f = flow();
    for made in 0..59u32 {
        assert_eq!(f.polls_made(), made);
        f = match f.authenticate(&pending()) {
            FlowStep::PollAgain(next) => next,
            FlowStep::Done(r) => panic!("ended after {} polls: {:?}", made + 1, r),
        };
    }
    assert_eq!(f.polls_made(), 59);
    assert_eq!(f.authenticate(&pending()), FlowStep::Done(Err(CliError::AuthTimeout)));
}

#[test]
fn unreachable_service_is_a_network_error() {
    let exchange: Exchange<DeviceAuthRequest> = Exchange::Unreachable("dns failure".to_string());
    assert_eq!(
        flow().request_auth(exchange),
        Err(CliError::NetworkError("dns failure".to_string()))
    );
    let exchange: Exchange<DeviceAuthPollResponse> = Exchange::Unreachable("timeout".to_string());
    assert_eq!(flow().poll(exchange), Err(CliError::NetworkError("timeout".to_string())));
}

#[test]
fn rejected_request_carries_status_and_body() {
    let session = DeviceAuthRequest {
        token: "tok".to_string(),
        verification_url: "http://x/verify".to_string(),
        user_code: "ABCD".to_string(),
    };
    for status in [0u16, 100, 199, 300, 404, 500, 65535] {
        let exchange = Exchange::Answered {
            status,
            body: "nope".to_string(),
            decoded: Some(session.clone()),
        };
        assert_eq!(
            flow().request_auth(exchange),
            Err(CliError::ApiResponseError { status, message: "nope".to_string() })
        );
    }
}

#[test]
fn successful_request_yields_the_session() {
    let session = DeviceAuthRequest {
        token: "tok".to_string(),
        verification_url: "http://x/verify".to_string(),
        user_code: "ABCD".to_string(),
    };
    for status in [200u16, 201, 204, 299] {
        let exchange =
            Exchange::Answered { status, body: "{}".to_string(), decoded: Some(session.clone()) };
        assert_eq!(flow().request_auth(exchange), Ok(session.clone()));
    }
}

#[test]
fn undecodable_body_is_a_network_error() {
    let exchange: Exchange<DeviceAuthPollResponse> =
        Exchange::Answered { status: 200, body: "<html>".to_string(), decoded: None };
    assert_eq!(
        flow().poll(exchange),
        Err(CliError::NetworkError("error decoding response body".to_string()))
    );
    let exchange: Exchange<u8> =
        Exchange::Answered { status: 200, body: "7".to_string(), decoded: Some(7) };
    assert_eq!(exchange.settle(), Ok(7));
}

#[test]
fn successful_poll_yields_the_response() {
    let r = response("pending", None, None);
    let exchange =
        Exchange::Answered { status: 200, body: String::new(), decoded: Some(r.clone()) };
    assert_eq!(flow().poll(exchange), Ok(r));
}
