//! The device flow: the tool asks the service for a login session, shows the
//! user where to confirm it in a browser, and polls until the service says how
//! the login ended.
//!
//! Sending requests, showing text and waiting are the caller's part. This
//! module says which address to call, what an answer means, and after each
//! poll whether to poll again or how the login ended.

use crate::auth::credentials::{loaded_view, Credentials, CredentialsView};
use crate::error::{message_text, CliError, CliErrorView};
use crate::text::{option_text, text_eq};
use vstd::prelude::*;
use vstd::string::StringExecFns;

verus! {

/// How many polls one login may make.
pub const MAX_POLL_ATTEMPTS: u32 = 60;

/// How many seconds to wait before each poll.
pub const POLL_INTERVAL_SECS: u64 = 5;

/// How many seconds a request to the service may take.
pub const REQUEST_TIMEOUT_SECS: u64 = 30;

/// A login session, as the service grants it.
#[derive(Debug, Clone, PartialEq, Eq)]
pub struct DeviceAuthRequest {
    /// The token under which the session is polled.
    pub token: String,
    /// Where the user confirms the login.
    pub verification_url: String,
    /// The code that the user enters there.
    pub user_code: String,
}

/// The state of a login session, as the service reports it.
#[derive(Debug, Clone, PartialEq, Eq)]
pub struct DeviceAuthPollResponse {
    pub status: String,
    pub api_token: Option<String>,
    pub user_id: Option<String>,
}

/// A [`DeviceAuthPollResponse`] with its texts as sequences of characters.
pub struct DeviceAuthPollResponseView {
    pub status: Seq<char>,
    pub api_token: Option<Seq<char>>,
    pub user_id: Option<Seq<char>>,
}

impl View for DeviceAuthPollResponse {
    type V = DeviceAuthPollResponseView;

    open spec fn view(&self) -> DeviceAuthPollResponseView {
        DeviceAuthPollResponseView {
            status: self.status@,
            api_token: option_text(self.api_token),
            user_id: option_text(self.user_id),
        }
    }
}

/// What one poll says of the login.
#[derive(Debug, Clone, PartialEq, Eq)]
pub enum PollOutcome {
    /// Not decided yet.
    Pending,
    /// The user confirmed the login; this is the credential.
    Verified(Credentials),
    /// The session is over and was never confirmed.
    Expired,
}

/// A [`PollOutcome`] with its texts as sequences of characters.
pub enum PollOutcomeView {
    Pending,
    Verified(CredentialsView),
    Expired,
}

impl View for PollOutcome {
    type V = PollOutcomeView;

    open spec fn view(&self) -> PollOutcomeView {
        match self {
            PollOutcome::Pending => PollOutcomeView::Pending,
            PollOutcome::Verified(c) => PollOutcomeView::Verified(c@),
            PollOutcome::Expired => PollOutcomeView::Expired,
        }
    }
}

/// What a poll response means. Only the statuses `verified` and `expired` end
/// a login; every other status, known or not, leaves it pending. A `verified`
/// response that lacks the token or the identity is an error.
pub open spec fn outcome_of(response: DeviceAuthPollResponseView) -> Result<
    PollOutcomeView,
    CliErrorView,
> {
    if response.status == "verified"@ {
        match (response.api_token, response.user_id) {
            (Some(api_token), Some(user_id)) => Ok(
                PollOutcomeView::Verified(CredentialsView { user_id, api_token }),
            ),
            _ => Err(CliErrorView::MalformedSuccess),
        }
    } else if response.status == "expired"@ {
        Ok(PollOutcomeView::Expired)
    } else {
        Ok(PollOutcomeView::Pending)
    }
}

/// The view of an outcome or the error in its place.
pub open spec fn outcome_view(r: Result<PollOutcome, CliError>) -> Result<
    PollOutcomeView,
    CliErrorView,
> {
    match r {
        Ok(o) => Ok(o@),
        Err(e) => Err(e@),
    }
}

impl DeviceAuthPollResponse {
    /// What this response means for the login.
    pub fn outcome(&self) -> (r: Result<PollOutcome, CliError>)
        ensures
            outcome_view(r) == outcome_of(self@),
    {
        if text_eq(self.status.as_str(), "verified") {
            match (&self.api_token, &self.user_id) {
                (Some(api_token), Some(user_id)) => Ok(
                    PollOutcome::Verified(
                        Credentials { user_id: user_id.clone(), api_token: api_token.clone() },
                    ),
                ),
                _ => Err(CliError::MalformedSuccess),
            }
        } else if text_eq(self.status.as_str(), "expired") {
            Ok(PollOutcome::Expired)
        } else {
            Ok(PollOutcome::Pending)
        }
    }
}

/// What came back from one request to the service.
#[derive(Debug, Clone, PartialEq, Eq)]
pub enum Exchange<T> {
    /// No answer came; the text says why.
    Unreachable(String),
    /// The service answered.
    Answered {
        /// The status code of the answer.
        status: u16,
        /// The body of the answer, as text.
        body: String,
        /// The value that the body holds, where it holds one.
        decoded: Option<T>,
    },
}

/// Whether a status code reports success: 200 to 299.
pub open spec fn is_success(status: u16) -> bool {
    200 <= status <= 299
}

/// Whether a status code reports success.
pub fn status_is_success(status: u16) -> (r: bool)
    ensures
        r == is_success(status),
{
    200 <= status && status <= 299
}

/// What an exchange comes to: the value that the service sent, or the error
/// that stands for what happened. The service was not reached; or it answered
/// with a status other than success, and the error carries status and body;
/// or the body of its answer could not be decoded.
pub open spec fn settlement<T>(exchange: Exchange<T>) -> Result<T, CliErrorView> {
    match exchange {
        Exchange::Unreachable(reason) => Err(CliErrorView::NetworkError(reason@)),
        Exchange::Answered { status, body, decoded } => if !is_success(status) {
            Err(CliErrorView::ApiResponseError { status, message: body@ })
        } else {
            match decoded {
                Some(value) => Ok(value),
                None => Err(CliErrorView::NetworkError("error decoding response body"@)),
            }
        },
    }
}

/// A value as it is, or the view of the error in its place.
pub open spec fn settled_view<T>(r: Result<T, CliError>) -> Result<T, CliErrorView> {
    match r {
        Ok(value) => Ok(value),
        Err(e) => Err(e@),
    }
}

impl<T> Exchange<T> {
    /// What this exchange comes to.
    pub fn settle(self) -> (r: Result<T, CliError>)
        ensures
            settled_view(r) == settlement(self),
    {
        match self {
            Exchange::Unreachable(reason) => Err(CliError::NetworkError(reason)),
            Exchange::Answered { status, body, decoded } => {
                if !status_is_success(status) {
                    Err(CliError::ApiResponseError { status, message: body })
                } else {
                    match decoded {
                        Some(value) => Ok(value),
                        None => Err(
                            CliError::NetworkError("error decoding response body".to_string()),
                        ),
                    }
                }
            },
        }
    }
}

/// The view of a poll's result: the response, or the error in its place.
pub open spec fn polled_view(polled: Result<DeviceAuthPollResponse, CliError>) -> Result<
    DeviceAuthPollResponseView,
    CliErrorView,
> {
    match polled {
        Ok(response) => Ok(response@),
        Err(e) => Err(e@),
    }
}

/// How one poll ends the login, if it does. A failed poll ends it at once and
/// is not tried again; so do a confirmed login, an expired session and a
/// `verified` response without its fields. `None`: the login is still pending.
pub open spec fn verdict(polled: Result<DeviceAuthPollResponseView, CliErrorView>) -> Option<
    Result<CredentialsView, CliErrorView>,
> {
    match polled {
        Err(e) => Some(Err(CliErrorView::PollFailed(message_text(e)))),
        Ok(response) => match outcome_of(response) {
            Ok(PollOutcomeView::Verified(c)) => Some(Ok(c)),
            Ok(PollOutcomeView::Expired) => Some(Err(CliErrorView::SessionExpired)),
            Ok(PollOutcomeView::Pending) => None,
            Err(e) => Some(Err(e)),
        },
    }
}

/// One login by device flow: the service's address and the polls made so far.
#[derive(Debug, PartialEq, Eq)]
pub struct DeviceFlowAuth {
    base_url: String,
    polls_made: u32,
}

/// What to do after a poll.
#[derive(Debug, PartialEq, Eq)]
pub enum FlowStep {
    /// Wait [`POLL_INTERVAL_SECS`], poll again, and hand the result to the
    /// login held here.
    PollAgain(DeviceFlowAuth),
    /// The login has ended, with a credential or with an error.
    Done(Result<Credentials, CliError>),
}

/// How a login went on a given run of poll results.
#[derive(Debug, PartialEq, Eq)]
pub struct FlowReport {
    /// How many of the results were used.
    pub polls: usize,
    /// How the login ended; `None` where the results ran out before it did.
    pub result: Option<Result<Credentials, CliError>>,
}

/// The views of a run of poll results.
pub open spec fn polled_views(polled: Seq<Result<DeviceAuthPollResponse, CliError>>) -> Seq<
    Result<DeviceAuthPollResponseView, CliErrorView>,
> {
    polled.map_values(|p: Result<DeviceAuthPollResponse, CliError>| polled_view(p))
}

/// The view of how a login ended, if it did.
pub open spec fn ending_view(r: Option<Result<Credentials, CliError>>) -> Option<
    Result<CredentialsView, CliErrorView>,
> {
    match r {
        Some(r) => Some(loaded_view(r)),
        None => None,
    }
}

/// Where a login stands after the poll results from index `from` on, when
/// `made` polls were made before them: the index after the last result used,
/// and how the login ended, if it did.
pub open spec fn flow_from(
    polled: Seq<Result<DeviceAuthPollResponseView, CliErrorView>>,
    from: int,
    made: int,
) -> (int, Option<Result<CredentialsView, CliErrorView>>)
    decreases polled.len() - from,
{
    if from < 0 || from >= polled.len() {
        (from, None)
    } else {
        match verdict(polled[from]) {
            Some(r) => (from + 1, Some(r)),
            None => if made + 1 >= MAX_POLL_ATTEMPTS {
                (from + 1, Some(Err(CliErrorView::AuthTimeout)))
            } else {
                flow_from(polled, from + 1, made + 1)
            },
        }
    }
}

impl DeviceFlowAuth {
    #[verifier::type_invariant]
    spec fn within_limit(self) -> bool {
        self.polls_made < MAX_POLL_ATTEMPTS
    }

    /// The address of the service.
    pub closed spec fn spec_base_url(&self) -> Seq<char> {
        self.base_url@
    }

    /// How many polls this login has made.
    pub closed spec fn spec_polls_made(&self) -> nat {
        self.polls_made as nat
    }

    /// A login that has made no poll yet.
    pub fn new(base_url: String) -> (r: Self)
        ensures
            r.spec_base_url() == base_url@,
            r.spec_polls_made() == 0,
    {
        DeviceFlowAuth { base_url, polls_made: 0 }
    }

    /// The address of the service.
    pub fn base_url(&self) -> (r: &String)
        ensures
            r@ == self.spec_base_url(),
    {
        &self.base_url
    }

    /// How many polls this login has made: fewer than [`MAX_POLL_ATTEMPTS`].
    pub fn polls_made(&self) -> (r: u32)
        ensures
            r == self.spec_polls_made(),
            r < MAX_POLL_ATTEMPTS,
    {
        proof {
            use_type_invariant(self);
        }
        self.polls_made
    }

    /// How many seconds of waiting this login may still ask for: the
    /// interval before each of the polls that it has left.
    pub fn wait_left_secs(&self) -> (r: u64)
        ensures
            r == (MAX_POLL_ATTEMPTS - self.spec_polls_made()) * POLL_INTERVAL_SECS,
            r <= MAX_POLL_ATTEMPTS * POLL_INTERVAL_SECS,
    {
        proof {
            use_type_invariant(self);
        }
        ((MAX_POLL_ATTEMPTS - self.polls_made) as u64) * POLL_INTERVAL_SECS
    }

    /// The address to post to for a new login session.
    pub fn request_url(&self) -> (r: String)
        ensures
            r@ == self.spec_base_url() + "/cli-auth/request"@,
    {
        let mut r = self.base_url.clone();
        r.append("/cli-auth/request");
        r
    }

    /// The address to get for the state of the session polled under `token`.
    pub fn poll_url(&self, token: &str) -> (r: String)
        ensures
            r@ == self.spec_base_url() + "/cli-auth/poll/"@ + token@,
    {
        let mut r = self.base_url.clone();
        r.append("/cli-auth/poll/");
        r.append(token);
        r
    }

    /// The session that the service granted, or why there is none.
    pub fn request_auth(&self, exchange: Exchange<DeviceAuthRequest>) -> (r: Result<
        DeviceAuthRequest,
        CliError,
    >)
        ensures
            settled_view(r) == settlement(exchange),
    {
        exchange.settle()
    }

    /// The state that the service reported for the session, or why there is
    /// none.
    pub fn poll(&self, exchange: Exchange<DeviceAuthPollResponse>) -> (r: Result<
        DeviceAuthPollResponse,
        CliError,
    >)
        ensures
            settled_view(r) == settlement(exchange),
    {
        exchange.settle()
    }

    /// Takes the result of one more poll and says what follows: the login's
    /// end, where this poll decides it or was the last one allowed, and
    /// otherwise the login to hand the next poll to.
    pub fn authenticate(self, polled: &Result<DeviceAuthPollResponse, CliError>) -> (step:
        FlowStep)
        ensures
            match verdict(polled_view(*polled)) {
                Some(ending) => step matches FlowStep::Done(r) && loaded_view(r) == ending,
                None => if self.spec_polls_made() + 1 < MAX_POLL_ATTEMPTS {
                    step matches FlowStep::PollAgain(next) && next.spec_polls_made()
                        == self.spec_polls_made() + 1 && next.spec_base_url()
                        == self.spec_base_url()
                } else {
                    step matches FlowStep::Done(r) && loaded_view(r) == Err::<
                        CredentialsView,
                        CliErrorView,
                    >(CliErrorView::AuthTimeout)
                },
            },
    {
        proof {
            use_type_invariant(&self);
        }
        match polled {
            Err(e) => FlowStep::Done(Err(CliError::PollFailed(e.message()))),
            Ok(response) => match response.outcome() {
                Ok(PollOutcome::Verified(credentials)) => FlowStep::Done(Ok(credentials)),
                Ok(PollOutcome::Expired) => FlowStep::Done(Err(CliError::SessionExpired)),
                Err(e) => FlowStep::Done(Err(e)),
                Ok(PollOutcome::Pending) => {
                    if self.polls_made + 1 < MAX_POLL_ATTEMPTS {
                        FlowStep::PollAgain(
                            DeviceFlowAuth {
                                base_url: self.base_url,
                                polls_made: self.polls_made + 1,
                            },
                        )
                    } else {
                        FlowStep::Done(Err(CliError::AuthTimeout))
                    }
                },
            },
        }
    }

    /// Runs the login over poll results that are already at hand, in their
    /// order, and stops at the one that ends it.
    pub fn run(self, polled: &Vec<Result<DeviceAuthPollResponse, CliError>>) -> (report:
        FlowReport)
        ensures
            report.polls as int == flow_from(
                polled_views(polled@),
                0,
                self.spec_polls_made() as int,
            ).0,
            ending_view(report.result) == flow_from(
                polled_views(polled@),
                0,
                self.spec_polls_made() as int,
            ).1,
    {
        let ghost views = polled_views(polled@);
        let ghost made0 = self.spec_polls_made() as int;
        let mut flow = self;
        let mut i: usize = 0;
        while i < polled.len()
            invariant
                i <= polled.len(),
                views == polled_views(polled@),
                made0 == self.spec_polls_made(),
                flow_from(views, i as int, flow.spec_polls_made() as int) == flow_from(
                    views,
                    0,
                    made0,
                ),
            decreases polled.len() - i,
        {
            assert(views[i as int] == polled_view(polled@[i as int]));
            match flow.authenticate(&polled[i]) {
                FlowStep::Done(r) => {
                    return FlowReport { polls: i + 1, result: Some(r) };
                },
                FlowStep::PollAgain(next) => {
                    flow = next;
                    i = i + 1;
                },
            }
        }
        FlowReport { polls: i, result: None }
    }
}

/// A `verified` response that lacks the token or the identity ends the login
/// with [`CliError::MalformedSuccess`]; it is never taken for a credential.
pub proof fn law_verified_without_fields_is_malformed(response: DeviceAuthPollResponseView)
    requires
        response.status == "verified"@,
        response.api_token is None || response.user_id is None,
    ensures
        outcome_of(response) == Err::<PollOutcomeView, CliErrorView>(
            CliErrorView::MalformedSuccess,
        ),
        verdict(Ok(response)) == Some(
            Err::<CredentialsView, CliErrorView>(CliErrorView::MalformedSuccess),
        ),
{
}

/// A response whose status is neither `verified` nor `expired` leaves the
/// login pending, whatever the status says.
pub proof fn law_other_status_is_pending(response: DeviceAuthPollResponseView)
    requires
        response.status != "verified"@,
        response.status != "expired"@,
    ensures
        outcome_of(response) == Ok::<PollOutcomeView, CliErrorView>(PollOutcomeView::Pending),
        verdict(Ok(response)) is None,
{
}

/// A login uses no more poll results than it has polls left, and never goes
/// back.
pub proof fn law_polls_are_bounded(
    polled: Seq<Result<DeviceAuthPollResponseView, CliErrorView>>,
    from: int,
    made: int,
)
    requires
        0 <= from,
        0 <= made < MAX_POLL_ATTEMPTS,
    ensures
        from <= flow_from(polled, from, made).0 <= from + (MAX_POLL_ATTEMPTS - made),
        flow_from(polled, from, made).0 <= polled.len() || from > polled.len(),
        flow_from(polled, from, made).1 is None ==> flow_from(polled, from, made).0
            >= polled.len(),
    decreases polled.len() - from,
{
    if from < polled.len() && verdict(polled[from]) is None && made + 1 < MAX_POLL_ATTEMPTS {
        law_polls_are_bounded(polled, from + 1, made + 1);
    }
}

/// The first poll result that ends the login decides it: the results before
/// it, all pending, are used up, and the login ends as that result says, after
/// exactly that many polls.
pub proof fn law_first_ending_decides(
    polled: Seq<Result<DeviceAuthPollResponseView, CliErrorView>>,
    from: int,
    made: int,
    at: int,
)
    requires
        0 <= from <= at < polled.len(),
        0 <= made,
        made + (at - from) < MAX_POLL_ATTEMPTS,
        forall|j: int| from <= j < at ==> verdict(#[trigger] polled[j]) is None,
        verdict(polled[at]) is Some,
    ensures
        flow_from(polled, from, made) == (at + 1, verdict(polled[at])),
    decreases at - from,
{
    if from < at {
        assert(verdict(polled[from]) is None);
        law_first_ending_decides(polled, from + 1, made + 1, at);
    }
}

/// A login whose polls all stay pending ends with [`CliError::AuthTimeout`]
/// when the last poll allowed has been made, and not before.
pub proof fn law_all_pending_times_out(
    polled: Seq<Result<DeviceAuthPollResponseView, CliErrorView>>,
    from: int,
    made: int,
)
    requires
        0 <= from,
        0 <= made < MAX_POLL_ATTEMPTS,
        from + (MAX_POLL_ATTEMPTS - made) <= polled.len(),
        forall|j: int|
            from <= j < from + (MAX_POLL_ATTEMPTS - made) ==> verdict(#[trigger] polled[j])
                is None,
    ensures
        flow_from(polled, from, made) == (
            from + (MAX_POLL_ATTEMPTS - made),
            Some(Err::<CredentialsView, CliErrorView>(CliErrorView::AuthTimeout)),
        ),
    decreases MAX_POLL_ATTEMPTS - made,
{
    assert(verdict(polled[from]) is None);
    if made + 1 < MAX_POLL_ATTEMPTS {
        law_all_pending_times_out(polled, from + 1, made + 1);
    }
}

} // verus!
