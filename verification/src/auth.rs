//! The authentication flow controller: device-code request shapes, the
//! tagged decoding of the token endpoint's untagged reply, and the polling
//! state machine with server-directed backoff.
//!
//! The surrounding task does the sleeping and the HTTP posts; every decision
//! between them is made here.

use vstd::prelude::*;
use vstd::string::StringExecFns;
use crate::errors::spec_message;
use crate::errors::FetchError;
use crate::events::count_auth_success;
use crate::events::count_terminal;
use crate::events::lemma_count_auth_success_concat;
use crate::events::lemma_count_terminal_concat;
use crate::events::lemma_counts_upto3;
use crate::events::AppEvent;
use crate::strutil::str_eq_str;

verus! {

/// The device-code endpoint's reply. Created once per login attempt and
/// read-only afterward.
#[derive(Debug, PartialEq)]
pub struct DeviceCodeResponse {
    pub device_code: String,
    pub user_code: String,
    pub verification_uri: String,
    pub expires_in: u64,
    pub interval: u64,
}

impl Clone for DeviceCodeResponse {
    fn clone(&self) -> (r: Self)
        ensures
            r == *self,
    {
        DeviceCodeResponse {
            device_code: self.device_code.clone(),
            user_code: self.user_code.clone(),
            verification_uri: self.verification_uri.clone(),
            expires_in: self.expires_in,
            interval: self.interval,
        }
    }
}

/// The token endpoint's reply on success.
#[derive(Debug, Clone, PartialEq)]
pub struct AccessTokenResponse {
    pub access_token: String,
    pub token_type: String,
    pub scope: String,
}

/// The token endpoint's reply, as an explicit tagged union. On the wire the
/// two shapes are distinguished only by their fields.
#[derive(Debug, Clone, PartialEq)]
pub enum PollResponse {
    Success(AccessTokenResponse),
    Error { error: String, error_description: Option<String> },
}

/// Decodes the token endpoint's untagged reply from its extracted fields,
/// trying the success shape first, then the error shape; neither shape is a
/// parse error.
pub fn decode_poll_reply(
    access_token: Option<String>,
    token_type: Option<String>,
    scope: Option<String>,
    error: Option<String>,
    error_description: Option<String>,
) -> (r: Result<PollResponse, FetchError>)
    ensures
        access_token is Some && token_type is Some && scope is Some
            ==> r == Ok::<PollResponse, FetchError>(PollResponse::Success(AccessTokenResponse {
                access_token: access_token->0,
                token_type: token_type->0,
                scope: scope->0,
            })),
        !(access_token is Some && token_type is Some && scope is Some) && error is Some
            ==> r == Ok::<PollResponse, FetchError>(PollResponse::Error {
                error: error->0,
                error_description: error_description,
            }),
        !(access_token is Some && token_type is Some && scope is Some) && error is None
            ==> (r matches Err(FetchError::Parse(m))
                && m@ == "token reply matches neither the success nor the error shape"@),
{
    if let (Some(at), Some(tt), Some(sc)) = (access_token, token_type, scope) {
        Ok(PollResponse::Success(AccessTokenResponse {
            access_token: at,
            token_type: tt,
            scope: sc,
        }))
    } else if let Some(e) = error {
        Ok(PollResponse::Error { error: e, error_description })
    } else {
        Err(FetchError::Parse(String::from_str(
            "token reply matches neither the success nor the error shape",
        )))
    }
}

/// The poll loop's state: how long to sleep before the next poll.
#[derive(Debug, Clone, Copy, PartialEq, Eq, Structural)]
pub struct PollState {
    pub interval_secs: u64,
}

/// What one poll reply means for the loop.
#[derive(Debug, Clone, PartialEq)]
pub enum PollStep {
    /// Keep polling, with this state.
    Continue(PollState),
    /// Authorization granted: the access token.
    Succeeded(String),
    /// A terminal failure; stop polling.
    Failed(FetchError),
}

/// The first sleep interval: the server-suggested seconds plus a one-second
/// buffer.
pub fn initial_poll_state(interval: u64) -> (st: PollState)
    requires
        interval < u64::MAX,
    ensures
        st.interval_secs == interval + 1,
{
    PollState { interval_secs: interval + 1 }
}

/// The reply keeps the loop waiting at the current interval.
pub open spec fn is_pending_reply(r: PollResponse) -> bool {
    r matches PollResponse::Error { error, .. } && error@ == "authorization_pending"@
}

/// The reply keeps the loop waiting and widens the interval by five seconds.
pub open spec fn is_slow_down_reply(r: PollResponse) -> bool {
    r matches PollResponse::Error { error, .. } && error@ == "slow_down"@
}

/// The reply does not end the loop.
pub open spec fn is_continuing_reply(r: PollResponse) -> bool {
    is_pending_reply(r) || is_slow_down_reply(r)
}

/// The message a terminal error code fails with: the two codes the flow
/// names get their own prose; any other code is carried raw.
pub open spec fn spec_poll_failure(code: Seq<char>) -> Seq<char> {
    if code == "expired_token"@ {
        "Device code expired"@
    } else if code == "access_denied"@ {
        "User denied access"@
    } else {
        code
    }
}

/// One step of the device-flow poll loop. `authorization_pending` continues
/// at the current interval; `slow_down` continues with the interval widened
/// by five seconds; `expired_token`, `access_denied` and any other code are
/// terminal failures carrying their message; a success reply yields the
/// token.
pub fn poll_step(st: &PollState, resp: &PollResponse) -> (r: PollStep)
    requires
        st.interval_secs + 5 <= u64::MAX,
    ensures
        r is Succeeded <==> resp is Success,
        r is Continue <==> is_continuing_reply(*resp),
        resp matches PollResponse::Success(t) ==> r == PollStep::Succeeded(t.access_token),
        is_pending_reply(*resp) ==> r == PollStep::Continue(*st),
        is_slow_down_reply(*resp) ==> r == PollStep::Continue(
            (PollState { interval_secs: (st.interval_secs + 5) as u64 }),
        ),
        resp matches PollResponse::Error { error, .. } ==> (is_continuing_reply(*resp) || (r
            matches PollStep::Failed(e) && e matches FetchError::Auth(m) && m@
            == spec_poll_failure(error@))),
{
    proof {
        reveal_strlit("authorization_pending");
        reveal_strlit("slow_down");
        reveal_strlit("expired_token");
        reveal_strlit("access_denied");
        assert("authorization_pending"@.len() != "slow_down"@.len());
        assert("expired_token"@.len() != "authorization_pending"@.len());
        assert("expired_token"@.len() != "slow_down"@.len());
        assert("access_denied"@.len() != "authorization_pending"@.len());
        assert("access_denied"@.len() != "slow_down"@.len());
    }
    match resp {
        PollResponse::Success(t) => PollStep::Succeeded(t.access_token.clone()),
        PollResponse::Error { error, .. } => {
            if str_eq_str(error.as_str(), "authorization_pending") {
                PollStep::Continue(PollState { interval_secs: st.interval_secs })
            } else if str_eq_str(error.as_str(), "slow_down") {
                PollStep::Continue(PollState { interval_secs: st.interval_secs + 5 })
            } else if str_eq_str(error.as_str(), "expired_token") {
                PollStep::Failed(FetchError::Auth(String::from_str("Device code expired")))
            } else if str_eq_str(error.as_str(), "access_denied") {
                PollStep::Failed(FetchError::Auth(String::from_str("User denied access")))
            } else {
                PollStep::Failed(FetchError::Auth(error.clone()))
            }
        },
    }
}

/// Terminal error codes end the loop at once: neither is a continuing
/// reply, so the step is a failure and no further poll request is issued;
/// each carries its own prose message.
pub proof fn lemma_terminal_code_stops_polling(resp: PollResponse)
    requires
        resp matches PollResponse::Error { error, .. } && (error@ == "expired_token"@
            || error@ == "access_denied"@),
    ensures
        !is_continuing_reply(resp),
        resp matches PollResponse::Error { error, .. } ==> spec_poll_failure(error@) == (
        if error@ == "expired_token"@ {
            "Device code expired"@
        } else {
            "User denied access"@
        }),
{
    reveal_strlit("expired_token");
    reveal_strlit("access_denied");
    reveal_strlit("authorization_pending");
    reveal_strlit("slow_down");
    assert("expired_token"@.len() != "authorization_pending"@.len());
    assert("expired_token"@.len() != "slow_down"@.len());
    assert("access_denied"@.len() != "authorization_pending"@.len());
    assert("access_denied"@.len() != "slow_down"@.len());
    assert("expired_token"@.len() == "access_denied"@.len());
    assert("expired_token"@ != "access_denied"@) by {
        assert("expired_token"@[0] != "access_denied"@[0]);
    }
}

/// How many of the first `k` replies are `slow_down`, each of which widens
/// the interval by five seconds.
pub open spec fn slow_down_count(rs: Seq<PollResponse>, k: int) -> nat
    decreases k,
{
    if k <= 0 {
        0
    } else {
        slow_down_count(rs, k - 1) + if is_slow_down_reply(rs[k - 1]) {
            1nat
        } else {
            0nat
        }
    }
}

/// How a simulated poll loop ended.
#[derive(Debug, Clone, PartialEq)]
pub enum PollRunOutcome {
    /// Authorization was granted: the access token.
    Token(String),
    /// A terminal failure code arrived.
    Failure(FetchError),
    /// Every reply kept the loop waiting; this is the state it would poll
    /// with next.
    Exhausted(PollState),
}

/// The trace of a simulated poll loop: its outcome, and the sleep interval
/// used before each poll that was actually made.
#[derive(Debug, Clone, PartialEq)]
pub struct PollRun {
    pub outcome: PollRunOutcome,
    pub intervals: Vec<u64>,
}

/// Drives the poll loop over a sequence of replies, stopping at the first
/// terminal one. The loop makes no poll past the first terminal reply, the
/// interval used for each poll is the initial one plus five seconds per
/// `slow_down` seen so far, and the outcome reports the terminal reply
/// exactly.
pub fn run_poll_trace(initial: PollState, replies: &Vec<PollResponse>) -> (r: PollRun)
    requires
        initial.interval_secs + 5 * replies@.len() <= u64::MAX,
    ensures
        r.intervals@.len() <= replies@.len(),
        forall|k: int|
            0 <= k < r.intervals@.len() ==> r.intervals@[k] == initial.interval_secs + 5
                * slow_down_count(replies@, k),
        forall|k: int| 0 <= k < r.intervals@.len() - 1 ==> is_continuing_reply(replies@[k]),
        match r.outcome {
            PollRunOutcome::Token(tok) => r.intervals@.len() >= 1 && (replies@[r.intervals@.len()
                - 1] matches PollResponse::Success(t) && tok == t.access_token),
            PollRunOutcome::Failure(e) => r.intervals@.len() >= 1 && !is_continuing_reply(
                replies@[r.intervals@.len() - 1],
            ) && (replies@[r.intervals@.len() - 1] matches PollResponse::Error { error, .. } && e
                matches FetchError::Auth(m) && m@ == spec_poll_failure(error@)),
            PollRunOutcome::Exhausted(st) => r.intervals@.len() == replies@.len() && (forall|k: int|
                0 <= k < replies@.len() ==> is_continuing_reply(replies@[k]))
                && st.interval_secs == initial.interval_secs + 5 * slow_down_count(
                replies@,
                replies@.len() as int,
            ),
        },
{
    let mut st = initial;
    let mut intervals: Vec<u64> = Vec::new();
    let mut i: usize = 0;
    while i < replies.len()
        invariant
            i <= replies@.len(),
            intervals@.len() == i,
            forall|k: int|
                0 <= k < i ==> intervals@[k] == initial.interval_secs + 5 * slow_down_count(
                    replies@,
                    k,
                ),
            forall|k: int| 0 <= k < i ==> is_continuing_reply(replies@[k]),
            st.interval_secs == initial.interval_secs + 5 * slow_down_count(replies@, i as int),
            slow_down_count(replies@, i as int) <= i,
            initial.interval_secs + 5 * replies@.len() <= u64::MAX,
        decreases replies@.len() - i,
    {
        intervals.push(st.interval_secs);
        let step = poll_step(&st, &replies[i]);
        match step {
            PollStep::Continue(st2) => {
                st = st2;
                i = i + 1;
            },
            PollStep::Succeeded(tok) => {
                return PollRun { outcome: PollRunOutcome::Token(tok), intervals };
            },
            PollStep::Failed(e) => {
                return PollRun { outcome: PollRunOutcome::Failure(e), intervals };
            },
        }
    }
    PollRun { outcome: PollRunOutcome::Exhausted(st), intervals }
}

/// Where a login attempt stands. The flow probes the local CLI credential
/// first; only if that fails does it enter the device flow.
#[derive(Debug, Clone, PartialEq)]
pub enum LoginFlow {
    ProbingLocalCredential,
    RequestingDeviceCode,
    AwaitingAuthorization { device_code: String, poll: PollState },
    Authenticated,
    Failed,
}

/// What the surrounding task must do next. Every command is I/O the flow
/// cannot perform itself; the task hands its result back to the next step.
#[derive(Debug, Clone, PartialEq)]
pub enum LoginCmd {
    /// Run the CLI's token-retrieval subcommand.
    ProbeCli,
    /// POST to the device-code endpoint.
    RequestDeviceCode,
    /// Sleep `sleep_secs`, then POST the device code to the token endpoint.
    Poll { device_code: String, sleep_secs: u64 },
    /// Persist this token to the credential store and the shared context.
    StoreToken(String),
}

/// One step of the login flow: the state it moves to, the events it emits
/// in order, and the command the task must perform next, if any.
#[derive(Debug, Clone, PartialEq)]
pub struct LoginStep {
    pub state: LoginFlow,
    pub events: Vec<AppEvent>,
    pub cmd: Option<LoginCmd>,
}

/// Starts a login attempt: announce the CLI probe and ask for it.
pub fn login_start() -> (step: LoginStep)
    ensures
        step.state is ProbingLocalCredential,
        step.events@.len() == 1,
        step.events@[0] matches AppEvent::Log(m) && m@ == "SCANNING FOR GH CLI..."@,
        step.cmd == Some(LoginCmd::ProbeCli),
        count_terminal(step.events@) == 0,
        count_auth_success(step.events@) == 0,
{
    let mut events: Vec<AppEvent> = Vec::new();
    events.push(AppEvent::Log(String::from_str("SCANNING FOR GH CLI...")));
    proof {
        lemma_counts_upto3(events@);
    }
    LoginStep { state: LoginFlow::ProbingLocalCredential, events, cmd: Some(LoginCmd::ProbeCli) }
}

/// Continues after the CLI probe. A token short-circuits the whole flow:
/// it is persisted and announced, and the device flow is never entered. A
/// failure falls back to the device flow.
pub fn login_after_cli(probe: Result<String, String>) -> (step: LoginStep)
    ensures
        probe matches Ok(t) ==> {
            &&& step.state is Authenticated
            &&& step.events@.len() == 2
            &&& step.events@[0] matches AppEvent::Log(m) && m@ == "GH CLI TOKEN FOUND!"@
            &&& step.events@[1] == AppEvent::AuthSuccess(t)
            &&& step.cmd == Some(LoginCmd::StoreToken(t))
            &&& count_terminal(step.events@) == 1
            &&& count_auth_success(step.events@) == 1
        },
        probe matches Err(e) ==> {
            &&& step.state is RequestingDeviceCode
            &&& step.events@.len() == 3
            &&& step.events@[0] matches AppEvent::Log(m) && m@ == "GH CLI not available: "@ + e@
            &&& step.events@[1] matches AppEvent::Log(m) && m@
                == "FALLING BACK TO OAUTH DEVICE FLOW..."@
            &&& step.events@[2] matches AppEvent::Log(m) && m@
                == "EXECUTING PROTOCOL: OAUTH_DEVICE_FLOW"@
            &&& step.cmd == Some(LoginCmd::RequestDeviceCode)
            &&& count_terminal(step.events@) == 0
            &&& count_auth_success(step.events@) == 0
        },
{
    let mut events: Vec<AppEvent> = Vec::new();
    match probe {
        Ok(token) => {
            events.push(AppEvent::Log(String::from_str("GH CLI TOKEN FOUND!")));
            events.push(AppEvent::AuthSuccess(token.clone()));
            proof {
                lemma_counts_upto3(events@);
            }
            LoginStep {
                state: LoginFlow::Authenticated,
                events,
                cmd: Some(LoginCmd::StoreToken(token)),
            }
        },
        Err(e) => {
            let mut m = String::from_str("GH CLI not available: ");
            m.append(e.as_str());
            events.push(AppEvent::Log(m));
            events.push(AppEvent::Log(String::from_str("FALLING BACK TO OAUTH DEVICE FLOW...")));
            events.push(AppEvent::Log(String::from_str("EXECUTING PROTOCOL: OAUTH_DEVICE_FLOW")));
            proof {
                lemma_counts_upto3(events@);
            }
            LoginStep {
                state: LoginFlow::RequestingDeviceCode,
                events,
                cmd: Some(LoginCmd::RequestDeviceCode),
            }
        },
    }
}

/// Continues after the device-code request. On success the full response is
/// surfaced to the UI and polling starts with the server's interval plus a
/// one-second buffer; on failure the flow ends with one failure event.
pub fn login_after_device_code(outcome: Result<DeviceCodeResponse, FetchError>) -> (step: LoginStep)
    requires
        outcome matches Ok(d) ==> d.interval < u64::MAX,
    ensures
        outcome matches Ok(d) ==> {
            &&& step.state matches LoginFlow::AwaitingAuthorization { device_code, poll }
                && device_code == d.device_code && poll.interval_secs == d.interval + 1
            &&& step.events@.len() == 3
            &&& step.events@[0] matches AppEvent::Log(m) && m@ == "DEVICE CODE RECEIVED."@
            &&& step.events@[1] == AppEvent::DeviceCode(d)
            &&& step.events@[2] matches AppEvent::Log(m) && m@ == "POLLING FOR TOKEN..."@
            &&& step.cmd matches Some(LoginCmd::Poll { device_code, sleep_secs })
                && device_code == d.device_code && sleep_secs == d.interval + 1
            &&& count_terminal(step.events@) == 0
            &&& count_auth_success(step.events@) == 0
        },
        outcome matches Err(e) ==> {
            &&& step.state is Failed
            &&& step.events@.len() == 1
            &&& step.events@[0] matches AppEvent::Error(m) && m@ == "NETWORK ERROR: "@
                + spec_message(e)
            &&& step.cmd is None
            &&& count_terminal(step.events@) == 1
            &&& count_auth_success(step.events@) == 0
        },
{
    let mut events: Vec<AppEvent> = Vec::new();
    match outcome {
        Ok(d) => {
            events.push(AppEvent::Log(String::from_str("DEVICE CODE RECEIVED.")));
            events.push(AppEvent::DeviceCode(d.clone()));
            events.push(AppEvent::Log(String::from_str("POLLING FOR TOKEN...")));
            proof {
                lemma_counts_upto3(events@);
            }
            let poll = initial_poll_state(d.interval);
            LoginStep {
                state: LoginFlow::AwaitingAuthorization {
                    device_code: d.device_code.clone(),
                    poll,
                },
                events,
                cmd: Some(
                    LoginCmd::Poll { device_code: d.device_code, sleep_secs: poll.interval_secs },
                ),
            }
        },
        Err(e) => {
            let mut m = String::from_str("NETWORK ERROR: ");
            let msg = e.message();
            m.append(msg.as_str());
            events.push(AppEvent::Error(m));
            proof {
                lemma_counts_upto3(events@);
            }
            LoginStep { state: LoginFlow::Failed, events, cmd: None }
        },
    }
}

/// Continues after one token poll. A continuing reply emits nothing and
/// schedules the next poll at the stepped interval; a success persists and
/// announces the token; a terminal failure ends the flow with exactly one
/// failure event and schedules no further poll.
pub fn login_after_poll(device_code: &String, poll: &PollState, resp: &PollResponse) -> (step:
    LoginStep)
    requires
        poll.interval_secs + 5 <= u64::MAX,
    ensures
        is_pending_reply(*resp) ==> {
            &&& step.state matches LoginFlow::AwaitingAuthorization { device_code: dc, poll: p }
                && dc == device_code && p == *poll
            &&& step.events@.len() == 0
            &&& step.cmd matches Some(LoginCmd::Poll { device_code: dc, sleep_secs }) && dc
                == device_code && sleep_secs == poll.interval_secs
        },
        is_slow_down_reply(*resp) ==> {
            &&& step.state matches LoginFlow::AwaitingAuthorization { device_code: dc, poll: p }
                && dc == device_code && p.interval_secs == poll.interval_secs + 5
            &&& step.events@.len() == 0
            &&& step.cmd matches Some(LoginCmd::Poll { device_code: dc, sleep_secs }) && dc
                == device_code && sleep_secs == poll.interval_secs + 5
        },
        resp matches PollResponse::Success(t) ==> {
            &&& step.state is Authenticated
            &&& step.events@.len() == 3
            &&& step.events@[0] matches AppEvent::Log(m) && m@ == "ACCESS TOKEN ACQUIRED."@
            &&& step.events@[1] matches AppEvent::Log(m) && m@ == "TOKEN ENCRYPTED & STORED."@
            &&& step.events@[2] == AppEvent::AuthSuccess(t.access_token)
            &&& step.cmd == Some(LoginCmd::StoreToken(t.access_token))
        },
        resp matches PollResponse::Error { error, .. } ==> (is_continuing_reply(*resp) || {
            &&& step.state is Failed
            &&& step.events@.len() == 2
            &&& step.events@[0] matches AppEvent::Error(m) && m@ == "AUTH FAILED: "@
                + spec_poll_failure(error@)
            &&& step.events@[1] matches AppEvent::Log(m) && m@ == "ABORTING OAUTH FLOW."@
            &&& step.cmd is None
        }),
        count_auth_success(step.events@) == if resp is Success {
            1nat
        } else {
            0nat
        },
        count_terminal(step.events@) == if resp is Success || !is_continuing_reply(*resp) {
            1nat
        } else {
            0nat
        },
{
    let mut events: Vec<AppEvent> = Vec::new();
    match poll_step(poll, resp) {
        PollStep::Continue(p2) => {
            proof {
                lemma_counts_upto3(events@);
            }
            LoginStep {
                state: LoginFlow::AwaitingAuthorization {
                    device_code: device_code.clone(),
                    poll: p2,
                },
                events,
                cmd: Some(
                    LoginCmd::Poll {
                        device_code: device_code.clone(),
                        sleep_secs: p2.interval_secs,
                    },
                ),
            }
        },
        PollStep::Succeeded(token) => {
            events.push(AppEvent::Log(String::from_str("ACCESS TOKEN ACQUIRED.")));
            events.push(AppEvent::Log(String::from_str("TOKEN ENCRYPTED & STORED.")));
            events.push(AppEvent::AuthSuccess(token.clone()));
            proof {
                lemma_counts_upto3(events@);
            }
            LoginStep {
                state: LoginFlow::Authenticated,
                events,
                cmd: Some(LoginCmd::StoreToken(token)),
            }
        },
        PollStep::Failed(e) => {
            let mut m = String::from_str("AUTH FAILED: ");
            let msg = e.message();
            m.append(msg.as_str());
            events.push(AppEvent::Error(m));
            events.push(AppEvent::Log(String::from_str("ABORTING OAUTH FLOW.")));
            proof {
                lemma_counts_upto3(events@);
            }
            LoginStep { state: LoginFlow::Failed, events, cmd: None }
        },
    }
}

/// The trace of one whole login attempt driven over simulated outcomes:
/// the events emitted in order, the sleep interval before each poll that was
/// actually made, and the state the flow ended in.
#[derive(Debug, Clone, PartialEq)]
pub struct LoginRun {
    pub events: Vec<AppEvent>,
    pub poll_intervals: Vec<u64>,
    pub state: LoginFlow,
}

/// Drives a whole login attempt: the CLI probe first, then — only if the
/// probe failed — the device-code request, then — only if a device code
/// arrived — the poll loop over `replies`, which stops at the first
/// terminal reply. A successful attempt emits exactly one `AuthSuccess`; a
/// failed one emits exactly one `Error`; polls past a terminal reply are
/// never made.
#[verifier::loop_isolation(false)]
pub fn run_login(
    cli: Result<String, String>,
    device: Result<DeviceCodeResponse, FetchError>,
    replies: &Vec<PollResponse>,
) -> (r: LoginRun)
    requires
        device matches Ok(d) ==> d.interval + 1 + 5 * replies@.len() <= u64::MAX,
    ensures
        cli matches Ok(t) ==> {
            &&& r.state is Authenticated
            &&& r.events@.len() == 3
            &&& r.events@[0] matches AppEvent::Log(m) && m@ == "SCANNING FOR GH CLI..."@
            &&& r.events@[1] matches AppEvent::Log(m) && m@ == "GH CLI TOKEN FOUND!"@
            &&& r.events@[2] == AppEvent::AuthSuccess(t)
            &&& r.poll_intervals@.len() == 0
            &&& count_auth_success(r.events@) == 1
            &&& count_terminal(r.events@) == 1
        },
        cli is Err ==> (device matches Err(e) ==> {
            &&& r.state is Failed
            &&& r.events@.len() == 5
            &&& r.events@[4] matches AppEvent::Error(m) && m@ == "NETWORK ERROR: "@
                + spec_message(e)
            &&& r.poll_intervals@.len() == 0
            &&& count_auth_success(r.events@) == 0
            &&& count_terminal(r.events@) == 1
        }),
        cli is Err ==> (device matches Ok(d) ==> {
            &&& r.events@.len() >= 7
            &&& r.events@[5] == AppEvent::DeviceCode(d)
            &&& r.poll_intervals@.len() <= replies@.len()
            &&& (forall|k: int|
                0 <= k < r.poll_intervals@.len() ==> r.poll_intervals@[k] == d.interval + 1 + 5
                    * slow_down_count(replies@, k))
            &&& (forall|k: int|
                0 <= k < r.poll_intervals@.len() - 1 ==> is_continuing_reply(replies@[k]))
            &&& match r.state {
                LoginFlow::Authenticated => {
                    &&& r.poll_intervals@.len() >= 1
                    &&& (replies@[r.poll_intervals@.len() - 1] matches PollResponse::Success(t)
                        && r.events@[r.events@.len() - 1] == AppEvent::AuthSuccess(t.access_token))
                    &&& r.events@.len() == 10
                    &&& (r.events@[7] matches AppEvent::Log(m) && m@ == "ACCESS TOKEN ACQUIRED."@)
                    &&& (r.events@[8] matches AppEvent::Log(m) && m@
                        == "TOKEN ENCRYPTED & STORED."@)
                    &&& count_auth_success(r.events@) == 1
                    &&& count_terminal(r.events@) == 1
                },
                LoginFlow::Failed => {
                    &&& r.poll_intervals@.len() >= 1
                    &&& !is_continuing_reply(replies@[r.poll_intervals@.len() - 1])
                    &&& (replies@[r.poll_intervals@.len() - 1] matches PollResponse::Error {
                        error,
                        ..
                    } && r.events@[7] matches AppEvent::Error(m) && m@ == "AUTH FAILED: "@
                        + spec_poll_failure(error@))
                    &&& (r.events@[8] matches AppEvent::Log(m) && m@ == "ABORTING OAUTH FLOW."@)
                    &&& r.events@.len() == 9
                    &&& count_auth_success(r.events@) == 0
                    &&& count_terminal(r.events@) == 1
                },
                LoginFlow::AwaitingAuthorization { .. } => {
                    &&& r.poll_intervals@.len() == replies@.len()
                    &&& (forall|k: int|
                        0 <= k < replies@.len() ==> is_continuing_reply(replies@[k]))
                    &&& r.events@.len() == 7
                    &&& count_auth_success(r.events@) == 0
                    &&& count_terminal(r.events@) == 0
                },
                _ => false,
            }
        }),
{
    let start = login_start();
    let mut events = start.events;
    let ghost prefix1 = events@;
    let step1 = login_after_cli(cli);
    let mut step1_events = step1.events;
    proof {
        lemma_count_auth_success_concat(prefix1, step1_events@);
        lemma_count_terminal_concat(prefix1, step1_events@);
    }
    events.append(&mut step1_events);
    match step1.state {
        LoginFlow::Authenticated => {
            return LoginRun {
                events,
                poll_intervals: Vec::new(),
                state: LoginFlow::Authenticated,
            };
        },
        _ => {},
    }
    let ghost prefix2 = events@;
    let step2 = login_after_device_code(device);
    let mut step2_events = step2.events;
    proof {
        lemma_count_auth_success_concat(prefix2, step2_events@);
        lemma_count_terminal_concat(prefix2, step2_events@);
    }
    events.append(&mut step2_events);
    let (mut device_code, mut poll) = match step2.state {
        LoginFlow::AwaitingAuthorization { device_code, poll } => (device_code, poll),
        _ => {
            return LoginRun { events, poll_intervals: Vec::new(), state: LoginFlow::Failed };
        },
    };
    let ghost d = device->Ok_0;
    let ghost prefix3 = events@;
    let mut intervals: Vec<u64> = Vec::new();
    let mut i: usize = 0;
    while i < replies.len()
        invariant
            i <= replies@.len(),
            intervals@.len() == i,
            events@ == prefix3,
            prefix3.len() == 7,
            count_auth_success(prefix3) == 0,
            count_terminal(prefix3) == 0,
            device_code@ == d.device_code@,
            forall|k: int|
                0 <= k < i ==> intervals@[k] == d.interval + 1 + 5 * slow_down_count(replies@, k),
            forall|k: int| 0 <= k < i ==> is_continuing_reply(replies@[k]),
            poll.interval_secs == d.interval + 1 + 5 * slow_down_count(replies@, i as int),
            slow_down_count(replies@, i as int) <= i,
            d.interval + 1 + 5 * replies@.len() <= u64::MAX,
        decreases replies@.len() - i,
    {
        intervals.push(poll.interval_secs);
        let step = login_after_poll(&device_code, &poll, &replies[i]);
        match step.state {
            LoginFlow::AwaitingAuthorization { device_code: dc2, poll: p2 } => {
                device_code = dc2;
                poll = p2;
                i = i + 1;
            },
            LoginFlow::Authenticated => {
                let mut step_events = step.events;
                proof {
                    lemma_count_auth_success_concat(prefix3, step_events@);
                    lemma_count_terminal_concat(prefix3, step_events@);
                }
                events.append(&mut step_events);
                return LoginRun {
                    events,
                    poll_intervals: intervals,
                    state: LoginFlow::Authenticated,
                };
            },
            _ => {
                let mut step_events = step.events;
                proof {
                    lemma_count_auth_success_concat(prefix3, step_events@);
                    lemma_count_terminal_concat(prefix3, step_events@);
                }
                events.append(&mut step_events);
                return LoginRun { events, poll_intervals: intervals, state: LoginFlow::Failed };
            },
        }
    }
    LoginRun {
        events,
        poll_intervals: intervals,
        state: LoginFlow::AwaitingAuthorization { device_code, poll },
    }
}

} // verus!
