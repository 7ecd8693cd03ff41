use vstd::prelude::*;
use vstd::string::StringExecFns;

use crate::json::{is_json, json_parses, json_str_field, json_u64_field, string_field, u64_field};
use crate::text::{chars_equal, concat};

verus! {

pub const GITHUB_DEVICE_CODE_URL: &'static str = "https://github.com/login/device/code";

pub const GITHUB_DEVICE_TOKEN_URL: &'static str = "https://github.com/login/oauth/access_token";

pub const GITHUB_CLIENT_ID: &'static str = "Iv1.b507a08c87ecfe98";

pub const DEVICE_SCOPE: &'static str = "copilot";

pub const DEVICE_GRANT_TYPE: &'static str = "urn:ietf:params:oauth:grant-type:device_code";

/// Seconds between polls when the provider suggests none.
pub const DEFAULT_POLL_INTERVAL: u64 = 5;

/// How long after the grant was issued polling may go on, in seconds.
pub const AUTH_TIMEOUT_SECS: u64 = 300;

/// The extra wait that a `slow_down` answer inserts, in seconds.
pub const SLOW_DOWN_EXTRA_SECS: u64 = 5;

/// Whether an HTTP status is a success (2xx).
pub open spec fn is_success(status: u16) -> bool {
    200 <= status < 300
}

/// A failure that ends the attempt as an error rather than as an outcome.
#[derive(Debug, Clone, Copy, PartialEq, Eq, Structural)]
pub enum FlowError {
    /// The device-code request answered with this non-success status.
    UnexpectedStatus(u16),
    /// The provider's answer was not the JSON shape the protocol prescribes.
    MalformedResponse,
}

/// The grant that the provider hands out for one attempt.
#[derive(Debug, Clone)]
pub struct DeviceAuthorizationGrant {
    pub device_code: String,
    pub user_code: String,
    pub verification_uri: String,
    pub interval: u64,
}

pub struct GrantView {
    pub device_code: Seq<char>,
    pub user_code: Seq<char>,
    pub verification_uri: Seq<char>,
    pub interval: u64,
}

impl View for DeviceAuthorizationGrant {
    type V = GrantView;

    open spec fn view(&self) -> GrantView {
        GrantView {
            device_code: self.device_code@,
            user_code: self.user_code@,
            verification_uri: self.verification_uri@,
            interval: self.interval,
        }
    }
}

/// The grant, or the error, that a device-code answer gives.
pub open spec fn grant_result(status: u16, body: Seq<char>) -> Result<GrantView, FlowError> {
    if !is_success(status) {
        Err(FlowError::UnexpectedStatus(status))
    } else if !json_parses(body) {
        Err(FlowError::MalformedResponse)
    } else {
        match (
            json_str_field(body, "user_code"@),
            json_str_field(body, "verification_uri"@),
            json_str_field(body, "device_code"@),
        ) {
            (Some(user), Some(uri), Some(device)) => Ok(
                GrantView {
                    device_code: device,
                    user_code: user,
                    verification_uri: uri,
                    interval: match json_u64_field(body, "interval"@) {
                        Some(i) => i,
                        None => DEFAULT_POLL_INTERVAL,
                    },
                },
            ),
            _ => Err(FlowError::MalformedResponse),
        }
    }
}

/// Reads the provider's answer to the device-code request.
pub fn parse_device_code_response(status: u16, body: &str) -> (r: Result<
    DeviceAuthorizationGrant,
    FlowError,
>)
    ensures
        match grant_result(status, body@) {
            Ok(g) => r is Ok && r->Ok_0@ == g,
            Err(e) => r == Err::<DeviceAuthorizationGrant, FlowError>(e),
        },
{
    if !(200 <= status && status < 300) {
        return Err(FlowError::UnexpectedStatus(status));
    }
    if !is_json(body) {
        return Err(FlowError::MalformedResponse);
    }
    let user_code = string_field(body, "user_code");
    let verification_uri = string_field(body, "verification_uri");
    let device_code = string_field(body, "device_code");
    let interval = match u64_field(body, "interval") {
        Some(i) => i,
        None => DEFAULT_POLL_INTERVAL,
    };
    match (user_code, verification_uri, device_code) {
        (Some(user_code), Some(verification_uri), Some(device_code)) => Ok(
            DeviceAuthorizationGrant { device_code, user_code, verification_uri, interval },
        ),
        _ => Err(FlowError::MalformedResponse),
    }
}

/// The terminal result of an attempt, reported to the caller.
#[derive(Debug, Clone)]
pub struct AuthOutcome {
    pub success: bool,
    pub message: String,
}

/// What an attempt tells its caller.
#[derive(Debug, Clone)]
pub enum AuthEvent {
    Started { verification_uri: String, user_code: String },
    Complete(AuthOutcome),
}

pub enum AuthEventView {
    Started { verification_uri: Seq<char>, user_code: Seq<char> },
    Complete { success: bool, message: Seq<char> },
}

impl View for AuthEvent {
    type V = AuthEventView;

    open spec fn view(&self) -> AuthEventView {
        match self {
            AuthEvent::Started { verification_uri, user_code } => AuthEventView::Started {
                verification_uri: verification_uri@,
                user_code: user_code@,
            },
            AuthEvent::Complete(o) => AuthEventView::Complete {
                success: o.success,
                message: o.message@,
            },
        }
    }
}

pub open spec fn started_event_of(g: GrantView) -> AuthEventView {
    AuthEventView::Started { verification_uri: g.verification_uri, user_code: g.user_code }
}

impl DeviceAuthorizationGrant {
    /// The event that shows the human where to go and what to type.
    pub fn started_event(&self) -> (r: AuthEvent)
        ensures
            r@ == started_event_of(self@),
    {
        AuthEvent::Started {
            verification_uri: self.verification_uri.clone(),
            user_code: self.user_code.clone(),
        }
    }
}

/// The OAuth error codes that the token endpoint may answer with.
#[derive(Debug, Clone)]
pub enum OAuthErrorCode {
    AuthorizationPending,
    SlowDown,
    AccessDenied,
    ExpiredToken,
    Other(String),
}

pub enum OAuthErrorView {
    AuthorizationPending,
    SlowDown,
    AccessDenied,
    ExpiredToken,
    Other(Seq<char>),
}

impl View for OAuthErrorCode {
    type V = OAuthErrorView;

    open spec fn view(&self) -> OAuthErrorView {
        match self {
            OAuthErrorCode::AuthorizationPending => OAuthErrorView::AuthorizationPending,
            OAuthErrorCode::SlowDown => OAuthErrorView::SlowDown,
            OAuthErrorCode::AccessDenied => OAuthErrorView::AccessDenied,
            OAuthErrorCode::ExpiredToken => OAuthErrorView::ExpiredToken,
            OAuthErrorCode::Other(s) => OAuthErrorView::Other(s@),
        }
    }
}

pub open spec fn oauth_error_of(code: Seq<char>) -> OAuthErrorView {
    if code == "authorization_pending"@ {
        OAuthErrorView::AuthorizationPending
    } else if code == "slow_down"@ {
        OAuthErrorView::SlowDown
    } else if code == "access_denied"@ {
        OAuthErrorView::AccessDenied
    } else if code == "expired_token"@ {
        OAuthErrorView::ExpiredToken
    } else {
        OAuthErrorView::Other(code)
    }
}

impl OAuthErrorCode {
    /// The code that an `error` field names, matched exactly.
    pub fn from_code(code: &str) -> (r: OAuthErrorCode)
        ensures
            r@ == oauth_error_of(code@),
    {
        let n = code.unicode_len();
        assert(code@.subrange(0, n as int) =~= code@);
        if chars_equal(code, 0, n, "authorization_pending") {
            OAuthErrorCode::AuthorizationPending
        } else if chars_equal(code, 0, n, "slow_down") {
            OAuthErrorCode::SlowDown
        } else if chars_equal(code, 0, n, "access_denied") {
            OAuthErrorCode::AccessDenied
        } else if chars_equal(code, 0, n, "expired_token") {
            OAuthErrorCode::ExpiredToken
        } else {
            OAuthErrorCode::Other(String::from_str(code))
        }
    }
}

/// The polling half of an attempt: the interval the provider asked for and the
/// moment, in seconds of the caller's clock, after which no poll is sent.
#[derive(Debug, Clone, Copy, PartialEq, Eq, Structural)]
pub struct PollState {
    pub interval: u64,
    pub deadline: u64,
}

pub open spec fn poll_state_of(interval: u64, issued_at: u64) -> PollState {
    PollState { interval, deadline: (issued_at + AUTH_TIMEOUT_SECS) as u64 }
}

/// Whether a poll may still be sent at `now`.
pub open spec fn may_poll(s: PollState, now: u64) -> bool {
    now <= s.deadline
}

/// What to do after one answer of the token endpoint.
#[derive(Debug, Clone)]
pub enum PollStep {
    /// Poll again, after the interval and `extra_delay` more seconds.
    Continue { extra_delay: u64 },
    /// The human authorised the device: exchange this provider token.
    Exchange { access_token: String },
    /// The attempt ends with this outcome.
    Finish(AuthOutcome),
    /// The attempt ends with this error.
    Fatal(FlowError),
}

pub enum PollStepView {
    Continue { extra_delay: u64 },
    Exchange { access_token: Seq<char> },
    Finish { success: bool, message: Seq<char> },
    Fatal(FlowError),
}

impl View for PollStep {
    type V = PollStepView;

    open spec fn view(&self) -> PollStepView {
        match self {
            PollStep::Continue { extra_delay } => PollStepView::Continue { extra_delay: *extra_delay },
            PollStep::Exchange { access_token } => PollStepView::Exchange {
                access_token: access_token@,
            },
            PollStep::Finish(o) => PollStepView::Finish { success: o.success, message: o.message@ },
            PollStep::Fatal(e) => PollStepView::Fatal(*e),
        }
    }
}

/// The step that an answer of the token endpoint calls for. `status_line` is
/// the status as it is shown to a human ("404 Not Found").
pub open spec fn poll_step_of(status: u16, status_line: Seq<char>, body: Seq<char>) -> PollStepView {
    if is_success(status) {
        if !json_parses(body) {
            PollStepView::Fatal(FlowError::MalformedResponse)
        } else {
            match json_str_field(body, "access_token"@) {
                Some(t) => PollStepView::Exchange { access_token: t },
                None => match json_str_field(body, "error"@) {
                    Some(code) => match oauth_error_of(code) {
                        OAuthErrorView::AuthorizationPending => PollStepView::Continue {
                            extra_delay: 0,
                        },
                        OAuthErrorView::SlowDown => PollStepView::Continue {
                            extra_delay: SLOW_DOWN_EXTRA_SECS,
                        },
                        OAuthErrorView::AccessDenied => PollStepView::Finish {
                            success: false,
                            message: "User denied authorization"@,
                        },
                        OAuthErrorView::ExpiredToken => PollStepView::Finish {
                            success: false,
                            message: "Authorization code expired, please try again"@,
                        },
                        OAuthErrorView::Other(c) => PollStepView::Finish {
                            success: false,
                            message: "Authentication failed: "@ + c,
                        },
                    },
                    None => PollStepView::Finish {
                        success: false,
                        message: "Unexpected response from GitHub"@,
                    },
                },
            }
        }
    } else if status >= 500 {
        PollStepView::Continue { extra_delay: 0 }
    } else {
        PollStepView::Finish {
            success: false,
            message: "GitHub API error: "@ + status_line + " - "@ + body,
        }
    }
}

fn failure(message: &str) -> (r: AuthOutcome)
    ensures
        !r.success,
        r.message@ == message@,
{
    AuthOutcome { success: false, message: String::from_str(message) }
}

impl PollState {
    /// Polling for `grant`, issued at `issued_at`, ends five minutes later.
    pub fn new(grant: &DeviceAuthorizationGrant, issued_at: u64) -> (r: PollState)
        requires
            issued_at <= u64::MAX - AUTH_TIMEOUT_SECS,
        ensures
            r == poll_state_of(grant.interval, issued_at),
    {
        PollState { interval: grant.interval, deadline: issued_at + AUTH_TIMEOUT_SECS }
    }

    /// Checked before each wait: past the deadline the attempt ends as
    /// expired, and no further poll is sent.
    pub fn expiry_outcome(&self, now: u64) -> (r: Option<AuthOutcome>)
        ensures
            (r is None) == may_poll(*self, now),
            r matches Some(o) ==> !o.success && o.message@ == "Authentication expired"@,
    {
        if now > self.deadline {
            Some(failure("Authentication expired"))
        } else {
            None
        }
    }

    /// Decides on one answer of the token endpoint.
    pub fn on_token_response(&self, status: u16, status_line: &str, body: &str) -> (r: PollStep)
        ensures
            r@ == poll_step_of(status, status_line@, body@),
    {
        if 200 <= status && status < 300 {
            if !is_json(body) {
                return PollStep::Fatal(FlowError::MalformedResponse);
            }
            match string_field(body, "access_token") {
                Some(access_token) => PollStep::Exchange { access_token },
                None => match string_field(body, "error") {
                    Some(code) => match OAuthErrorCode::from_code(code.as_str()) {
                        OAuthErrorCode::AuthorizationPending => PollStep::Continue { extra_delay: 0 },
                        OAuthErrorCode::SlowDown => PollStep::Continue {
                            extra_delay: SLOW_DOWN_EXTRA_SECS,
                        },
                        OAuthErrorCode::AccessDenied => PollStep::Finish(
                            failure("User denied authorization"),
                        ),
                        OAuthErrorCode::ExpiredToken => PollStep::Finish(
                            failure("Authorization code expired, please try again"),
                        ),
                        OAuthErrorCode::Other(c) => PollStep::Finish(
                            AuthOutcome {
                                success: false,
                                message: concat("Authentication failed: ", c.as_str()),
                            },
                        ),
                    },
                    None => PollStep::Finish(failure("Unexpected response from GitHub")),
                },
            }
        } else if status >= 500 {
            PollStep::Continue { extra_delay: 0 }
        } else {
            let mut message = concat("GitHub API error: ", status_line);
            message.append(" - ");
            message.append(body);
            PollStep::Finish(AuthOutcome { success: false, message })
        }
    }
}

/// The started event shows exactly the user code and verification address
/// that the provider's device-code answer holds.
pub proof fn lemma_started_event_echoes_provider(status: u16, body: Seq<char>)
    requires
        grant_result(status, body) is Ok,
    ensures
        started_event_of(grant_result(status, body)->Ok_0) == (AuthEventView::Started {
            verification_uri: json_str_field(body, "verification_uri"@)->Some_0,
            user_code: json_str_field(body, "user_code"@)->Some_0,
        }),
{
}

/// No poll is sent once five minutes have passed since the grant was issued:
/// the check before each wait ends the attempt from then on.
pub proof fn lemma_polling_stops_at_deadline(interval: u64, issued_at: u64, now: u64)
    requires
        issued_at <= u64::MAX - AUTH_TIMEOUT_SECS,
    ensures
        may_poll(poll_state_of(interval, issued_at), now) <==> now <= issued_at + 300,
{
}

/// `authorization_pending` keeps polling at the same pace, and `slow_down`
/// keeps polling after one extra wait of five seconds; neither ends the
/// attempt, and the poll state, read-only to each step, keeps its interval.
pub proof fn lemma_transient_codes_keep_polling(status: u16, status_line: Seq<char>, body: Seq<char>)
    requires
        is_success(status),
        json_parses(body),
        json_str_field(body, "access_token"@) is None,
    ensures
        json_str_field(body, "error"@) == Some("authorization_pending"@) ==> poll_step_of(
            status,
            status_line,
            body,
        ) == (PollStepView::Continue { extra_delay: 0 }),
        json_str_field(body, "error"@) == Some("slow_down"@) ==> poll_step_of(
            status,
            status_line,
            body,
        ) == (PollStepView::Continue { extra_delay: 5 }),
{
    reveal_strlit("authorization_pending");
    reveal_strlit("slow_down");
    assert("authorization_pending"@.len() != "slow_down"@.len());
}

} // verus!
