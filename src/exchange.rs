use vstd::prelude::*;
use vstd::string::StringExecFns;

use crate::device_flow::{is_success, AuthOutcome, FlowError};
use crate::json::{is_json, json_parses, json_str_field, string_field};
use crate::text::concat;

verus! {

/// How many service endpoints are tried, in order.
pub const ENDPOINT_COUNT: usize = 3;

pub open spec fn endpoint_url_of(i: int) -> Seq<char> {
    if i == 0 {
        "https://api.github.com/copilot_internal/v2/token"@
    } else if i == 1 {
        "https://api.github.com/copilot/token"@
    } else {
        "https://api.github.com/user/copilot_internal/token"@
    }
}

/// The address of the `i`-th service endpoint: the internal one first, then
/// the public one, then the user-scoped internal one.
pub fn endpoint_url(i: usize) -> (r: &'static str)
    requires
        i < ENDPOINT_COUNT,
    ensures
        r@ == endpoint_url_of(i as int),
{
    if i == 0 {
        "https://api.github.com/copilot_internal/v2/token"
    } else if i == 1 {
        "https://api.github.com/copilot/token"
    } else {
        "https://api.github.com/user/copilot_internal/token"
    }
}

pub open spec fn endpoint_name_of(i: int) -> Seq<char> {
    if i == 0 {
        "Internal V2"@
    } else if i == 1 {
        "Public"@
    } else {
        "User Internal"@
    }
}

/// The name under which the `i`-th endpoint is reported.
pub fn endpoint_name(i: usize) -> (r: &'static str)
    requires
        i < ENDPOINT_COUNT,
    ensures
        r@ == endpoint_name_of(i as int),
{
    if i == 0 {
        "Internal V2"
    } else if i == 1 {
        "Public"
    } else {
        "User Internal"
    }
}

/// The credential in a successful answer: the first of the fields `token`,
/// `access_token`, `chat_token` and `copilot_token` that holds a string.
pub open spec fn token_in_body(body: Seq<char>) -> Option<Seq<char>> {
    match json_str_field(body, "token"@) {
        Some(t) => Some(t),
        None => match json_str_field(body, "access_token"@) {
            Some(t) => Some(t),
            None => match json_str_field(body, "chat_token"@) {
                Some(t) => Some(t),
                None => json_str_field(body, "copilot_token"@),
            },
        },
    }
}

fn find_token_field(body: &str) -> (r: Option<String>)
    ensures
        crate::token::opt_view(r) == token_in_body(body@),
{
    match string_field(body, "token") {
        Some(t) => Some(t),
        None => match string_field(body, "access_token") {
            Some(t) => Some(t),
            None => match string_field(body, "chat_token") {
                Some(t) => Some(t),
                None => string_field(body, "copilot_token"),
            },
        },
    }
}

/// What one endpoint's answer does to the scan.
pub enum ExchangeStepView {
    Found(Seq<char>),
    Failed(Seq<char>),
    Fatal(FlowError),
}

pub open spec fn exchange_step_of(i: int, status: u16, status_line: Seq<char>, body: Seq<char>) -> ExchangeStepView {
    let name = endpoint_name_of(i);
    if is_success(status) {
        if !json_parses(body) {
            ExchangeStepView::Fatal(FlowError::MalformedResponse)
        } else {
            match token_in_body(body) {
                Some(t) => ExchangeStepView::Found(t),
                None => ExchangeStepView::Failed("No token field found in "@ + name + " response"@),
            }
        }
    } else if status == 404 {
        ExchangeStepView::Failed(name + " endpoint not found"@)
    } else {
        ExchangeStepView::Failed(name + " failed: "@ + status_line + " - "@ + body)
    }
}

/// The scan over the service endpoints: which comes next, whether one gave a
/// credential, and the last error recorded.
#[derive(Debug, Clone)]
pub struct Exchange {
    next: usize,
    done: bool,
    last_error: String,
}

/// The outcome of a scan: the secret to store and the message to report.
#[derive(Debug, Clone)]
pub struct ExchangeResult {
    pub secret: String,
    pub outcome: AuthOutcome,
}

impl Exchange {
    pub closed spec fn next_index(&self) -> int {
        self.next as int
    }

    pub closed spec fn is_done(&self) -> bool {
        self.done
    }

    pub closed spec fn last_error_view(&self) -> Seq<char> {
        self.last_error@
    }

    pub closed spec fn wf(&self) -> bool {
        self.next <= ENDPOINT_COUNT
    }

    /// A scan that starts at the first endpoint.
    pub fn new() -> (r: Exchange)
        ensures
            r.wf(),
            r.next_index() == 0,
            !r.is_done(),
            r.last_error_view() == Seq::<char>::empty(),
    {
        Exchange { next: 0, done: false, last_error: String::new() }
    }

    /// The index of the endpoint to ask next; `None` once one gave a
    /// credential or all were tried.
    pub fn next_endpoint(&self) -> (r: Option<usize>)
        requires
            self.wf(),
        ensures
            r is Some <==> !self.is_done() && self.next_index() < ENDPOINT_COUNT,
            r matches Some(i) ==> i == self.next_index(),
    {
        if !self.done && self.next < ENDPOINT_COUNT {
            Some(self.next)
        } else {
            None
        }
    }

    /// The last error recorded.
    pub fn last_error(&self) -> (r: &str)
        ensures
            r@ == self.last_error_view(),
    {
        self.last_error.as_str()
    }

    /// Takes the answer of the endpoint that `next_endpoint` named. A
    /// credential ends the scan and is returned; a failure is recorded and
    /// the scan moves to the next endpoint; a success whose body is no JSON
    /// is an error.
    pub fn on_response(&mut self, status: u16, status_line: &str, body: &str) -> (r: Result<
        Option<String>,
        FlowError,
    >)
        requires
            old(self).wf(),
            !old(self).is_done(),
            old(self).next_index() < ENDPOINT_COUNT,
        ensures
            final(self).wf(),
            match exchange_step_of(old(self).next_index(), status, status_line@, body@) {
                ExchangeStepView::Found(t) => r matches Ok(Some(s)) && s@ == t && final(self).is_done()
                    && final(self).next_index() == old(self).next_index()
                    && final(self).last_error_view() == old(self).last_error_view(),
                ExchangeStepView::Failed(e) => r matches Ok(None) && !final(self).is_done()
                    && final(self).next_index() == old(self).next_index() + 1
                    && final(self).last_error_view() == e,
                ExchangeStepView::Fatal(f) => r == Err::<Option<String>, FlowError>(f) && *final(self) == *old(self),
            },
    {
        let name = endpoint_name(self.next);
        if 200 <= status && status < 300 {
            if !is_json(body) {
                return Err(FlowError::MalformedResponse);
            }
            match find_token_field(body) {
                Some(t) => {
                    self.done = true;
                    return Ok(Some(t));
                },
                None => {
                    let mut e = concat("No token field found in ", name);
                    e.append(" response");
                    self.last_error = e;
                },
            }
        } else if status == 404 {
            self.last_error = concat(name, " endpoint not found");
        } else {
            let mut e = concat(name, " failed: ");
            e.append(status_line);
            e.append(" - ");
            e.append(body);
            self.last_error = e;
        }
        self.next = self.next + 1;
        Ok(None)
    }

    /// The report for the credential that the last endpoint asked gave.
    pub fn success(&self, secret: String) -> (r: ExchangeResult)
        requires
            self.wf(),
            self.is_done(),
            self.next_index() < ENDPOINT_COUNT,
        ensures
            r.secret@ == secret@,
            r.outcome.success,
            r.outcome.message@ == "Successfully authenticated with GitHub Copilot via "@
                + endpoint_name_of(self.next_index()),
    {
        let message = concat(
            "Successfully authenticated with GitHub Copilot via ",
            endpoint_name(self.next),
        );
        ExchangeResult { secret, outcome: AuthOutcome { success: true, message } }
    }

    /// When no endpoint gave a credential, the provider token itself is kept,
    /// and the report names the last error recorded.
    pub fn fallback(&self, provider_token: &str) -> (r: ExchangeResult)
        ensures
            r.secret@ == provider_token@,
            r.outcome.success,
            r.outcome.message@ == fallback_message_of(self.last_error_view()),
    {
        let message = concat(
            "GitHub authentication complete. Note: Using GitHub token as Copilot endpoints are not accessible. Last error: ",
            self.last_error.as_str(),
        );
        ExchangeResult { secret: String::from_str(provider_token), outcome: AuthOutcome { success: true, message } }
    }
}

pub open spec fn fallback_message_of(last_error: Seq<char>) -> Seq<char> {
    "GitHub authentication complete. Note: Using GitHub token as Copilot endpoints are not accessible. Last error: "@
        + last_error
}

/// Endpoint order decides: an endpoint that answers 404 is recorded as not
/// found and the scan goes on to the next one, and the first endpoint whose
/// successful answer holds a credential field ends the scan with it, the
/// fields being tried in the order `token`, `access_token`, `chat_token`,
/// `copilot_token`.
pub proof fn lemma_exchange_precedence(i: int, status: u16, status_line: Seq<char>, body: Seq<char>)
    requires
        0 <= i < ENDPOINT_COUNT,
    ensures
        status == 404 ==> exchange_step_of(i, status, status_line, body) == ExchangeStepView::Failed(
            endpoint_name_of(i) + " endpoint not found"@,
        ),
        is_success(status) && json_parses(body) && json_str_field(body, "token"@) is None
            && json_str_field(body, "access_token"@) is Some ==> exchange_step_of(
            i,
            status,
            status_line,
            body,
        ) == ExchangeStepView::Found(json_str_field(body, "access_token"@)->Some_0),
{
}

/// When every endpoint fails, the stored secret is the provider token and the
/// report ends with the last error recorded.
pub proof fn lemma_fallback_reports_last_error(last_error: Seq<char>)
    ensures
        ({
            let m = fallback_message_of(last_error);
            m.len() >= last_error.len() && m.subrange(m.len() - last_error.len(), m.len() as int)
                == last_error
        }),
{
    let m = fallback_message_of(last_error);
    assert(m.subrange(m.len() - last_error.len(), m.len() as int) =~= last_error);
}

/// One endpoint's answer: its status, the status as shown to a human, and
/// its body.
pub struct AnswerView {
    pub status: u16,
    pub status_line: Seq<char>,
    pub body: Seq<char>,
}

/// Where a scan ends.
pub enum ScanView {
    /// Endpoint `asked - 1` gave `secret`; no later endpoint is asked.
    Found { secret: Seq<char>, asked: int },
    /// No endpoint gave a credential; `last_error` is the last one recorded.
    Exhausted { last_error: Seq<char> },
    Fatal(FlowError),
}

/// The scan that `next_endpoint` and `on_response` drive, from endpoint `i`
/// on, where `answers[j]` is what endpoint `j` answers.
pub open spec fn scan_from(answers: Seq<AnswerView>, i: int, last_error: Seq<char>) -> ScanView
    decreases ENDPOINT_COUNT - i,
{
    if i < 0 || i >= ENDPOINT_COUNT || i >= answers.len() {
        ScanView::Exhausted { last_error }
    } else {
        let a = answers[i];
        match exchange_step_of(i, a.status, a.status_line, a.body) {
            ExchangeStepView::Found(t) => ScanView::Found { secret: t, asked: i + 1 },
            ExchangeStepView::Failed(e) => scan_from(answers, i + 1, e),
            ExchangeStepView::Fatal(f) => ScanView::Fatal(f),
        }
    }
}

/// A first endpoint that answers 404 and a second whose successful answer
/// has no `token` field but an `access_token` one: the credential is that
/// access token, and the third endpoint is never asked.
pub proof fn lemma_scan_precedence(answers: Seq<AnswerView>)
    requires
        answers.len() == ENDPOINT_COUNT,
        answers[0].status == 404,
        is_success(answers[1].status),
        json_parses(answers[1].body),
        json_str_field(answers[1].body, "token"@) is None,
        json_str_field(answers[1].body, "access_token"@) is Some,
    ensures
        scan_from(answers, 0, Seq::empty()) == (ScanView::Found {
            secret: json_str_field(answers[1].body, "access_token"@)->Some_0,
            asked: 2,
        }),
{
    assert(scan_from(answers, 0, Seq::empty()) == scan_from(answers, 1, endpoint_name_of(0) + " endpoint not found"@));
}

/// When every endpoint fails, the scan ends with the third endpoint's error
/// as the last one recorded, and the fallback report ends with it.
pub proof fn lemma_scan_fallback(answers: Seq<AnswerView>, e0: Seq<char>, e1: Seq<char>, e2: Seq<char>)
    requires
        answers.len() == ENDPOINT_COUNT,
        exchange_step_of(0, answers[0].status, answers[0].status_line, answers[0].body)
            == ExchangeStepView::Failed(e0),
        exchange_step_of(1, answers[1].status, answers[1].status_line, answers[1].body)
            == ExchangeStepView::Failed(e1),
        exchange_step_of(2, answers[2].status, answers[2].status_line, answers[2].body)
            == ExchangeStepView::Failed(e2),
    ensures
        scan_from(answers, 0, Seq::empty()) == (ScanView::Exhausted { last_error: e2 }),
        ({
            let m = fallback_message_of(e2);
            m.len() >= e2.len() && m.subrange(m.len() - e2.len(), m.len() as int) == e2
        }),
{
    assert(scan_from(answers, 3, e2) == (ScanView::Exhausted { last_error: e2 }));
    assert(scan_from(answers, 2, e1) == scan_from(answers, 3, e2));
    assert(scan_from(answers, 1, e0) == scan_from(answers, 2, e1));
    assert(scan_from(answers, 0, Seq::empty()) == scan_from(answers, 1, e0));
    lemma_fallback_reports_last_error(e2);
}

} // verus!
