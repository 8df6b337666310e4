//! One probe: from what the transport returned to an outcome and the line
//! that reports it.

use vstd::prelude::*;
use vstd::string::*;

verus! {

/// The decimal digit `d` as a character, for `0 <= d <= 9`.
pub open spec fn digit_char(d: int) -> char {
    if d == 0 {
        '0'
    } else if d == 1 {
        '1'
    } else if d == 2 {
        '2'
    } else if d == 3 {
        '3'
    } else if d == 4 {
        '4'
    } else if d == 5 {
        '5'
    } else if d == 6 {
        '6'
    } else if d == 7 {
        '7'
    } else if d == 8 {
        '8'
    } else {
        '9'
    }
}

/// The three decimal digits of a status code, hundreds first.
pub open spec fn status_digits(code: int) -> Seq<char> {
    seq![digit_char(code / 100), digit_char(code / 10 % 10), digit_char(code % 10)]
}

/// `<STATUS_CODE> - <URL>`: the line that reports an HTTP answer.
pub open spec fn status_line(code: int, url: Seq<char>) -> Seq<char> {
    status_digits(code) + seq![' ', '-', ' '] + url
}

/// `ERR - <URL> (<detail>)`: the line that reports a transport failure.
pub open spec fn error_line(url: Seq<char>, detail: Seq<char>) -> Seq<char> {
    seq!['E', 'R', 'R', ' ', '-', ' '] + url + seq![' ', '('] + detail + seq![')']
}

/// Renders a status code through `reqwest::StatusCode`: `from_u16` accepts
/// exactly the codes from 100 to 999, and `as_str` of such a code is its
/// three decimal digits.
#[verifier::external_body]
fn status_text(code: u16) -> (text: String)
    requires
        100 <= code <= 999,
    ensures
        text@ == status_digits(code as int),
{
    reqwest::StatusCode::from_u16(code).unwrap().as_str().to_string()
}

/// An HTTP status code: a number from 100 to 999.
#[derive(Clone, Copy, Debug, PartialEq, Eq)]
pub struct HttpCode {
    code: u16,
}

impl View for HttpCode {
    type V = int;

    closed spec fn view(&self) -> int {
        self.code as int
    }
}

impl HttpCode {
    #[verifier::type_invariant]
    spec fn in_range(self) -> bool {
        100 <= self.code <= 999
    }

    /// Accepts `code` exactly when it has three digits.
    pub fn new(code: u16) -> (made: Option<HttpCode>)
        ensures
            made is Some <==> 100 <= code <= 999,
            made matches Some(c) ==> c@ == code,
    {
        if 100 <= code && code <= 999 {
            Some(HttpCode { code })
        } else {
            None
        }
    }

    /// The code as a number.
    pub fn get(&self) -> (code: u16)
        ensures
            code == self@,
            100 <= code <= 999,
    {
        proof {
            use_type_invariant(self);
        }
        self.code
    }

    /// The code as its three digits.
    pub fn text(&self) -> (text: String)
        ensures
            text@ == status_digits(self@),
    {
        proof {
            use_type_invariant(self);
        }
        status_text(self.code)
    }
}

/// What the transport handed back for one request.
#[derive(Clone, Debug, PartialEq, Eq)]
pub enum Response {
    /// The server answered with this status.
    Status(HttpCode),
    /// No answer: timeout, DNS, TLS, refused connection, malformed URL.
    /// The text is the failure detail.
    Failure(String),
}

/// Mathematical value of a [`Response`].
pub enum ResponseView {
    Status(int),
    Failure(Seq<char>),
}

impl View for Response {
    type V = ResponseView;

    open spec fn view(&self) -> ResponseView {
        match self {
            Response::Status(code) => ResponseView::Status(code@),
            Response::Failure(detail) => ResponseView::Failure(detail@),
        }
    }
}

/// How one probe ended.
#[derive(Clone, Debug, PartialEq, Eq)]
pub enum ProbeStatus {
    /// HTTP 200.
    Success,
    /// Any other HTTP status.
    HttpError(HttpCode),
    /// The request never got an answer.
    TransportError(String),
}

/// Mathematical value of a [`ProbeStatus`].
pub enum StatusView {
    Success,
    HttpError(int),
    TransportError(Seq<char>),
}

impl View for ProbeStatus {
    type V = StatusView;

    open spec fn view(&self) -> StatusView {
        match self {
            ProbeStatus::Success => StatusView::Success,
            ProbeStatus::HttpError(code) => StatusView::HttpError(code@),
            ProbeStatus::TransportError(detail) => StatusView::TransportError(detail@),
        }
    }
}

/// A probed URL together with how the probe ended.
#[derive(Clone, Debug, PartialEq, Eq)]
pub struct ProbeOutcome {
    pub url: String,
    pub status: ProbeStatus,
}

/// Mathematical value of a [`ProbeOutcome`].
pub struct OutcomeView {
    pub url: Seq<char>,
    pub status: StatusView,
}

impl View for ProbeOutcome {
    type V = OutcomeView;

    open spec fn view(&self) -> OutcomeView {
        OutcomeView { url: self.url@, status: self.status@ }
    }
}

/// The single line a probe writes, and where it goes.
#[derive(Clone, Debug, PartialEq, Eq)]
pub enum Emission {
    /// A line for standard output.
    Stdout(String),
    /// A line for standard error.
    Stderr(String),
    /// Nothing is written.
    Silent,
}

/// Mathematical value of an [`Emission`].
pub enum EmissionView {
    Stdout(Seq<char>),
    Stderr(Seq<char>),
    Silent,
}

impl View for Emission {
    type V = EmissionView;

    open spec fn view(&self) -> EmissionView {
        match self {
            Emission::Stdout(line) => EmissionView::Stdout(line@),
            Emission::Stderr(line) => EmissionView::Stderr(line@),
            Emission::Silent => EmissionView::Silent,
        }
    }
}

/// Only a 200 is a success; every other answer, and every failure to get
/// one, is not.
pub open spec fn classify_spec(response: ResponseView) -> StatusView {
    match response {
        ResponseView::Status(code) => if code == 200 {
            StatusView::Success
        } else {
            StatusView::HttpError(code)
        },
        ResponseView::Failure(detail) => StatusView::TransportError(detail),
    }
}

/// The outcome of probing `url` when the transport returns `response`.
pub open spec fn outcome_spec(url: Seq<char>, response: ResponseView) -> OutcomeView {
    OutcomeView { url, status: classify_spec(response) }
}

impl OutcomeView {
    /// Whether the probe counts as a success.
    pub open spec fn is_success(self) -> bool {
        self.status is Success
    }

    /// What the probe writes. A success is reported on standard output unless
    /// `quiet` is set; another HTTP status always is; a transport failure
    /// always goes to standard error.
    pub open spec fn emission(self, quiet: bool) -> EmissionView {
        match self.status {
            StatusView::Success => if quiet {
                EmissionView::Silent
            } else {
                EmissionView::Stdout(status_line(200, self.url))
            },
            StatusView::HttpError(code) => EmissionView::Stdout(status_line(code, self.url)),
            StatusView::TransportError(detail) => EmissionView::Stderr(
                error_line(self.url, detail),
            ),
        }
    }
}

/// Sorts a transport result into success, HTTP error or transport error.
pub fn classify(response: &Response) -> (status: ProbeStatus)
    ensures
        status@ == classify_spec(response@),
{
    match response {
        Response::Status(code) => {
            if code.get() == 200 {
                ProbeStatus::Success
            } else {
                ProbeStatus::HttpError(*code)
            }
        },
        Response::Failure(detail) => ProbeStatus::TransportError(detail.clone()),
    }
}

/// Builds `<digits> - <url>`.
fn render_status_line(digits: String, url: &str) -> (line: String)
    ensures
        line@ == digits@ + seq![' ', '-', ' '] + url@,
{
    proof {
        reveal_strlit(" - ");
    }
    let line = digits.concat(" - ").concat(url);
    assert(" - "@ =~= seq![' ', '-', ' ']);
    line
}

/// Builds `ERR - <url> (<detail>)`.
fn render_error_line(url: &str, detail: &str) -> (line: String)
    ensures
        line@ == error_line(url@, detail@),
{
    proof {
        reveal_strlit("ERR - ");
        reveal_strlit(" (");
        reveal_strlit(")");
    }
    let line = String::from_str("ERR - ").concat(url).concat(" (").concat(detail).concat(")");
    assert("ERR - "@ =~= seq!['E', 'R', 'R', ' ', '-', ' ']);
    assert(" ("@ =~= seq![' ', '(']);
    assert(")"@ =~= seq![')']);
    line
}

impl ProbeOutcome {
    /// Records how probing `url` ended, given what the transport returned.
    pub fn observe(url: &str, response: &Response) -> (outcome: ProbeOutcome)
        ensures
            outcome@ == outcome_spec(url@, response@),
    {
        ProbeOutcome { url: String::from_str(url), status: classify(response) }
    }

    /// Whether this probe counts as a success.
    pub fn is_success(&self) -> (ok: bool)
        ensures
            ok == self@.is_success(),
    {
        match &self.status {
            ProbeStatus::Success => true,
            _ => false,
        }
    }

    /// The line this probe writes, if any, and the stream it belongs to.
    pub fn emission(&self, quiet: bool) -> (emitted: Emission)
        ensures
            emitted@ == self@.emission(quiet),
    {
        match &self.status {
            ProbeStatus::Success => {
                if quiet {
                    Emission::Silent
                } else {
                    Emission::Stdout(render_status_line(status_text(200), self.url.as_str()))
                }
            },
            ProbeStatus::HttpError(code) => Emission::Stdout(
                render_status_line(code.text(), self.url.as_str()),
            ),
            ProbeStatus::TransportError(detail) => Emission::Stderr(
                render_error_line(self.url.as_str(), detail.as_str()),
            ),
        }
    }
}

/// Everything one probe does once the transport has returned: the line to
/// write and whether the probe succeeded.
pub fn process_url(url: &str, response: &Response, quiet: bool) -> (done: (Emission, bool))
    ensures
        done.0@ == outcome_spec(url@, response@).emission(quiet),
        done.1 == outcome_spec(url@, response@).is_success(),
        done.1 <==> response@ == ResponseView::Status(200),
{
    let outcome = ProbeOutcome::observe(url, response);
    let emitted = outcome.emission(quiet);
    let ok = outcome.is_success();
    (emitted, ok)
}

/// Quiet mode silences successes and nothing else: every other outcome
/// writes the same line whether or not quiet is set, and without quiet every
/// outcome writes a line.
pub proof fn law_quiet_silences_only_successes(outcome: OutcomeView)
    ensures
        outcome.is_success() ==> outcome.emission(true) is Silent,
        !outcome.is_success() ==> outcome.emission(true) == outcome.emission(false),
        !(outcome.emission(false) is Silent),
        outcome.emission(true) is Silent ==> outcome.is_success(),
{
}

/// Successes go to standard output and transport failures to standard
/// error: a line on standard error always reports a failed probe.
pub proof fn law_stream_follows_status(outcome: OutcomeView, quiet: bool)
    ensures
        outcome.emission(quiet) is Stderr <==> outcome.status is TransportError,
        outcome.emission(quiet) is Stderr ==> !outcome.is_success(),
{
}

} // verus!
