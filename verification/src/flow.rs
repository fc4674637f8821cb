//! The callback route's state machine: classifying the query parameters
//! of a visit, planning what the visit does (serve the landing page,
//! run a code exchange, or report an error), and turning the outcome of a
//! token-endpoint call into the page to serve and the value to persist.

use vstd::prelude::*;

use crate::pages::Page;
use crate::pages::PageView;
use crate::pages::landing_page;
use crate::pages::landing_page_spec;
use crate::pages::message_page;
use crate::pages::message_page_spec;
use crate::pages::success_page;
use crate::pages::success_page_spec;
use crate::request::Context;
use crate::request::ContextView;
use crate::request::code_exchange_form;
use crate::request::code_form_spec;
use crate::text::str_eq;
use crate::token::TokenSet;
use crate::token::TokenSetView;
use crate::token::parse_token_response;
use crate::token::parse_token_response_spec;

verus! {

pub open spec fn opt_str_view(o: Option<String>) -> Option<Seq<char>> {
    match o {
        Some(s) => Some(s@),
        None => None,
    }
}

/// What one visit to the callback route carries.
pub enum Callback {
    /// No query parameters: the initial visit.
    Landing,
    /// The provider redirected back with an authorization code.
    Code(String),
    /// The provider redirected back with an error.
    ProviderError { error: String, description: Option<String> },
    /// Neither a code nor an error: an unexpected visit.
    Unrecognized,
}

pub ghost enum CallbackView {
    Landing,
    Code(Seq<char>),
    ProviderError { error: Seq<char>, description: Option<Seq<char>> },
    Unrecognized,
}

impl View for Callback {
    type V = CallbackView;

    open spec fn view(&self) -> CallbackView {
        match self {
            Callback::Landing => CallbackView::Landing,
            Callback::Code(c) => CallbackView::Code(c@),
            Callback::ProviderError { error, description } => CallbackView::ProviderError {
                error: error@,
                description: match description {
                    Some(d) => Some(d@),
                    None => None,
                },
            },
            Callback::Unrecognized => CallbackView::Unrecognized,
        }
    }
}

/// Value of the first query parameter named `key`, if any.
pub open spec fn lookup_spec(q: Seq<(Seq<char>, Seq<char>)>, key: Seq<char>) -> Option<Seq<char>>
    decreases q.len(),
{
    if q.len() == 0 {
        None
    } else if q[0].0 == key {
        Some(q[0].1)
    } else {
        lookup_spec(q.drop_first(), key)
    }
}

/// Finds the first query parameter named `key`.
pub fn lookup(q: &Vec<(String, String)>, key: &str) -> (r: Option<String>)
    ensures
        opt_str_view(r) == lookup_spec(q.deep_view(), key@),
{
    let n = q.len();
    let mut i: usize = 0;
    proof {
        assert(q.deep_view().skip(0) =~= q.deep_view());
    }
    while i < n
        invariant
            0 <= i <= n,
            n == q.len(),
            lookup_spec(q.deep_view(), key@) == lookup_spec(q.deep_view().skip(i as int), key@),
        decreases n - i,
    {
        if str_eq(q[i].0.as_str(), key) {
            proof {
                assert(q.deep_view().skip(i as int)[0] == (q[i as int].0@, q[i as int].1@));
            }
            return Some(q[i].1.clone());
        }
        proof {
            assert(q.deep_view().skip(i as int)[0] == (q[i as int].0@, q[i as int].1@));
            assert(q.deep_view().skip(i as int).drop_first() =~= q.deep_view().skip(i + 1));
        }
        i = i + 1;
    }
    proof {
        assert(q.deep_view().skip(i as int).len() == 0);
    }
    None
}

/// Which of the four visit shapes the query parameters form: none at all,
/// `code` present, otherwise `error` present (with its optional
/// description), otherwise unrecognized.
pub open spec fn classify_spec(q: Seq<(Seq<char>, Seq<char>)>) -> CallbackView {
    if q.len() == 0 {
        CallbackView::Landing
    } else if lookup_spec(q, "code"@) is Some {
        CallbackView::Code(lookup_spec(q, "code"@)->0)
    } else if lookup_spec(q, "error"@) is Some {
        CallbackView::ProviderError {
            error: lookup_spec(q, "error"@)->0,
            description: lookup_spec(q, "error_description"@),
        }
    } else {
        CallbackView::Unrecognized
    }
}

/// Classifies one visit, as `classify_spec` describes.
pub fn classify(q: &Vec<(String, String)>) -> (c: Callback)
    ensures
        c@ == classify_spec(q.deep_view()),
{
    if q.len() == 0 {
        return Callback::Landing;
    }
    if let Some(code) = lookup(q, "code") {
        return Callback::Code(code);
    }
    if let Some(error) = lookup(q, "error") {
        let description = lookup(q, "error_description");
        return Callback::ProviderError { error, description };
    }
    Callback::Unrecognized
}

/// What a classified visit does next.
pub enum Action {
    /// Serve this page; nothing else happens.
    Respond(Page),
    /// Post `form` to the token endpoint and serve the page its outcome
    /// gives.
    Exchange { code: String, form: Vec<(String, String)> },
}

pub ghost enum ActionView {
    Respond(PageView),
    Exchange { code: Seq<char>, form: Seq<(Seq<char>, Seq<char>)> },
}

impl View for Action {
    type V = ActionView;

    open spec fn view(&self) -> ActionView {
        match self {
            Action::Respond(p) => ActionView::Respond(p@),
            Action::Exchange { code, form } => ActionView::Exchange {
                code: code@,
                form: form.deep_view(),
            },
        }
    }
}

/// The plan for one visit: the landing page for an empty query, a code
/// exchange with the authorization-code form when a code is present, the
/// provider's error (with `no description` standing in for a missing
/// description) when an error is present, and a generic failure page
/// otherwise.
pub open spec fn plan_spec(c: ContextView, q: Seq<(Seq<char>, Seq<char>)>) -> ActionView {
    match classify_spec(q) {
        CallbackView::Landing => ActionView::Respond(landing_page_spec(c)),
        CallbackView::Code(code) => ActionView::Exchange { code, form: code_form_spec(c, code) },
        CallbackView::ProviderError { error, description } => ActionView::Respond(
            message_page_spec(
                error,
                match description {
                    Some(d) => d,
                    None => "no description"@,
                },
            ),
        ),
        CallbackView::Unrecognized => ActionView::Respond(
            message_page_spec("Something went wrong"@, "dunno what"@),
        ),
    }
}

/// Plans one visit to the callback route, as `plan_spec` describes.
pub fn plan(c: &Context, q: &Vec<(String, String)>) -> (a: Action)
    ensures
        a@ == plan_spec(c@, q.deep_view()),
{
    match classify(q) {
        Callback::Landing => Action::Respond(landing_page(c)),
        Callback::Code(code) => {
            let form = code_exchange_form(c, code.as_str());
            Action::Exchange { code, form }
        },
        Callback::ProviderError { error, description } => {
            let body = match description {
                Some(d) => d,
                None => String::from_str("no description"),
            };
            Action::Respond(message_page(error.as_str(), body.as_str()))
        },
        Callback::Unrecognized => Action::Respond(
            message_page("Something went wrong", "dunno what"),
        ),
    }
}

/// The two terminal failure kinds of a token-endpoint call: the request
/// could not be sent (or came back without HTTP success), or the response
/// body did not parse.
#[derive(Clone, Copy, Debug, PartialEq, Eq, Structural)]
pub enum ExchangeError {
    Transport,
    Parse,
}

/// What came back over the wire from one token-endpoint call.
pub enum HttpOutcome {
    /// The request could not be sent or no response was received.
    SendFailed,
    /// A response was received with this HTTP status and body.
    Received { status: u16, body: String },
}

pub ghost enum HttpOutcomeView {
    SendFailed,
    Received { status: int, body: Seq<char> },
}

impl View for HttpOutcome {
    type V = HttpOutcomeView;

    open spec fn view(&self) -> HttpOutcomeView {
        match self {
            HttpOutcome::SendFailed => HttpOutcomeView::SendFailed,
            HttpOutcome::Received { status, body } => HttpOutcomeView::Received {
                status: *status as int,
                body: body@,
            },
        }
    }
}

/// The token set a call's outcome yields, or which of the two failures it
/// is: a send failure or a non-success status is a transport failure, and
/// a success status with a body outside the response grammar is a parse
/// failure.
pub open spec fn exchange_result_spec(o: HttpOutcomeView) -> Result<TokenSetView, ExchangeError> {
    match o {
        HttpOutcomeView::SendFailed => Err(ExchangeError::Transport),
        HttpOutcomeView::Received { status, body } => {
            if !(200 <= status < 300) {
                Err(ExchangeError::Transport)
            } else {
                match parse_token_response_spec(body) {
                    Some(t) => Ok(t),
                    None => Err(ExchangeError::Parse),
                }
            }
        },
    }
}

/// Interprets one token-endpoint outcome, as `exchange_result_spec`
/// describes.
pub fn interpret_token_response(o: &HttpOutcome) -> (r: Result<TokenSet, ExchangeError>)
    ensures
        match r {
            Ok(t) => exchange_result_spec(o@) == Ok::<TokenSetView, ExchangeError>(t@),
            Err(e) => exchange_result_spec(o@) == Err::<TokenSetView, ExchangeError>(e),
        },
{
    match o {
        HttpOutcome::SendFailed => Err(ExchangeError::Transport),
        HttpOutcome::Received { status, body } => {
            if !(200 <= *status && *status < 300) {
                return Err(ExchangeError::Transport);
            }
            match parse_token_response(body.as_str()) {
                Some(t) => Ok(t),
                None => Err(ExchangeError::Parse),
            }
        },
    }
}

/// The page that one exchange outcome renders and the refresh-token value
/// it persists: on success the success page and the new refresh token, on
/// a transport failure the `Failed to send request.` page and nothing, on
/// a parse failure the `Failed to parse response.` page and nothing.
pub open spec fn exchange_step_spec(o: HttpOutcomeView) -> (PageView, Option<Seq<char>>) {
    match exchange_result_spec(o) {
        Ok(t) => (success_page_spec(t.access_token, t.refresh_token), Some(t.refresh_token)),
        Err(ExchangeError::Transport) => (
            message_page_spec("Request Failed"@, "Failed to send request."@),
            None,
        ),
        Err(ExchangeError::Parse) => (
            message_page_spec("Request Failed"@, "Failed to parse response."@),
            None,
        ),
    }
}

/// Completes a code exchange: turns the wire outcome into the page to
/// serve and the refresh token to persist, as `exchange_step_spec`
/// describes.
pub fn complete_exchange(o: &HttpOutcome) -> (r: (Page, Option<String>))
    ensures
        r.0@ == exchange_step_spec(o@).0,
        opt_str_view(r.1) == exchange_step_spec(o@).1,
{
    match interpret_token_response(o) {
        Ok(t) => {
            let page = success_page(t.access_token.as_str(), t.refresh_token.as_str());
            (page, Some(t.refresh_token))
        },
        Err(ExchangeError::Transport) => (
            message_page("Request Failed", "Failed to send request."),
            None,
        ),
        Err(ExchangeError::Parse) => (
            message_page("Request Failed", "Failed to parse response."),
            None,
        ),
    }
}

/// Model of the persisted refresh-token store: at most one value, absent
/// until a flow has succeeded.
pub struct StoreModel {
    pub refresh_token: Option<String>,
}

impl StoreModel {
    /// Records what one flow step persists: a new value overwrites the
    /// stored one, no value leaves it untouched.
    pub fn apply_persist(&mut self, persist: Option<String>)
        ensures
            opt_str_view(final(self).refresh_token) == match opt_str_view(persist) {
                Some(v) => Some(v),
                None => opt_str_view(old(self).refresh_token),
            },
    {
        match persist {
            Some(v) => {
                self.refresh_token = Some(v);
            },
            None => {},
        }
    }
}

/// After a successful exchange the persisted value is exactly the
/// `refresh_token` field of the token set just received — never the
/// access token's field, and never a stale value — and a failed exchange
/// persists nothing, leaving the store as it was.
pub proof fn lemma_persisted_tracks_latest_exchange(o: HttpOutcomeView, stored: Option<Seq<char>>)
    ensures
        exchange_result_spec(o) matches Ok(t) ==> exchange_step_spec(o).1 == Some(t.refresh_token),
        exchange_result_spec(o) is Err ==> exchange_step_spec(o).1 == None::<Seq<char>>,
{
}

/// The persisted value after a run of exchange outcomes that started from
/// `init`: each successful exchange overwrites it with its refresh token,
/// each failed one leaves it alone.
pub open spec fn store_after(
    init: Option<Seq<char>>,
    outcomes: Seq<HttpOutcomeView>,
) -> Option<Seq<char>>
    decreases outcomes.len(),
{
    if outcomes.len() == 0 {
        init
    } else {
        match exchange_result_spec(outcomes.last()) {
            Ok(t) => Some(t.refresh_token),
            Err(_) => store_after(init, outcomes.drop_last()),
        }
    }
}

/// Index of the most recent successful exchange of a run, if any.
pub open spec fn last_success(outcomes: Seq<HttpOutcomeView>) -> Option<int>
    decreases outcomes.len(),
{
    if outcomes.len() == 0 {
        None
    } else if exchange_result_spec(outcomes.last()) is Ok {
        Some(outcomes.len() - 1)
    } else {
        last_success(outcomes.drop_last())
    }
}

/// Over any run of exchange outcomes the store holds exactly one value,
/// and it always reflects the most recent successful exchange: after the
/// run it equals that exchange's refresh token, older values having been
/// overwritten; while no exchange has succeeded it is still the initial
/// value.
pub proof fn lemma_store_reflects_most_recent_success(
    init: Option<Seq<char>>,
    outcomes: Seq<HttpOutcomeView>,
)
    ensures
        match last_success(outcomes) {
            Some(k) => 0 <= k < outcomes.len() && exchange_result_spec(outcomes[k]) is Ok
                && store_after(init, outcomes) == Some(
                (exchange_result_spec(outcomes[k])->Ok_0).refresh_token,
            ) && forall|j: int|
                k < j < outcomes.len() ==> !(exchange_result_spec(outcomes[j]) is Ok),
            None => store_after(init, outcomes) == init && forall|j: int|
                0 <= j < outcomes.len() ==> !(exchange_result_spec(outcomes[j]) is Ok),
        },
    decreases outcomes.len(),
{
    if outcomes.len() > 0 {
        lemma_store_reflects_most_recent_success(init, outcomes.drop_last());
        if !(exchange_result_spec(outcomes.last()) is Ok) {
            assert(forall|j: int|
                0 <= j < outcomes.len() - 1 ==> outcomes.drop_last()[j] == outcomes[j]);
        }
    }
}

/// Visiting the callback route with no query parameters is free of side
/// effects and deterministic: the plan is always just the landing page —
/// never an exchange, so nothing is persisted — and two successive empty
/// visits plan the very same response.
pub proof fn lemma_landing_idempotent(
    c: ContextView,
    q1: Seq<(Seq<char>, Seq<char>)>,
    q2: Seq<(Seq<char>, Seq<char>)>,
)
    requires
        q1.len() == 0,
        q2.len() == 0,
    ensures
        plan_spec(c, q1) == ActionView::Respond(landing_page_spec(c)),
        plan_spec(c, q1) == plan_spec(c, q2),
{
}

} // verus!
