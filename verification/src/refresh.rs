//! The startup silent-refresh routine: before the callback server starts,
//! one refresh-token grant is attempted with whatever refresh token is on
//! record. Whatever happens, the interactive flow follows: no outcome of
//! this routine is fatal.

use vstd::prelude::*;

use crate::flow::HttpOutcome;
use crate::flow::HttpOutcomeView;
use crate::flow::exchange_result_spec;
use crate::flow::opt_str_view;
use crate::request::Context;
use crate::request::ContextView;
use crate::request::refresh_form;
use crate::request::refresh_form_spec;
use crate::token::TokenSet;
use crate::token::TokenSetView;

verus! {

/// What the startup refresh does: nothing when no refresh token is on
/// record, else one refresh-token grant request.
pub enum RefreshPlan {
    /// No refresh token is stored; go straight to the interactive flow.
    Skip,
    /// Post this form to the token endpoint, once.
    Request(Vec<(String, String)>),
}

pub ghost enum RefreshPlanView {
    Skip,
    Request(Seq<(Seq<char>, Seq<char>)>),
}

impl View for RefreshPlan {
    type V = RefreshPlanView;

    open spec fn view(&self) -> RefreshPlanView {
        match self {
            RefreshPlan::Skip => RefreshPlanView::Skip,
            RefreshPlan::Request(form) => RefreshPlanView::Request(form.deep_view()),
        }
    }
}

pub open spec fn refresh_plan_spec(c: ContextView, stored: Option<Seq<char>>) -> RefreshPlanView {
    match stored {
        None => RefreshPlanView::Skip,
        Some(t) => RefreshPlanView::Request(refresh_form_spec(c, t)),
    }
}

/// Plans the startup refresh from the stored refresh token, as
/// `refresh_plan_spec` describes: skipped exactly when no token is
/// stored.
pub fn plan_refresh(c: &Context, stored: &Option<String>) -> (r: RefreshPlan)
    ensures
        r@ == refresh_plan_spec(c@, opt_str_view(*stored)),
{
    match stored {
        None => RefreshPlan::Skip,
        Some(t) => RefreshPlan::Request(refresh_form(c, t.as_str())),
    }
}

/// How the startup refresh ended. Both failure kinds are non-fatal: the
/// interactive flow follows in every case.
pub enum RefreshOutcome {
    /// The grant succeeded; the token set's access token is shown to the
    /// operator.
    Refreshed(TokenSet),
    /// The grant failed (transport or parse); the flow proceeds silently.
    Failed,
}

pub ghost enum RefreshOutcomeView {
    Refreshed(TokenSetView),
    Failed,
}

impl View for RefreshOutcome {
    type V = RefreshOutcomeView;

    open spec fn view(&self) -> RefreshOutcomeView {
        match self {
            RefreshOutcome::Refreshed(t) => RefreshOutcomeView::Refreshed(t@),
            RefreshOutcome::Failed => RefreshOutcomeView::Failed,
        }
    }
}

/// The outcome of the startup refresh and the refresh-token value it
/// persists: the new token set and its refresh token on success, nothing
/// on any failure.
pub open spec fn refresh_step_spec(o: HttpOutcomeView) -> (RefreshOutcomeView, Option<Seq<char>>) {
    match exchange_result_spec(o) {
        Ok(t) => (RefreshOutcomeView::Refreshed(t), Some(t.refresh_token)),
        Err(_) => (RefreshOutcomeView::Failed, None),
    }
}

/// Completes the startup refresh, as `refresh_step_spec` describes.
pub fn complete_refresh(o: &HttpOutcome) -> (r: (RefreshOutcome, Option<String>))
    ensures
        r.0@ == refresh_step_spec(o@).0,
        opt_str_view(r.1) == refresh_step_spec(o@).1,
{
    match crate::flow::interpret_token_response(o) {
        Ok(t) => {
            let persist = Some(t.refresh_token.clone());
            (RefreshOutcome::Refreshed(t), persist)
        },
        Err(_) => (RefreshOutcome::Failed, None),
    }
}

/// After a successful startup refresh the persisted value is exactly the
/// refresh token of the token set just received; a skipped or failed
/// refresh persists nothing.
pub proof fn lemma_refresh_persists_latest(o: HttpOutcomeView)
    ensures
        exchange_result_spec(o) matches Ok(t) ==> refresh_step_spec(o).1 == Some(t.refresh_token),
        exchange_result_spec(o) is Err ==> refresh_step_spec(o).1 == None::<Seq<char>>,
{
}

} // verus!
