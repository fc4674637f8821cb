//! Flow outcomes as pages: every terminal outcome of a request is a page
//! with a title and a body. Rendering a page into markup is presentation
//! and stays outside the library; the contracts here pin down the exact
//! text each outcome carries.

use vstd::prelude::*;

use crate::request::Context;
use crate::request::ContextView;
use crate::request::authorize_url;
use crate::request::authorize_url_spec;

verus! {

/// A rendered flow outcome: a title and a body.
pub struct Page {
    pub title: String,
    pub body: String,
}

/// Mathematical image of a `Page`.
pub ghost struct PageView {
    pub title: Seq<char>,
    pub body: Seq<char>,
}

impl View for Page {
    type V = PageView;

    open spec fn view(&self) -> PageView {
        PageView { title: self.title@, body: self.body@ }
    }
}

pub open spec fn message_page_spec(title: Seq<char>, body: Seq<char>) -> PageView {
    PageView { title, body }
}

/// The landing page: titled `Authorize`, its body is the authorization
/// URL the visitor is sent to.
pub open spec fn landing_page_spec(c: ContextView) -> PageView {
    PageView { title: "Authorize"@, body: authorize_url_spec(c) }
}

/// The body of the success page: both tokens of the exchange, the access
/// token also in its `oauth:` form.
pub open spec fn success_body_spec(access_token: Seq<char>, refresh_token: Seq<char>) -> Seq<
    char,
> {
    "access_token: "@ + access_token + "\noauth:"@ + access_token + "\nrefresh_token: "@
        + refresh_token
}

/// The success page: titled `Success!`, displaying both tokens.
pub open spec fn success_page_spec(access_token: Seq<char>, refresh_token: Seq<char>) -> PageView {
    PageView { title: "Success!"@, body: success_body_spec(access_token, refresh_token) }
}

/// A page holding the given title and body verbatim.
pub fn message_page(title: &str, body: &str) -> (p: Page)
    ensures
        p@ == message_page_spec(title@, body@),
{
    Page { title: String::from_str(title), body: String::from_str(body) }
}

/// The landing page of `landing_page_spec`.
pub fn landing_page(c: &Context) -> (p: Page)
    ensures
        p@ == landing_page_spec(c@),
{
    Page { title: String::from_str("Authorize"), body: authorize_url(c) }
}

/// The success page of `success_page_spec`.
pub fn success_page(access_token: &str, refresh_token: &str) -> (p: Page)
    ensures
        p@ == success_page_spec(access_token@, refresh_token@),
{
    let mut body = String::new();
    body.append("access_token: ");
    body.append(access_token);
    body.append("\noauth:");
    body.append(access_token);
    body.append("\nrefresh_token: ");
    body.append(refresh_token);
    proof {
        assert(body@ =~= success_body_spec(access_token@, refresh_token@));
    }
    Page { title: String::from_str("Success!"), body }
}

} // verus!
