//! What the flow sends to the provider: the browser-navigated
//! authorization URL and the two form-encoded token-endpoint request
//! bodies (authorization-code grant and refresh-token grant).

use vstd::prelude::*;

verus! {

/// The immutable configuration of one process: the credential tuple, the
/// registered redirect URI and the provider's two endpoints. Loaded once
/// at startup and never changed.
pub struct Context {
    pub client_id: String,
    pub client_secret: String,
    pub scope: String,
    pub redirect_uri: String,
    pub authorize_endpoint: String,
    pub token_endpoint: String,
}

/// Mathematical image of a `Context`.
pub ghost struct ContextView {
    pub client_id: Seq<char>,
    pub client_secret: Seq<char>,
    pub scope: Seq<char>,
    pub redirect_uri: Seq<char>,
    pub authorize_endpoint: Seq<char>,
    pub token_endpoint: Seq<char>,
}

impl View for Context {
    type V = ContextView;

    open spec fn view(&self) -> ContextView {
        ContextView {
            client_id: self.client_id@,
            client_secret: self.client_secret@,
            scope: self.scope@,
            redirect_uri: self.redirect_uri@,
            authorize_endpoint: self.authorize_endpoint@,
            token_endpoint: self.token_endpoint@,
        }
    }
}

/// The authorization URL: the endpoint followed by `client_id`,
/// `redirect_uri`, `response_type=code` and `scope`, every value taken
/// verbatim from the context.
pub open spec fn authorize_url_spec(c: ContextView) -> Seq<char> {
    c.authorize_endpoint + "?client_id="@ + c.client_id + "&redirect_uri="@ + c.redirect_uri
        + "&response_type=code&scope="@ + c.scope
}

/// Builds the authorization URL that the landing page links to.
pub fn authorize_url(c: &Context) -> (r: String)
    ensures
        r@ == authorize_url_spec(c@),
{
    let mut u = String::new();
    u.append(c.authorize_endpoint.as_str());
    u.append("?client_id=");
    u.append(c.client_id.as_str());
    u.append("&redirect_uri=");
    u.append(c.redirect_uri.as_str());
    u.append("&response_type=code&scope=");
    u.append(c.scope.as_str());
    proof {
        assert(u@ =~= authorize_url_spec(c@));
    }
    u
}

/// The form fields of an authorization-code grant request.
pub open spec fn code_form_spec(c: ContextView, code: Seq<char>) -> Seq<(Seq<char>, Seq<char>)> {
    seq![
        ("grant_type"@, "authorization_code"@),
        ("client_id"@, c.client_id),
        ("client_secret"@, c.client_secret),
        ("code"@, code),
        ("redirect_uri"@, c.redirect_uri),
    ]
}

/// The form fields of a refresh-token grant request.
pub open spec fn refresh_form_spec(c: ContextView, refresh_token: Seq<char>) -> Seq<
    (Seq<char>, Seq<char>),
> {
    seq![
        ("grant_type"@, "refresh_token"@),
        ("client_id"@, c.client_id),
        ("client_secret"@, c.client_secret),
        ("refresh_token"@, refresh_token),
    ]
}

/// Builds the form body of the authorization-code grant.
pub fn code_exchange_form(c: &Context, code: &str) -> (r: Vec<(String, String)>)
    ensures
        r.deep_view() == code_form_spec(c@, code@),
{
    let mut r: Vec<(String, String)> = Vec::new();
    r.push((String::from_str("grant_type"), String::from_str("authorization_code")));
    r.push((String::from_str("client_id"), c.client_id.clone()));
    r.push((String::from_str("client_secret"), c.client_secret.clone()));
    r.push((String::from_str("code"), String::from_str(code)));
    r.push((String::from_str("redirect_uri"), c.redirect_uri.clone()));
    proof {
        assert(r.deep_view() =~= code_form_spec(c@, code@));
    }
    r
}

/// Builds the form body of the refresh-token grant.
pub fn refresh_form(c: &Context, refresh_token: &str) -> (r: Vec<(String, String)>)
    ensures
        r.deep_view() == refresh_form_spec(c@, refresh_token@),
{
    let mut r: Vec<(String, String)> = Vec::new();
    r.push((String::from_str("grant_type"), String::from_str("refresh_token")));
    r.push((String::from_str("client_id"), c.client_id.clone()));
    r.push((String::from_str("client_secret"), c.client_secret.clone()));
    r.push((String::from_str("refresh_token"), String::from_str(refresh_token)));
    proof {
        assert(r.deep_view() =~= refresh_form_spec(c@, refresh_token@));
    }
    r
}

/// The authorization URL carries the context's client id, redirect URI and
/// scope verbatim, plus `response_type=code`, and a code-exchange request
/// carries the authorization-code grant type together with the very same
/// redirect URI that the URL embeds.
pub proof fn lemma_code_exchange_matches_initiation(c: ContextView, code: Seq<char>)
    ensures
        code_form_spec(c, code).len() == 5,
        code_form_spec(c, code)[0] == ("grant_type"@, "authorization_code"@),
        code_form_spec(c, code)[3] == ("code"@, code),
        code_form_spec(c, code)[4] == ("redirect_uri"@, c.redirect_uri),
        authorize_url_spec(c) == c.authorize_endpoint + "?client_id="@ + c.client_id
            + "&redirect_uri="@ + c.redirect_uri + "&response_type=code&scope="@ + c.scope,
{
}

/// A refresh-token request carries the refresh-token grant type and never
/// carries a `code` or a `redirect_uri` field.
pub proof fn lemma_refresh_form_never_carries_code(c: ContextView, refresh_token: Seq<char>)
    ensures
        refresh_form_spec(c, refresh_token).len() == 4,
        refresh_form_spec(c, refresh_token)[0] == ("grant_type"@, "refresh_token"@),
        refresh_form_spec(c, refresh_token)[3] == ("refresh_token"@, refresh_token),
        forall|k: int|
            0 <= k < refresh_form_spec(c, refresh_token).len() ==> refresh_form_spec(
                c,
                refresh_token,
            )[k].0 != "code"@ && refresh_form_spec(c, refresh_token)[k].0 != "redirect_uri"@,
{
    reveal_strlit("grant_type");
    reveal_strlit("client_id");
    reveal_strlit("client_secret");
    reveal_strlit("refresh_token");
    reveal_strlit("code");
    reveal_strlit("redirect_uri");
    let f = refresh_form_spec(c, refresh_token);
    assert forall|k: int| 0 <= k < f.len() implies f[k].0 != "code"@ && f[k].0
        != "redirect_uri"@ by {
        assert(f[k].0 == "grant_type"@ || f[k].0 == "client_id"@ || f[k].0 == "client_secret"@
            || f[k].0 == "refresh_token"@);
        assert("grant_type"@.len() == 10);
        assert("client_id"@.len() == 9);
        assert("client_secret"@.len() == 13);
        assert("refresh_token"@.len() == 13);
        assert("code"@.len() == 4);
        assert("redirect_uri"@.len() == 12);
    }
}

} // verus!
