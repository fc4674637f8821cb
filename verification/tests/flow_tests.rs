use oauth_loopback::Action;
use oauth_loopback::Context;
use oauth_loopback::ExchangeError;
use oauth_loopback::HttpOutcome;
use oauth_loopback::RefreshOutcome;
use oauth_loopback::RefreshPlan;
use oauth_loopback::StoreModel;
use oauth_loopback::authorize_url;
use oauth_loopback::code_exchange_form;
use oauth_loopback::complete_exchange;
use oauth_loopback::complete_refresh;
use oauth_loopback::interpret_token_response;
use oauth_loopback::plan;
use oauth_loopback::plan_refresh;
use oauth_loopback::refresh_form;

fn test_context() -> Context {
    Context {
        client_id: String::from("CID"),
        client_secret: String::from("CSECRET"),
        scope: String::from("chat:read"),
        redirect_uri: String::from("http://localhost:3000"),
        authorize_endpoint: String::from("https://id.twitch.tv/oauth2/authorize"),
        token_endpoint: String::from("https://id.twitch.tv/oauth2/token"),
    }
}

fn good_body() -> String {
    String::from(
        "{\"access_token\":\"AT1\",\"refresh_token\":\"RT1\",\"expires_in\":3600,\"scope\":[\"x\"],\"token_type\":\"bearer\"}",
    )
}

fn pairs(items: &[(&str, &str)]) -> Vec<(String, String)> {
    items.iter().map(|(k, v)| (String::from(*k), String::from(*v))).collect()
}

#[test]
fn authorization_url_is_exact() {
    let url = authorize_url(&test_context());
    assert_eq!(
        url,
        "https://id.twitch.tv/oauth2/authorize?client_id=CID&redirect_uri=http://localhost:3000&response_type=code&scope=chat:read"
    );
}

#[test]
fn landing_page_contains_authorization_url() {
    let ctx = test_context();
    let action = plan(&ctx, &Vec::new());
    match action {
        Action::Respond(page) => {
            assert_eq!(page.title, "Authorize");
            assert!(page.body.contains("client_id=CID"));
            assert!(page.body.contains("scope=chat:read"));
            assert!(page.body.contains("response_type=code"));
            assert_eq!(page.body, authorize_url(&ctx));
        }
        _ => panic!("empty query must plan a response"),
    }
}

#[test]
fn landing_is_idempotent() {
    let ctx = test_context();
    let first = plan(&ctx, &Vec::new());
    let second = plan(&ctx, &Vec::new());
    match (first, second) {
        (Action::Respond(a), Action::Respond(b)) => {
            assert_eq!(a.title, b.title);
            assert_eq!(a.body, b.body);
        }
        _ => panic!("empty query must plan a response both times"),
    }
}

#[test]
fn code_exchange_form_fields() {
    let form = code_exchange_form(&test_context(), "abc123");
    let want = pairs(&[
        ("grant_type", "authorization_code"),
        ("client_id", "CID"),
        ("client_secret", "CSECRET"),
        ("code", "abc123"),
        ("redirect_uri", "http://localhost:3000"),
    ]);
    assert_eq!(form, want);
}

#[test]
fn refresh_form_fields() {
    let form = refresh_form(&test_context(), "RT0");
    let want = pairs(&[
        ("grant_type", "refresh_token"),
        ("client_id", "CID"),
        ("client_secret", "CSECRET"),
        ("refresh_token", "RT0"),
    ]);
    assert_eq!(form, want);
    for (key, _) in &form {
        assert_ne!(key, "code");
        assert_ne!(key, "redirect_uri");
    }
}

#[test]
fn code_query_plans_exchange() {
    let ctx = test_context();
    let q = pairs(&[("code", "abc123")]);
    match plan(&ctx, &q) {
        Action::Exchange { code, form } => {
            assert_eq!(code, "abc123");
            assert_eq!(form, code_exchange_form(&ctx, "abc123"));
        }
        _ => panic!("a code query must plan an exchange"),
    }
}

#[test]
fn successful_exchange_renders_tokens_and_persists() {
    let outcome = HttpOutcome::Received { status: 200, body: good_body() };
    let (page, persist) = complete_exchange(&outcome);
    assert_eq!(page.title, "Success!");
    assert!(page.body.contains("AT1"));
    assert!(page.body.contains("RT1"));
    assert!(page.body.contains("oauth:AT1"));
    assert_eq!(persist, Some(String::from("RT1")));
    let mut store = StoreModel { refresh_token: None };
    store.apply_persist(persist);
    assert_eq!(store.refresh_token, Some(String::from("RT1")));
}

#[test]
fn http_error_status_is_a_send_failure() {
    let outcome = HttpOutcome::Received { status: 500, body: good_body() };
    let (page, persist) = complete_exchange(&outcome);
    assert_eq!(page.title, "Request Failed");
    assert_eq!(page.body, "Failed to send request.");
    assert_eq!(persist, None);
    let mut store = StoreModel { refresh_token: Some(String::from("OLD")) };
    store.apply_persist(persist);
    assert_eq!(store.refresh_token, Some(String::from("OLD")));
}

#[test]
fn send_failure_page() {
    let (page, persist) = complete_exchange(&HttpOutcome::SendFailed);
    assert_eq!(page.title, "Request Failed");
    assert_eq!(page.body, "Failed to send request.");
    assert_eq!(persist, None);
}

#[test]
fn non_json_body_is_a_parse_failure() {
    let outcome = HttpOutcome::Received {
        status: 200,
        body: String::from("<html>backend blew up</html>"),
    };
    let (page, persist) = complete_exchange(&outcome);
    assert_eq!(page.title, "Request Failed");
    assert_eq!(page.body, "Failed to parse response.");
    assert_eq!(persist, None);
}

#[test]
fn status_boundaries() {
    let ok = interpret_token_response(&HttpOutcome::Received { status: 299, body: good_body() });
    assert!(ok.is_ok());
    let low = interpret_token_response(&HttpOutcome::Received { status: 199, body: good_body() });
    assert_eq!(low.err(), Some(ExchangeError::Transport));
    let high = interpret_token_response(&HttpOutcome::Received { status: 300, body: good_body() });
    assert_eq!(high.err(), Some(ExchangeError::Transport));
}

#[test]
fn parsed_token_set_fields() {
    let r = interpret_token_response(&HttpOutcome::Received { status: 200, body: good_body() });
    let t = r.ok().expect("the scenario body must parse");
    assert_eq!(t.access_token, "AT1");
    assert_eq!(t.refresh_token, "RT1");
    assert_eq!(t.expires_in, 3600);
    assert_eq!(t.scope, vec![String::from("x")]);
    assert_eq!(t.token_type, "bearer");
}

#[test]
fn provider_error_with_description() {
    let ctx = test_context();
    let q = pairs(&[("error", "access_denied"), ("error_description", "user cancelled")]);
    match plan(&ctx, &q) {
        Action::Respond(page) => {
            assert_eq!(page.title, "access_denied");
            assert_eq!(page.body, "user cancelled");
        }
        _ => panic!("an error query must plan a response"),
    }
}

#[test]
fn provider_error_without_description() {
    let ctx = test_context();
    let q = pairs(&[("error", "access_denied")]);
    match plan(&ctx, &q) {
        Action::Respond(page) => {
            assert_eq!(page.title, "access_denied");
            assert_eq!(page.body, "no description");
        }
        _ => panic!("an error query must plan a response"),
    }
}

#[test]
fn unrecognized_query_is_generic_failure() {
    let ctx = test_context();
    let q = pairs(&[("foo", "bar")]);
    match plan(&ctx, &q) {
        Action::Respond(page) => {
            assert_eq!(page.title, "Something went wrong");
            assert_eq!(page.body, "dunno what");
        }
        _ => panic!("an unrecognized query must plan a response"),
    }
}

#[test]
fn code_takes_precedence_over_error() {
    let ctx = test_context();
    let q = pairs(&[("error", "access_denied"), ("code", "abc123")]);
    match plan(&ctx, &q) {
        Action::Exchange { code, .. } => assert_eq!(code, "abc123"),
        _ => panic!("a code query must plan an exchange even beside an error"),
    }
}

#[test]
fn store_tracks_latest_success() {
    let mut store = StoreModel { refresh_token: None };
    let ok1 = HttpOutcome::Received { status: 200, body: good_body() };
    let (_, persist1) = complete_exchange(&ok1);
    store.apply_persist(persist1);
    assert_eq!(store.refresh_token, Some(String::from("RT1")));

    let (_, persist2) = complete_exchange(&HttpOutcome::SendFailed);
    store.apply_persist(persist2);
    assert_eq!(store.refresh_token, Some(String::from("RT1")));

    let body2 = good_body().replace("RT1", "RT2");
    let ok2 = HttpOutcome::Received { status: 200, body: body2 };
    let (_, persist3) = complete_exchange(&ok2);
    store.apply_persist(persist3);
    assert_eq!(store.refresh_token, Some(String::from("RT2")));
}

#[test]
fn first_query_parameter_wins() {
    let ctx = test_context();
    let q = pairs(&[("code", "first"), ("code", "second")]);
    match plan(&ctx, &q) {
        Action::Exchange { code, .. } => assert_eq!(code, "first"),
        _ => panic!("a code query must plan an exchange"),
    }
}

#[test]
fn refresh_skipped_without_stored_token() {
    let r = plan_refresh(&test_context(), &None);
    assert!(matches!(r, RefreshPlan::Skip));
}

#[test]
fn refresh_request_uses_stored_token() {
    let ctx = test_context();
    let r = plan_refresh(&ctx, &Some(String::from("RT0")));
    match r {
        RefreshPlan::Request(form) => assert_eq!(form, refresh_form(&ctx, "RT0")),
        _ => panic!("a stored token must plan a refresh request"),
    }
}

#[test]
fn successful_refresh_persists_new_token() {
    let outcome = HttpOutcome::Received { status: 200, body: good_body() };
    let (result, persist) = complete_refresh(&outcome);
    match result {
        RefreshOutcome::Refreshed(t) => {
            assert_eq!(t.access_token, "AT1");
            assert_eq!(t.refresh_token, "RT1");
        }
        _ => panic!("the scenario body must refresh"),
    }
    assert_eq!(persist, Some(String::from("RT1")));
}

#[test]
fn failed_refresh_is_silent() {
    let (result, persist) = complete_refresh(&HttpOutcome::SendFailed);
    assert!(matches!(result, RefreshOutcome::Failed));
    assert_eq!(persist, None);
    let (result2, persist2) =
        complete_refresh(&HttpOutcome::Received { status: 200, body: String::from("nope") });
    assert!(matches!(result2, RefreshOutcome::Failed));
    assert_eq!(persist2, None);
}
