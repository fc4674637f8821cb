use oauth_loopback::parse_token_response;
use oauth_loopback::str_eq;
use oauth_loopback::trim;

#[test]
fn parses_compact_body() {
    let body = "{\"access_token\":\"AT1\",\"refresh_token\":\"RT1\",\"expires_in\":3600,\"scope\":[\"x\"],\"token_type\":\"bearer\"}";
    let t = parse_token_response(body).expect("compact body must parse");
    assert_eq!(t.access_token, "AT1");
    assert_eq!(t.refresh_token, "RT1");
    assert_eq!(t.expires_in, 3600);
    assert_eq!(t.scope, vec![String::from("x")]);
    assert_eq!(t.token_type, "bearer");
}

#[test]
fn parses_reordered_body_with_whitespace() {
    let body = " {\n  \"token_type\" : \"bearer\" ,\n  \"scope\" : [ \"chat:read\" , \"chat:edit\" ] ,\n  \"expires_in\" : 14124 ,\n  \"refresh_token\" : \"r2\" ,\n  \"access_token\" : \"a2\"\n} \n";
    let t = parse_token_response(body).expect("reordered body must parse");
    assert_eq!(t.access_token, "a2");
    assert_eq!(t.refresh_token, "r2");
    assert_eq!(t.expires_in, 14124);
    assert_eq!(t.scope, vec![String::from("chat:read"), String::from("chat:edit")]);
    assert_eq!(t.token_type, "bearer");
}

#[test]
fn parses_empty_scope_array() {
    let body = "{\"access_token\":\"a\",\"refresh_token\":\"r\",\"expires_in\":1,\"scope\":[],\"token_type\":\"bearer\"}";
    let t = parse_token_response(body).expect("empty scope must parse");
    assert_eq!(t.scope, Vec::<String>::new());
}

#[test]
fn rejects_non_json() {
    assert!(parse_token_response("").is_none());
    assert!(parse_token_response("   ").is_none());
    assert!(parse_token_response("<html>oops</html>").is_none());
    assert!(parse_token_response("Internal Server Error").is_none());
}

#[test]
fn rejects_missing_field() {
    let body = "{\"access_token\":\"a\",\"refresh_token\":\"r\",\"expires_in\":1,\"scope\":[]}";
    assert!(parse_token_response(body).is_none());
    assert!(parse_token_response("{}").is_none());
}

#[test]
fn rejects_duplicate_field() {
    let body = "{\"access_token\":\"a\",\"access_token\":\"b\",\"refresh_token\":\"r\",\"expires_in\":1,\"scope\":[],\"token_type\":\"t\"}";
    assert!(parse_token_response(body).is_none());
}

#[test]
fn rejects_unknown_field() {
    let body = "{\"access_token\":\"a\",\"refresh_token\":\"r\",\"expires_in\":1,\"scope\":[],\"token_type\":\"t\",\"extra\":\"x\"}";
    assert!(parse_token_response(body).is_none());
}

#[test]
fn rejects_trailing_text() {
    let body = "{\"access_token\":\"a\",\"refresh_token\":\"r\",\"expires_in\":1,\"scope\":[],\"token_type\":\"t\"} garbage";
    assert!(parse_token_response(body).is_none());
}

#[test]
fn rejects_wrong_value_type() {
    let body = "{\"access_token\":7,\"refresh_token\":\"r\",\"expires_in\":1,\"scope\":[],\"token_type\":\"t\"}";
    assert!(parse_token_response(body).is_none());
    let body2 = "{\"access_token\":\"a\",\"refresh_token\":\"r\",\"expires_in\":\"1\",\"scope\":[],\"token_type\":\"t\"}";
    assert!(parse_token_response(body2).is_none());
}

#[test]
fn accepts_eighteen_digits_and_rejects_nineteen() {
    let body = "{\"access_token\":\"a\",\"refresh_token\":\"r\",\"expires_in\":999999999999999999,\"scope\":[],\"token_type\":\"t\"}";
    let t = parse_token_response(body).expect("an eighteen-digit number must parse");
    assert_eq!(t.expires_in, 999_999_999_999_999_999);
    let body2 = "{\"access_token\":\"a\",\"refresh_token\":\"r\",\"expires_in\":9999999999999999999,\"scope\":[],\"token_type\":\"t\"}";
    assert!(parse_token_response(body2).is_none());
}

#[test]
fn rejects_unterminated_string() {
    let body = "{\"access_token\":\"a";
    assert!(parse_token_response(body).is_none());
}

#[test]
fn trim_removes_surrounding_whitespace() {
    assert_eq!(trim("  tok en \n"), "tok en");
    assert_eq!(trim("token"), "token");
    assert_eq!(trim(" \t\r\n "), "");
    assert_eq!(trim(""), "");
}

#[test]
fn str_eq_compares_contents() {
    assert!(str_eq("abc", "abc"));
    assert!(!str_eq("abc", "abd"));
    assert!(!str_eq("abc", "abcd"));
    assert!(str_eq("", ""));
}
