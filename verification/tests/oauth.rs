use http_client::{handle_oauth_callback_request, OAuthCallbackError, OAuthCallbackParams};

fn ok(query: &str) -> (String, String) {
    match OAuthCallbackParams::parse_query(query) {
        Ok(params) => (params.code, params.state),
        Err(error) => panic!("refused: {}", error.message()),
    }
}

fn refusal(query: &str) -> OAuthCallbackError {
    match OAuthCallbackParams::parse_query(query) {
        Ok(_) => panic!("accepted"),
        Err(error) => error,
    }
}

fn pair(name: &str, value: &str) -> (String, String) {
    (name.to_string(), value.to_string())
}

#[test]
fn reads_code_and_state() {
    assert_eq!(ok("code=abc&state=xyz"), pair("abc", "xyz"));
    assert_eq!(ok("state=xyz&code=abc"), pair("abc", "xyz"));
    assert_eq!(ok("scope=all&code=abc&iss=x&state=xyz"), pair("abc", "xyz"));
}

#[test]
fn decodes_values() {
    assert_eq!(ok("code=a%20b%26c&state=x+y%3D"), pair("a b&c", "x y="));
    assert_eq!(ok("c%6Fde=abc&state=%E4%B8%96"), pair("abc", "世"));
}

#[test]
fn last_value_that_is_not_empty_counts() {
    assert_eq!(ok("code=a&code=b&state=s"), pair("b", "s"));
    assert_eq!(ok("code=a&code=&state=s&state="), pair("a", "s"));
}

#[test]
fn parameters_that_do_not_matter_may_stand_anywhere() {
    let plain = ok("code=a&state=s");
    for query in [
        "x=1&code=a&state=s",
        "code=a&x=1&state=s",
        "code=a&state=s&x=1",
        "code=a&code=&state=s",
        "&&code=a&&state=s&",
        "code=&error=&x&code=a&state=s",
    ] {
        assert_eq!(ok(query), plain);
    }
    assert!(matches!(refusal("x=1&code=a&y=2"), OAuthCallbackError::MissingState));
}

#[test]
fn code_is_required() {
    for query in ["", "state=s", "code=&state=s", "Code=c&state=s"] {
        let error = refusal(query);
        assert!(matches!(error, OAuthCallbackError::MissingCode));
        assert_eq!(error.message(), "missing 'code' parameter in OAuth callback");
    }
}

#[test]
fn state_is_required() {
    for query in ["code=c", "code=c&state="] {
        let error = refusal(query);
        assert!(matches!(error, OAuthCallbackError::MissingState));
        assert_eq!(error.message(), "missing 'state' parameter in OAuth callback");
    }
}

#[test]
fn reported_error_comes_first() {
    let error = refusal("code=c&state=s&error=access_denied&error_description=User+said+no");
    assert_eq!(
        error.message(),
        "OAuth authorization failed: access_denied (User said no)"
    );
    let error = refusal("error=access_denied");
    assert_eq!(
        error.message(),
        "OAuth authorization failed: access_denied (no description)"
    );
    let error = refusal("error=access_denied&error_description=");
    assert_eq!(
        error.message(),
        "OAuth authorization failed: access_denied (no description)"
    );
}

#[test]
fn empty_error_is_none() {
    assert_eq!(ok("error=&code=c&state=s"), pair("c", "s"));
    assert_eq!(ok("error_description=odd&code=c&state=s"), pair("c", "s"));
}

#[test]
fn pairs_are_read_as_they_are() {
    let pairs = vec![pair("state", "a%20b"), pair("code", "1+1")];
    let params = OAuthCallbackParams::from_pairs(&pairs).ok().unwrap();
    assert_eq!((params.code, params.state), pair("1+1", "a%20b"));
}

#[test]
fn path_and_query_are_checked() {
    assert!(OAuthCallbackParams::from_location("/callback", Some("code=c&state=s")).is_ok());
    assert!(matches!(
        OAuthCallbackParams::from_location("/callback", None),
        Err(OAuthCallbackError::MissingQuery)
    ));
    assert!(matches!(
        OAuthCallbackParams::from_location("/callback/", Some("code=c&state=s")),
        Err(OAuthCallbackError::UnexpectedPath(_))
    ));
}

#[test]
fn callback_request_is_accepted() {
    let params = handle_oauth_callback_request("/callback?code=abc&state=xyz").ok().unwrap();
    assert_eq!((params.code, params.state), pair("abc", "xyz"));
    let params = handle_oauth_callback_request("/callback?code=a%20b&state=x#top").ok().unwrap();
    assert_eq!((params.code, params.state), pair("a b", "x"));
}

#[test]
fn other_path_is_refused() {
    let error = handle_oauth_callback_request("/favicon.ico").err().unwrap();
    assert!(matches!(&error, OAuthCallbackError::UnexpectedPath(path) if path.as_str() == "/favicon.ico"));
    assert_eq!(
        error.message(),
        "unexpected path in OAuth callback: /favicon.ico"
    );
    let error = handle_oauth_callback_request("/x/../y?code=c&state=s").err().unwrap();
    assert_eq!(error.message(), "unexpected path in OAuth callback: /y");
}

#[test]
fn callback_without_query_is_refused() {
    let error = handle_oauth_callback_request("/callback").err().unwrap();
    assert!(matches!(error, OAuthCallbackError::MissingQuery));
    assert_eq!(error.message(), "OAuth callback has no query string");
}

#[test]
fn malformed_request_is_refused() {
    let error = handle_oauth_callback_request(":bad/callback").err().unwrap();
    assert!(matches!(error, OAuthCallbackError::MalformedUrl(_)));
    assert_eq!(error.message(), "malformed callback request URL");
}

#[test]
fn server_failure_has_its_message() {
    assert_eq!(
        OAuthCallbackError::ServerFailure.message(),
        "OAuth callback server I/O error"
    );
}

#[test]
fn written_parameters_are_read_back() {
    for (code, state) in [("abc", "xyz"), ("a b&c=d", "100%+1"), ("世界", "é#?/"), ("*-._~", "'\"<>")] {
        let query = serde_urlencoded::to_string([("code", code), ("state", state)]).unwrap();
        assert_eq!(ok(&query), pair(code, state));
        let params = handle_oauth_callback_request(&format!("/callback?{}", query)).ok().unwrap();
        assert_eq!((params.code, params.state), pair(code, state));
    }
}
