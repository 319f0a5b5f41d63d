use http_client::oauth_callback_page;
use http_client::server::{
    Binding, OAuthCallbackServer, ServerAction, ServerEvent, StartError, OAUTH_CALLBACK_TIMEOUT,
    POLL_INTERVAL,
};
use http_client::start_oauth_callback_server;

fn started() -> OAuthCallbackServer {
    match start_oauth_callback_server(Binding::Port(8123)) {
        Ok((_, server)) => server,
        Err(error) => panic!("not started: {}", error.message()),
    }
}

fn ready(canceled: bool, elapsed: u64) -> ServerEvent {
    ServerEvent::Ready { canceled, elapsed }
}

fn request(target: &str) -> ServerEvent {
    ServerEvent::Request { target: target.to_string() }
}

#[test]
fn redirect_uri_names_the_port() {
    for (port, uri) in [
        (0u16, "http://127.0.0.1:0/callback"),
        (9, "http://127.0.0.1:9/callback"),
        (10, "http://127.0.0.1:10/callback"),
        (8123, "http://127.0.0.1:8123/callback"),
        (60000, "http://127.0.0.1:60000/callback"),
        (65535, "http://127.0.0.1:65535/callback"),
    ] {
        assert_eq!(start_oauth_callback_server(Binding::Port(port)).ok().unwrap().0, uri);
    }
}

#[test]
fn binding_can_fail() {
    let error = start_oauth_callback_server(Binding::Failed).err().unwrap();
    assert_eq!(error, StartError::BindFailed);
    assert_eq!(
        error.message(),
        "Failed to bind loopback listener for OAuth callback"
    );
    let error = start_oauth_callback_server(Binding::NotTcp).err().unwrap();
    assert_eq!(error, StartError::NotTcp);
    assert_eq!(error.message(), "server not bound to a TCP address");
}

#[test]
fn waits_in_intervals_until_the_deadline() {
    assert_eq!(OAUTH_CALLBACK_TIMEOUT, 2 * 60 * 1_000_000_000);
    assert_eq!(POLL_INTERVAL, 500 * 1_000_000);
    let mut server = started();
    assert!(matches!(server.step(ready(false, 0)), ServerAction::Wait { timeout: 500_000_000 }));
    assert!(matches!(server.step(ServerEvent::NoRequest), ServerAction::Again));
    assert!(matches!(
        server.step(ready(false, 119_500_000_000)),
        ServerAction::Wait { timeout: 500_000_000 }
    ));
    assert!(matches!(
        server.step(ready(false, 119_999_999_999)),
        ServerAction::Wait { timeout: 1 }
    ));
    assert!(matches!(server.step(ready(false, 120_000_000_000)), ServerAction::Stop));
    assert!(matches!(server.step(ready(false, 0)), ServerAction::Stop));
}

#[test]
fn stops_when_canceled() {
    let mut server = started();
    assert!(matches!(server.step(ready(true, 0)), ServerAction::Stop));
    assert!(matches!(server.step(request("/callback?code=c&state=s")), ServerAction::Stop));
}

#[test]
fn reports_a_receive_failure_once() {
    let mut server = started();
    match server.step(ServerEvent::ReceiveFailed) {
        ServerAction::Report { result: Err(error) } => {
            assert_eq!(error.message(), "OAuth callback server I/O error")
        }
        _ => panic!("no report"),
    }
    assert!(matches!(server.step(ServerEvent::ReceiveFailed), ServerAction::Stop));
}

#[test]
fn answers_an_accepted_callback() {
    let mut server = started();
    match server.step(request("/callback?code=c&state=s")) {
        ServerAction::Answer { response, result: Ok(params) } => {
            assert_eq!(params.code, "c");
            assert_eq!(params.state, "s");
            assert_eq!(response.status, 200);
            assert_eq!(
                response.headers,
                vec!["Content-Type: text/html", "Keep-Alive: timeout=0,max=0"]
            );
            assert_eq!(
                response.body,
                oauth_callback_page(
                    "Authorization Successful",
                    "You can close this tab and return to Zed.",
                    false
                )
            );
        }
        _ => panic!("not accepted"),
    }
    assert!(matches!(server.step(request("/callback?code=c&state=s")), ServerAction::Stop));
}

#[test]
fn answers_a_refused_callback() {
    let mut server = started();
    match server.step(request("/callback?error=denied")) {
        ServerAction::Answer { response, result: Err(error) } => {
            assert_eq!(
                error.message(),
                "OAuth authorization failed: denied (no description)"
            );
            assert_eq!(response.status, 400);
            assert_eq!(response.headers.len(), 2);
            assert_eq!(
                response.body,
                oauth_callback_page(
                    "Authorization Failed",
                    "Something went wrong. Please try again from Zed.",
                    true
                )
            );
        }
        _ => panic!("not refused"),
    }
}
