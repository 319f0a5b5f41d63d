use http_client::client::FixedStatus;
use http_client::request::{get_request, post_json_request};
use http_client::text::text_fits;
use http_client::web::{do_positions_fit, takes_params, POSITION_MAX};
use http_client::{
    BlockedHttpClient, FakeHttpClient, FollowRedirects, HttpClient, HttpClientWithProxy,
    HttpClientWithUrl, HttpRequest, HttpRequestExt, HttpResponse, RedirectPolicy, RequestError,
    SendError, UrlError,
};
use std::sync::Arc;
use url::Url;

type Reply = Result<HttpResponse<Vec<u8>>, SendError>;
type Handler = Box<dyn Fn(HttpRequest<Vec<u8>>) -> String + Send + Sync>;

fn site(base: &str) -> HttpClientWithUrl<BlockedHttpClient> {
    HttpClientWithUrl::new_url(BlockedHttpClient::new(), base.to_string(), None)
}

fn text(result: Result<Url, UrlError>) -> String {
    match result {
        Ok(url) => url.as_str().to_string(),
        Err(error) => panic!("no URL: {:?}", error),
    }
}

fn policy(request: &HttpRequest<Vec<u8>>) -> Option<RedirectPolicy> {
    request.parts.extensions.get::<RedirectPolicy>().copied()
}

#[test]
fn default_policy_follows_nothing() {
    assert_eq!(RedirectPolicy::default(), RedirectPolicy::NoFollow);
    assert_ne!(RedirectPolicy::FollowLimit(3), RedirectPolicy::FollowLimit(4));
    assert!(FollowRedirects(true).0);
}

#[test]
fn get_request_is_built() {
    let request = get_request("https://zed.dev/a?b=c", vec![1u8], true).ok().unwrap();
    assert_eq!(request.parts.method, "GET");
    assert_eq!(request.parts.uri.to_string(), "https://zed.dev/a?b=c");
    assert_eq!(request.parts.version, http::Version::HTTP_11);
    assert_eq!(request.parts.extensions.len(), 1);
    assert!(request.parts.headers.is_empty());
    assert_eq!(policy(&request), Some(RedirectPolicy::FollowAll));
    assert_eq!(request.body, vec![1u8]);
    let request = get_request("/", vec![], false).ok().unwrap();
    assert_eq!(policy(&request), Some(RedirectPolicy::NoFollow));
}

#[test]
fn post_json_request_is_built() {
    let request = post_json_request("https://zed.dev", vec![2u8]).ok().unwrap();
    assert_eq!(request.parts.method, "POST");
    assert_eq!(request.parts.uri.to_string(), "https://zed.dev/");
    assert_eq!(request.parts.version, http::Version::HTTP_11);
    assert!(request.parts.extensions.is_empty());
    assert_eq!(request.parts.headers.len(), 1);
    assert_eq!(request.parts.headers["content-type"], "application/json");
    assert_eq!(policy(&request), None);
    assert_eq!(request.body, vec![2u8]);
}

#[test]
fn invalid_uris_are_refused() {
    let long = format!("http://a/{}", "x".repeat(65_530));
    for uri in ["", "http://", "not a uri", long.as_str()] {
        let RequestError::Invalid(get) = get_request(uri, (), true).err().unwrap();
        let RequestError::Invalid(post) = post_json_request(uri, ()).err().unwrap();
        assert_eq!(get.to_string(), post.to_string());
    }
}

#[test]
fn plain_uris_are_taken_as_they_are() {
    let longest = format!("http://a/{}", "x".repeat(65_525));
    for uri in ["http://a/b?", "http://a:0/", "https://a.b:443/c?d", "https://a-b.c/D_1/?x=1%20&y=*-._~+", longest.as_str()] {
        let request = get_request(uri, (), false).ok().unwrap();
        assert_eq!(request.parts.uri.to_string(), uri);
    }
}

#[test]
fn builder_is_modified_on_condition() {
    let builder = http::request::Builder::new()
        .when(true, |b| b.uri("/a"))
        .when(false, |b| b.uri("/b"))
        .when_some(Some("x"), |b, name| b.header(name, "1"))
        .when_some(None::<&str>, |b, name| b.header(name, "2"))
        .follow_redirects(RedirectPolicy::FollowAll)
        .follow_redirects(RedirectPolicy::FollowLimit(2));
    let request = builder.body(()).unwrap();
    assert_eq!(request.uri().path(), "/a");
    assert_eq!(request.headers()["x"], "1");
    assert_eq!(request.headers().len(), 1);
    assert_eq!(
        request.extensions().get::<RedirectPolicy>(),
        Some(&RedirectPolicy::FollowLimit(2))
    );
}

#[test]
fn redirect_policy_changes_nothing_else() {
    let request = http::request::Builder::new()
        .method("PUT")
        .uri("/a")
        .version(http::Version::HTTP_2)
        .header("x", "1")
        .extension(7u8)
        .follow_redirects(RedirectPolicy::FollowAll)
        .body(())
        .unwrap();
    assert_eq!(request.method(), "PUT");
    assert_eq!(request.uri().path(), "/a");
    assert_eq!(request.version(), http::Version::HTTP_2);
    assert_eq!(request.headers()["x"], "1");
    assert_eq!(request.extensions().get::<u8>(), Some(&7));
    assert_eq!(
        request.extensions().get::<RedirectPolicy>(),
        Some(&RedirectPolicy::FollowAll)
    );
}

#[test]
fn builder_keeps_its_error() {
    let builder = http::request::Builder::new()
        .uri("not a uri")
        .follow_redirects(RedirectPolicy::FollowAll);
    assert!(builder.body(()).is_err());
}

#[test]
fn blocked_client_refuses_everything() {
    let client = BlockedHttpClient::new();
    let reply: Result<Reply, RequestError> = client.get("https://zed.dev", vec![], true);
    let error = reply.ok().unwrap().err().unwrap();
    assert_eq!(error, SendError::PermissionDenied);
    assert_eq!(error.message(), "BlockedHttpClient disallowed request");
    let reply: Result<Reply, RequestError> = client.post_json("https://zed.dev", vec![]);
    assert!(matches!(reply, Ok(Err(SendError::PermissionDenied))));
    let reply: Result<Reply, RequestError> = client.get("not a uri", vec![], true);
    assert!(matches!(reply, Err(RequestError::Invalid(_))));
    assert!(HttpClient::<Vec<u8>, Reply>::user_agent(&client).is_none());
    assert!(HttpClient::<Vec<u8>, Reply>::proxy(&client).is_none());
}

#[test]
fn wrapped_client_still_refuses() {
    let client = site("https://zed.dev");
    let reply: Result<Reply, RequestError> = client.get("https://zed.dev", vec![], true);
    assert!(matches!(reply, Ok(Err(SendError::PermissionDenied))));
    assert!(HttpClient::<Vec<u8>, Reply>::user_agent(&client).is_none());
}

#[test]
fn base_url_is_read_back() {
    let mut client = site("https://zed.dev");
    assert_eq!(client.base_url(), "https://zed.dev");
    client.set_base_url("http://localhost:3000".to_string());
    assert_eq!(client.base_url(), "http://localhost:3000");
    assert_eq!(client.build_url("/a b"), "http://localhost:3000/a b");
    assert_eq!(client.build_url(""), "http://localhost:3000");
}

#[test]
fn api_urls_are_built() {
    for (base, url) in [
        ("https://zed.dev", "https://api.zed.dev/x?a=1"),
        ("https://staging.zed.dev", "https://api-staging.zed.dev/x?a=1"),
        ("http://localhost:3000", "http://localhost:8080/x?a=1"),
        ("https://example.com", "https://example.com/x?a=1"),
        ("https://zed.dev/", "https://zed.dev//x?a=1"),
    ] {
        assert_eq!(text(site(base).build_zed_api_url("/x", &[("a", "1")])), url);
    }
}

#[test]
fn cloud_urls_are_built() {
    for (base, url) in [
        ("https://zed.dev", "https://cloud.zed.dev/x"),
        ("https://staging.zed.dev", "https://cloud.zed.dev/x"),
        ("http://localhost:3000", "http://localhost:8787/x"),
        ("https://example.com", "https://example.com/x"),
    ] {
        assert_eq!(text(site(base).build_zed_cloud_url("/x")), url);
    }
}

#[test]
fn llm_urls_are_built() {
    for (base, url) in [
        ("https://zed.dev", "https://cloud.zed.dev/x?a=1&b=2"),
        ("https://staging.zed.dev", "https://llm-staging.zed.dev/x?a=1&b=2"),
        ("http://localhost:3000", "http://localhost:8787/x?a=1&b=2"),
        ("https://example.com", "https://example.com/x?a=1&b=2"),
    ] {
        assert_eq!(text(site(base).build_zed_llm_url("/x", &[("a", "1"), ("b", "2")])), url);
    }
}

#[test]
fn params_are_written_behind_a_query() {
    let client = site("https://zed.dev");
    assert_eq!(
        text(client.build_zed_api_url("/x?q=0#f", &[("a", "1&2"), ("b", "é")])),
        "https://api.zed.dev/x?q=0&a=1%262&b=%C3%A9#f"
    );
    assert_eq!(text(client.build_zed_api_url("/x", &[])), "https://api.zed.dev/x?");
    assert_eq!(text(client.build_zed_api_url("/x?q=0", &[])), "https://api.zed.dev/x?q=0");
    assert_eq!(text(client.build_zed_api_url("/x?", &[("a", "1")])), "https://api.zed.dev/x?a=1");
}

#[test]
fn params_are_read_back() {
    let params = [("a", "1 & 2"), ("", "%"), ("b", "")];
    let url = site("https://zed.dev").build_zed_llm_url("/x", &params).ok().unwrap();
    let read: Vec<(String, String)> = url.query_pairs().into_owned().collect();
    assert_eq!(
        read,
        params.iter().map(|(n, v)| (n.to_string(), v.to_string())).collect::<Vec<_>>()
    );
    assert_eq!(url.path(), "/x");
}

#[test]
fn llm_urls_are_cloud_urls_with_params() {
    for base in ["https://zed.dev", "http://localhost:3000", "ftp://u:p@h:77"] {
        for path in ["/x", "/x?q=1&r=%20#f", "/x?"] {
            let client = site(base);
            let cloud = client.build_zed_cloud_url(path).ok().unwrap();
            let llm = client.build_zed_llm_url(path, &[("a", "1&"), ("b", "")]).ok().unwrap();
            assert_eq!(llm.scheme(), cloud.scheme());
            assert_eq!(llm.host_str(), cloud.host_str());
            assert_eq!(llm.port(), cloud.port());
            assert_eq!(llm.path(), cloud.path());
            assert_eq!(llm.fragment(), cloud.fragment());
            let mut pairs: Vec<(String, String)> = cloud.query_pairs().into_owned().collect();
            pairs.push(("a".to_string(), "1&".to_string()));
            pairs.push(("b".to_string(), "".to_string()));
            assert_eq!(llm.query_pairs().into_owned().collect::<Vec<_>>(), pairs);
        }
    }
    let client = site("nowhere");
    assert!(client.build_zed_cloud_url("/x").is_err());
    assert!(client.build_zed_llm_url("/x", &[]).is_err());
}

#[test]
fn plain_urls_are_taken_as_they_are() {
    let url = site("https://zed.dev").build_zed_cloud_url("/A-b_1//c").ok().unwrap();
    assert_eq!(url.scheme(), "https");
    assert_eq!(url.host_str(), Some("cloud.zed.dev"));
    assert_eq!(url.port(), None);
    assert_eq!(url.path(), "/A-b_1//c");
    assert_eq!(url.query(), None);
    assert_eq!(url.fragment(), None);
}

#[test]
fn length_is_checked() {
    let client = site("https://zed.dev");
    let path = "/é".to_string() + &"x".repeat(0x0200_0000);
    let url = client.checked_zed_api_url(&path, &[("a", "")]).unwrap().ok().unwrap();
    assert_eq!(url.path().len(), 0x0200_0000 + 7);
    assert_eq!(url.query(), Some("a="));
    assert!(takes_params("https://zed.dev/x?q#f", &[("a", "1")]));
    assert!(takes_params("no URL", &[("a", "1")]));
    assert_eq!(
        text(client.checked_zed_api_url("/x", &[("a", "1")]).unwrap()),
        "https://api.zed.dev/x?a=1"
    );
    assert_eq!(
        text(client.checked_zed_llm_url("/x", &[("a", "1")]).unwrap()),
        "https://cloud.zed.dev/x?a=1"
    );
    assert_eq!(
        text(client.checked_zed_cloud_url("/x").unwrap()),
        "https://cloud.zed.dev/x"
    );
    assert_eq!(
        text(client.checked_zed_cloud_url_with_query("/x", &[("a", "1")]).unwrap()),
        "https://cloud.zed.dev/x?a=1"
    );
    assert_eq!(
        text(client.checked_zed_cloud_url_with_encoded_query("/x", Ok("k=v".to_string())).unwrap()),
        "https://cloud.zed.dev/x?k=v"
    );
    assert!(matches!(
        client.checked_zed_cloud_url_with_encoded_query("/x", serde_urlencoded::to_string(5)),
        Some(Err(UrlError::Query(_)))
    ));
    assert!(text_fits("éé", 2));
    assert!(!text_fits("éé", 1));
}

#[test]
fn positions_are_checked() {
    let max = POSITION_MAX;
    assert_eq!(max as u64, u32::MAX as u64);
    // No query string and no fragment: the new question mark has a position.
    assert!(do_positions_fit(max, max, max, max));
    assert!(!do_positions_fit(max + 1, max + 1, max + 1, 0));
    // A query string and no fragment: no new position.
    assert!(do_positions_fit(9, max + 5, max + 5, 7));
    // A fragment moves behind what is added and its separator.
    assert!(do_positions_fit(9, 9, 11, max - 10));
    assert!(!do_positions_fit(9, 9, 11, max - 9));
    assert!(do_positions_fit(9, 10, 11, max - 10));
    assert!(!do_positions_fit(9, 10, 11, max - 9));
    assert!(do_positions_fit(9, 12, 13, max - 13));
    assert!(!do_positions_fit(9, 12, 13, max - 12));
    assert!(do_positions_fit(9, max - 1, max, 0));
    assert!(!do_positions_fit(9, max, max + 1, 0));
}

#[test]
fn local_urls_have_their_port() {
    let client = site("http://localhost:3000");
    let url = client.build_zed_cloud_url("/x").ok().unwrap();
    assert_eq!(url.scheme(), "http");
    assert_eq!(url.host_str(), Some("localhost"));
    assert_eq!(url.port(), Some(8787));
    assert_eq!(url.path(), "/x");
    assert_eq!(site("https://a.b:443").build_zed_cloud_url("/").ok().unwrap().port(), None);
    assert_eq!(site("http://a.b:443").build_zed_cloud_url("/").ok().unwrap().port(), Some(443));
    assert_eq!(site("http://a.b:0").build_zed_cloud_url("/").ok().unwrap().port(), Some(0));
    assert_eq!(site("http://a.b:65535").build_zed_cloud_url("/").ok().unwrap().port(), Some(65535));
}

#[test]
fn cloud_query_is_part_of_what_is_parsed() {
    for base in ["https://zed.dev", "http://localhost:3000", "https://example.com", "", "x"] {
        let client = site(base);
        let with_query = client.build_zed_cloud_url_with_query("/x", &[("a", "1 2")]);
        let with_path = client.build_zed_cloud_url("/x?a=1+2");
        assert_eq!(with_query.ok(), with_path.ok());
    }
    let client = site("https://example.com");
    assert_eq!(
        client.build_zed_cloud_url("/x y").ok().unwrap(),
        Url::parse(&client.build_url("/x y")).unwrap()
    );
    assert!(site("").build_zed_cloud_url("/x").is_err());
}

#[test]
fn cloud_urls_take_a_query() {
    let client = site("https://staging.zed.dev");
    assert_eq!(
        text(client.build_zed_cloud_url_with_query("/x", &[("a", "1 2"), ("b", "3&4")])),
        "https://cloud.zed.dev/x?a=1+2&b=3%264"
    );
    assert_eq!(
        text(client.build_zed_cloud_url_with_query("/x", &[])),
        "https://cloud.zed.dev/x?"
    );
    assert_eq!(
        text(client.build_zed_cloud_url_with_encoded_query("/x", Ok("k=v".to_string()))),
        "https://cloud.zed.dev/x?k=v"
    );
    let failed = serde_urlencoded::to_string(5);
    assert!(matches!(
        client.build_zed_cloud_url_with_encoded_query("/x", failed),
        Err(UrlError::Query(_))
    ));
}

#[test]
fn malformed_urls_are_refused() {
    let client = site("nowhere");
    assert!(matches!(
        client.build_zed_api_url("/x", &[]),
        Err(UrlError::Url(url::ParseError::RelativeUrlWithoutBase))
    ));
    assert!(matches!(client.build_zed_llm_url("/x", &[]), Err(UrlError::Url(_))));
    assert!(matches!(client.build_zed_cloud_url("/x"), Err(UrlError::Url(_))));
    assert!(matches!(
        client.build_zed_cloud_url_with_query("/x", &[]),
        Err(UrlError::Url(_))
    ));
}

#[test]
fn fake_client_has_its_defaults() {
    let client = FakeHttpClient::create(|request: HttpRequest<Vec<u8>>| request.body.len());
    assert_eq!(client.base_url(), "http://test.example");
    assert_eq!(client.get("/", vec![1, 2, 3], false).ok().unwrap(), 3);
    assert!(HttpClient::<Vec<u8>, usize>::proxy(&client).is_none());
    assert_eq!(
        HttpClient::<Vec<u8>, usize>::user_agent(&client).unwrap(),
        "http_client::FakeHttpClient"
    );
}

#[test]
fn fake_client_sees_the_request() {
    let handler: Handler = Box::new(|request| {
        format!("{} {} {:?}", request.parts.method, request.parts.uri, policy(&request))
    });
    let client = FakeHttpClient::create(handler);
    assert_eq!(
        client.get("https://a/b", vec![], true).ok().unwrap(),
        "GET https://a/b Some(FollowAll)"
    );
    assert_eq!(client.post_json("https://a/b", vec![]).ok().unwrap(), "POST https://a/b None");
}

#[test]
fn handler_is_replaced_by_one_that_knows_it() {
    let handler: Handler = Box::new(|request| request.parts.uri.path().to_string());
    let mut client = FakeHttpClient::create(handler);
    client.replace_handler(|old: Arc<Handler>| -> Handler {
        Box::new(move |request| format!("<{}>", (*old)(request)))
    });
    assert_eq!(client.get("/a", vec![], true).ok().unwrap(), "</a>");
    assert_eq!(client.base_url(), "http://test.example");
}

#[test]
fn fake_client_replies_with_its_status() {
    let client: HttpClientWithUrl<FakeHttpClient<FixedStatus>> =
        FakeHttpClient::with_404_response();
    let reply: Reply = client.get("https://a/b", vec![7], true).ok().unwrap();
    let response = reply.ok().unwrap();
    assert_eq!(response.parts.status, 404);
    assert!(response.body.is_empty());
    assert!(response.parts.headers.is_empty());
    assert!(response.parts.extensions.is_empty());
    assert_eq!(response.parts.version, http::Version::HTTP_11);
    let client = FakeHttpClient::with_200_response();
    let reply: Reply = client.post_json("https://a/b", vec![7]).ok().unwrap();
    let response = reply.ok().unwrap();
    assert_eq!(response.parts.status, 200);
    assert!(response.body.is_empty());
    assert!(response.parts.headers.is_empty());
    for fake in [client.as_fake(), (*client).as_fake()] {
        assert_eq!(
            HttpClient::<Vec<u8>, Reply>::user_agent(fake).unwrap(),
            "http_client::FakeHttpClient"
        );
    }
}

struct Echo;

impl HttpClient<Vec<u8>, Vec<u8>> for Echo {
    fn user_agent(&self) -> Option<&http::HeaderValue> {
        None
    }

    fn proxy(&self) -> Option<&Url> {
        None
    }

    fn send(&self, req: HttpRequest<Vec<u8>>) -> Vec<u8> {
        req.body
    }
}

#[test]
fn own_clients_can_be_wrapped() {
    let proxy = Url::parse("http://p:1").unwrap();
    let client = HttpClientWithProxy::new_url(Echo, Some(proxy.clone()));
    assert_eq!(client.post_json("/", vec![4, 2]).ok().unwrap(), vec![4, 2]);
    assert_eq!(client.proxy(), Some(&proxy));
    assert!((*client).proxy().is_none());
    let client = HttpClientWithUrl::new_url(Echo, "x".to_string(), Some(proxy.clone()));
    assert_eq!(client.get("/", vec![4], false).ok().unwrap(), vec![4]);
    assert_eq!(client.proxy(), Some(&proxy));
}
