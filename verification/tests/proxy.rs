use http_client::proxy::{env_fits, no_proxy_variables, proxy_variables};
use http_client::{
    read_no_proxy_from_env, read_proxy_from_env, BlockedHttpClient, HttpClientWithProxy,
    HttpClientWithUrl,
};
use http_client::{HttpClient, HttpResponse, SendError};

type Reply = Result<HttpResponse<Vec<u8>>, SendError>;

fn env(vars: &[(&str, &str)]) -> Vec<(String, String)> {
    vars.iter().map(|(name, value)| (name.to_string(), value.to_string())).collect()
}

fn proxy_of(vars: &[(&str, &str)]) -> Option<String> {
    read_proxy_from_env(&env(vars)).map(|url| url.as_str().to_string())
}

fn chosen(asked: Option<&str>, vars: &[(&str, &str)]) -> Option<String> {
    let client = HttpClientWithProxy::new(
        BlockedHttpClient::new(),
        asked.map(|text| text.to_string()),
        &env(vars),
    );
    <HttpClientWithProxy<BlockedHttpClient> as HttpClient<Vec<u8>, Reply>>::proxy(&client)
        .map(|url| url.as_str().to_string())
}

#[test]
fn variables_are_named_in_order() {
    assert_eq!(
        proxy_variables(),
        vec!["ALL_PROXY", "all_proxy", "HTTPS_PROXY", "https_proxy", "HTTP_PROXY", "http_proxy"]
    );
    assert_eq!(no_proxy_variables(), vec!["NO_PROXY", "no_proxy"]);
}

#[test]
fn no_variable_gives_no_proxy() {
    assert_eq!(proxy_of(&[]), None);
    assert_eq!(proxy_of(&[("PATH", "/bin"), ("NO_PROXY", "x")]), None);
}

#[test]
fn each_variable_names_a_proxy() {
    for name in proxy_variables() {
        assert_eq!(
            proxy_of(&[(name, "socks5://p:1080")]),
            Some("socks5://p:1080".to_string())
        );
    }
}

#[test]
fn more_important_variables_come_first() {
    let all = [
        ("http_proxy", "http://f"),
        ("HTTP_PROXY", "http://e"),
        ("https_proxy", "http://d"),
        ("HTTPS_PROXY", "http://c"),
        ("all_proxy", "http://b"),
        ("ALL_PROXY", "http://a"),
    ];
    for n in 1..=6 {
        let expected = format!("{}/", all[n - 1].1);
        assert_eq!(proxy_of(&all[..n]), Some(expected));
    }
}

#[test]
fn malformed_first_variable_hides_the_others() {
    assert_eq!(proxy_of(&[("ALL_PROXY", "not a url"), ("http_proxy", "http://p")]), None);
    assert_eq!(proxy_of(&[("ALL_PROXY", ""), ("http_proxy", "http://p")]), None);
}

#[test]
fn ordinary_environments_fit() {
    assert!(env_fits(&env(&[])));
    assert!(env_fits(&env(&[("ALL_PROXY", "http://p"), ("PATH", "/bin")])));
}

#[test]
fn no_proxy_is_read_as_text() {
    assert_eq!(read_no_proxy_from_env(&env(&[])), None);
    assert_eq!(
        read_no_proxy_from_env(&env(&[("no_proxy", "localhost,.dev")])),
        Some("localhost,.dev".to_string())
    );
    assert_eq!(
        read_no_proxy_from_env(&env(&[("no_proxy", "b"), ("NO_PROXY", "")])),
        Some("".to_string())
    );
}

#[test]
fn asked_proxy_is_used() {
    assert_eq!(
        chosen(Some("http://mine:81"), &[("ALL_PROXY", "http://p")]),
        Some("http://mine:81/".to_string())
    );
}

#[test]
fn environment_stands_in() {
    assert_eq!(chosen(None, &[("ALL_PROXY", "http://p")]), Some("http://p/".to_string()));
    assert_eq!(
        chosen(Some("no url"), &[("ALL_PROXY", "http://p")]),
        Some("http://p/".to_string())
    );
    assert_eq!(chosen(Some("no url"), &[]), None);
    assert_eq!(chosen(None, &[]), None);
}

#[test]
fn client_with_url_chooses_alike() {
    let client = HttpClientWithUrl::new(
        BlockedHttpClient::new(),
        "https://zed.dev".to_string(),
        Some("http://mine:81".to_string()),
        &env(&[("ALL_PROXY", "http://p")]),
    );
    let proxy =
        <HttpClientWithUrl<BlockedHttpClient> as HttpClient<Vec<u8>, Reply>>::proxy(&client);
    assert_eq!(proxy.unwrap().as_str(), "http://mine:81/");
    assert_eq!(client.base_url(), "https://zed.dev");
}
