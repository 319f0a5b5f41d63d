//! Clients: what answers requests, with a proxy and with a base URL.

use crate::proxy::choose_proxy;
use crate::request::{get_request, post_json_request, HttpRequest, RequestError};
use crate::text::{concat, text_fits};
use crate::urls::{zed_api_base, zed_cloud_base, zed_llm_base};
use crate::web::{
    parse_url, parse_url_with_params, response_parts, static_header_value, takes_params, urlencode,
};
use http::HeaderValue;
use std::sync::Arc;
use url::Url;
use vstd::prelude::*;

verus! {

/// Whether a client made the request with this head and this body and handed
/// back the reply to it, or made none because of the error that stands in place
/// of the head.
pub open spec fn is_exchange<B, R>(
    result: Result<R, RequestError>,
    head: Result<crate::web::RequestHead, http::Error>,
    body: B,
    answers: spec_fn(HttpRequest<B>, R) -> bool,
) -> bool {
    match head {
        Err(error) => result == Err::<R, RequestError>(RequestError::Invalid(error)),
        Ok(head) => result is Ok && exists|request: HttpRequest<B>|
            request.head() == head && request.body == body && #[trigger] answers(
                request,
                result->Ok_0,
            ),
    }
}

/// Something that answers requests with a body of kind `B` by a reply of kind
/// `R`, such as a future of a response.
pub trait HttpClient<B, R>: 'static + Send + Sync {
    /// Whether the client can be given requests: any client can that says
    /// nothing else.
    open spec fn is_ready(&self) -> bool {
        true
    }

    /// Whether a reply is one that the client gives to a request: any reply is
    /// where the client says nothing else.
    open spec fn answers(&self, request: HttpRequest<B>, reply: R) -> bool {
        true
    }

    /// Whether the client calls itself this: it may be anything where the
    /// client says nothing else.
    open spec fn has_user_agent(&self, user_agent: Option<&HeaderValue>) -> bool {
        true
    }

    /// Whether the client uses this proxy: it may be any where the client says
    /// nothing else.
    open spec fn has_proxy(&self, proxy: Option<&Url>) -> bool {
        true
    }

    /// What the client calls itself.
    fn user_agent(&self) -> (user_agent: Option<&HeaderValue>)
        ensures
            self.has_user_agent(user_agent),
    ;

    /// The proxy that the client uses.
    fn proxy(&self) -> (proxy: Option<&Url>)
        ensures
            self.has_proxy(proxy),
    ;

    /// Makes a request.
    fn send(&self, req: HttpRequest<B>) -> (reply: R)
        requires
            self.is_ready(),
        ensures
            self.answers(req, reply),
    ;

    /// Makes a `GET` request.
    fn get(&self, uri: &str, body: B, follow_redirects: bool) -> (result: Result<R, RequestError>)
        requires
            self.is_ready(),
        ensures
            is_exchange(
                result,
                crate::request::get_head(uri@, follow_redirects),
                body,
                |request: HttpRequest<B>, reply: R| self.answers(request, reply),
            ),
            match crate::web::request_uri(uri@) {
                Err(error) => result matches Err(RequestError::Invalid(found)) && found == error,
                Ok(taken) => result is Ok && exists|request: HttpRequest<B>| {
                    &&& #[trigger] self.answers(request, result->Ok_0)
                    &&& request.body == body
                    &&& crate::web::parts_hold(request.parts).method == "GET"@
                    &&& crate::web::parts_hold(request.parts).uri == taken
                    &&& crate::web::parts_hold(request.parts).version == "HTTP/1.1"@
                    &&& crate::web::parts_hold(request.parts).headers == Map::<
                        Seq<char>,
                        Seq<Seq<char>>,
                    >::empty()
                    &&& crate::web::parts_hold(request.parts).redirects == Some(
                        if follow_redirects {
                            crate::redirect::RedirectPolicy::FollowAll
                        } else {
                            crate::redirect::RedirectPolicy::NoFollow
                        },
                    )
                    &&& crate::web::parts_hold(request.parts).others is None
                },
            },
            crate::request::is_uri_certainly(uri@),
    {
        let ghost answers = |request: HttpRequest<B>, reply: R| self.answers(request, reply);
        match get_request(uri, body, follow_redirects) {
            Ok(request) => {
                let result = Ok(self.send(request));
                assert(answers(request, result->Ok_0));
                result
            },
            Err(error) => Err(error),
        }
    }

    /// Makes a `POST` request with a JSON body.
    fn post_json(&self, uri: &str, body: B) -> (result: Result<R, RequestError>)
        requires
            self.is_ready(),
        ensures
            is_exchange(
                result,
                crate::request::post_json_head(uri@),
                body,
                |request: HttpRequest<B>, reply: R| self.answers(request, reply),
            ),
            match crate::web::request_uri(uri@) {
                Err(error) => result matches Err(RequestError::Invalid(found)) && found == error,
                Ok(taken) => result is Ok && exists|request: HttpRequest<B>| {
                    &&& #[trigger] self.answers(request, result->Ok_0)
                    &&& request.body == body
                    &&& crate::web::parts_hold(request.parts).method == "POST"@
                    &&& crate::web::parts_hold(request.parts).uri == taken
                    &&& crate::web::parts_hold(request.parts).version == "HTTP/1.1"@
                    &&& crate::web::parts_hold(request.parts).headers == Map::<
                        Seq<char>,
                        Seq<Seq<char>>,
                    >::empty().insert("content-type"@, seq!["application/json"@])
                    &&& crate::web::parts_hold(request.parts).redirects is None
                    &&& crate::web::parts_hold(request.parts).others is None
                },
            },
            crate::request::is_uri_certainly(uri@),
    {
        let ghost answers = |request: HttpRequest<B>, reply: R| self.answers(request, reply);
        match post_json_request(uri, body) {
            Ok(request) => {
                let result = Ok(self.send(request));
                assert(answers(request, result->Ok_0));
                result
            },
            Err(error) => Err(error),
        }
    }
}

/// Whether a reference is to this proxy.
pub open spec fn is_proxy(url: Option<Url>, proxy: Option<&Url>) -> bool {
    match (url, proxy) {
        (Some(url), Some(proxy)) => *proxy == url,
        (None, None) => true,
        _ => false,
    }
}

/// An [`HttpClient`] that may have a proxy.
pub struct HttpClientWithProxy<C> {
    client: C,
    proxy: Option<Url>,
}

impl<C> HttpClientWithProxy<C> {
    /// The client that makes the requests.
    pub closed spec fn inner(self) -> C {
        self.client
    }

    /// The proxy that the client is to use.
    pub closed spec fn proxy_url(self) -> Option<Url> {
        self.proxy
    }

    /// Returns a new [`HttpClientWithProxy`] with the given proxy URL, or with
    /// the proxy that the environment asks for.
    pub fn new(client: C, proxy_url: Option<String>, env: &Vec<(String, String)>) -> (result: Self)
        requires
            crate::proxy::is_fitting(crate::proxy::text_of(proxy_url)),
            crate::proxy::is_fitting(
                crate::proxy::first_value_of(
                    crate::web::owned_pairs(env@),
                    crate::proxy::proxy_names(),
                ),
            ),
        ensures
            result.inner() == client,
            result.proxy_url() == crate::proxy::chosen_proxy(
                crate::proxy::text_of(proxy_url),
                crate::web::owned_pairs(env@),
            ),
    {
        let proxy_url = choose_proxy(proxy_url, env);
        Self::new_url(client, proxy_url)
    }

    /// Returns a new [`HttpClientWithProxy`] with the given proxy.
    pub fn new_url(client: C, proxy_url: Option<Url>) -> (result: Self)
        ensures
            result.inner() == client,
            result.proxy_url() == proxy_url,
    {
        Self { client, proxy: proxy_url }
    }
}

impl<C> core::ops::Deref for HttpClientWithProxy<C> {
    type Target = C;

    fn deref(&self) -> (client: &C)
        ensures
            *client == self.inner(),
    {
        &self.client
    }
}

impl<B, R, C: HttpClient<B, R>> HttpClient<B, R> for HttpClientWithProxy<C> {
    open spec fn is_ready(&self) -> bool {
        self.inner().is_ready()
    }

    open spec fn answers(&self, request: HttpRequest<B>, reply: R) -> bool {
        self.inner().answers(request, reply)
    }

    fn send(&self, req: HttpRequest<B>) -> (reply: R) {
        self.client.send(req)
    }

    open spec fn has_user_agent(&self, user_agent: Option<&HeaderValue>) -> bool {
        self.inner().has_user_agent(user_agent)
    }

    open spec fn has_proxy(&self, proxy: Option<&Url>) -> bool {
        is_proxy(self.proxy_url(), proxy)
    }

    fn user_agent(&self) -> (user_agent: Option<&HeaderValue>) {
        self.client.user_agent()
    }

    fn proxy(&self) -> (proxy: Option<&Url>) {
        self.proxy.as_ref()
    }
}

/// A URL that was not built.
#[derive(Debug)]
pub enum UrlError {
    /// The query cannot be written as a query string.
    Query(serde_urlencoded::ser::Error),
    /// The text is no URL.
    Url(url::ParseError),
}

/// A parsed URL, with the error of this library.
pub open spec fn built(parsed: Result<Url, url::ParseError>) -> Result<Url, UrlError> {
    match parsed {
        Ok(url) => Ok(url),
        Err(error) => Err(UrlError::Url(error)),
    }
}

/// Whether a URL is that of a text with parameters added: as the URL of the
/// text, but for the query string, whose pairs are those that were there and
/// then the parameters.
pub open spec fn has_params(
    result: Result<Url, UrlError>,
    text: Seq<char>,
    params: Seq<(Seq<char>, Seq<char>)>,
) -> bool {
    match crate::web::url_parsed(text) {
        Err(error) => result == Err::<Url, UrlError>(UrlError::Url(error)),
        Ok(bare) => result matches Ok(url) && crate::web::is_same_place(url, bare)
            && crate::web::url_path(url) == crate::web::url_path(bare) && crate::web::url_query(url)
            == Some(
            crate::web::extended_query(
                crate::web::url_query(bare),
                crate::web::urlencoded(params),
            ),
        ) && crate::web::url_pairs(url) == crate::web::url_pairs(bare) + params,
    }
}

/// Whether a result is a URL with a path and a query string, provided that the
/// text that it was built from is a URL of the plainest kind with that path;
/// scheme, host and port are then those of the text.
pub open spec fn is_plainly(
    result: Result<Url, UrlError>,
    text: Seq<char>,
    path: Seq<char>,
    text_query: Option<Seq<char>>,
    query: Option<Seq<char>>,
) -> bool {
    forall|scheme: Seq<char>, host: Seq<char>, port: Option<u16>| #[trigger]
        crate::web::is_plain_url(text, scheme, host, port, path, text_query) ==> (result matches Ok(
            url,
        ) && crate::web::is_at(url, scheme, host, port) && crate::web::url_path(url) == path
            && crate::web::url_query(url) == query)
}

/// Whether a result is what comes of a text, with this path and perhaps this
/// query string.
pub open spec fn is_bare_url(
    result: Result<Url, UrlError>,
    text: Seq<char>,
    path: Seq<char>,
    query: Option<Seq<char>>,
) -> bool {
    &&& result == built(crate::web::url_parsed(text))
    &&& is_plainly(result, text, path, query, query)
}

/// Whether a result is what comes of a text with this path, with parameters
/// added.
pub open spec fn is_url_with_params(
    result: Result<Url, UrlError>,
    text: Seq<char>,
    path: Seq<char>,
    params: Seq<(Seq<char>, Seq<char>)>,
) -> bool {
    &&& result == built(crate::web::url_parsed_with_params(text, params))
    &&& has_params(result, text, params)
    &&& is_plainly(result, text, path, None, Some(crate::web::urlencoded(params)))
}

fn build_with_params(text: &str, params: &[(&str, &str)]) -> (result: Result<Url, UrlError>)
    requires
        crate::web::can_take_params(text@, crate::web::borrowed_pairs(params@)),
    ensures
        forall|path: Seq<char>| #[trigger]
            is_url_with_params(result, text@, path, crate::web::borrowed_pairs(params@)),
{
    match parse_url_with_params(text, params) {
        Ok(url) => Ok(url),
        Err(error) => Err(UrlError::Url(error)),
    }
}

/// An [`HttpClient`] that has a base URL.
pub struct HttpClientWithUrl<C> {
    base_url: String,
    client: HttpClientWithProxy<C>,
}

impl<C> HttpClientWithUrl<C> {
    /// The base URL.
    pub closed spec fn base(self) -> Seq<char> {
        self.base_url@
    }

    /// The client that makes the requests, with its proxy.
    pub closed spec fn proxied(self) -> HttpClientWithProxy<C> {
        self.client
    }

    /// Returns a new [`HttpClientWithUrl`] with the given base URL.
    pub fn new(
        client: C,
        base_url: String,
        proxy_url: Option<String>,
        env: &Vec<(String, String)>,
    ) -> (result: Self)
        requires
            crate::proxy::is_fitting(crate::proxy::text_of(proxy_url)),
            crate::proxy::is_fitting(
                crate::proxy::first_value_of(
                    crate::web::owned_pairs(env@),
                    crate::proxy::proxy_names(),
                ),
            ),
        ensures
            result.base() == base_url@,
            result.proxied().inner() == client,
            result.proxied().proxy_url() == crate::proxy::chosen_proxy(
                crate::proxy::text_of(proxy_url),
                crate::web::owned_pairs(env@),
            ),
    {
        let client = HttpClientWithProxy::new(client, proxy_url, env);
        Self { base_url, client }
    }

    /// Returns a new [`HttpClientWithUrl`] with the given base URL and proxy.
    pub fn new_url(client: C, base_url: String, proxy_url: Option<Url>) -> (result: Self)
        ensures
            result.base() == base_url@,
            result.proxied().inner() == client,
            result.proxied().proxy_url() == proxy_url,
    {
        let client = HttpClientWithProxy::new_url(client, proxy_url);
        Self { base_url, client }
    }

    /// Returns the base URL.
    pub fn base_url(&self) -> (base_url: String)
        ensures
            base_url@ == self.base(),
    {
        self.base_url.clone()
    }

    /// Sets the base URL.
    pub fn set_base_url(&mut self, base_url: String)
        ensures
            final(self).base() == base_url@,
            final(self).proxied() == old(self).proxied(),
    {
        self.base_url = base_url;
    }

    /// Builds a URL using the given path.
    pub fn build_url(&self, path: &str) -> (url: String)
        ensures
            url@ == self.base() + path@,
    {
        concat(self.base_url.as_str(), path)
    }

    /// Builds a Zed API URL using the given path.
    pub fn build_zed_api_url(&self, path: &str, query: &[(&str, &str)]) -> (result: Result<
        Url,
        UrlError,
    >)
        requires
            crate::web::can_take_params(
                crate::urls::api_base(self.base()) + path@,
                crate::web::borrowed_pairs(query@),
            ),
        ensures
            is_url_with_params(
                result,
                crate::urls::api_base(self.base()) + path@,
                path@,
                crate::web::borrowed_pairs(query@),
            ),
    {
        let text = concat(zed_api_base(self.base_url.as_str()), path);
        build_with_params(text.as_str(), query)
    }

    /// Builds a Zed API URL using the given path, unless it would be too long.
    pub fn checked_zed_api_url(&self, path: &str, query: &[(&str, &str)]) -> (result: Option<
        Result<Url, UrlError>,
    >)
        ensures
            result is Some <==> crate::web::can_take_params(
                crate::urls::api_base(self.base()) + path@,
                crate::web::borrowed_pairs(query@),
            ),
            result matches Some(result) ==> is_url_with_params(
                result,
                crate::urls::api_base(self.base()) + path@,
                path@,
                crate::web::borrowed_pairs(query@),
            ),
    {
        let text = concat(zed_api_base(self.base_url.as_str()), path);
        if takes_params(text.as_str(), query) {
            Some(self.build_zed_api_url(path, query))
        } else {
            None
        }
    }

    /// Builds a Zed Cloud URL using the given path.
    pub fn build_zed_cloud_url(&self, path: &str) -> (result: Result<Url, UrlError>)
        requires
            crate::urls::cloud_base(self.base()).len() + path@.len() <= crate::web::URL_TEXT_MAX,
        ensures
            is_bare_url(result, crate::urls::cloud_base(self.base()) + path@, path@, None),
    {
        let text = concat(zed_cloud_base(self.base_url.as_str()), path);
        match parse_url(text.as_str()) {
            Ok(url) => Ok(url),
            Err(error) => Err(UrlError::Url(error)),
        }
    }

    /// Builds a Zed Cloud URL using the given path, unless it would be too long.
    pub fn checked_zed_cloud_url(&self, path: &str) -> (result: Option<Result<Url, UrlError>>)
        ensures
            result is Some <==> crate::urls::cloud_base(self.base()).len() + path@.len()
                <= crate::web::URL_TEXT_MAX,
            result matches Some(result) ==> is_bare_url(
                result,
                crate::urls::cloud_base(self.base()) + path@,
                path@,
                None,
            ),
    {
        let text = concat(zed_cloud_base(self.base_url.as_str()), path);
        if text_fits(text.as_str(), crate::web::URL_TEXT_MAX) {
            Some(self.build_zed_cloud_url(path))
        } else {
            None
        }
    }

    /// Builds a Zed Cloud URL using the given path and query params.
    pub fn build_zed_cloud_url_with_query(&self, path: &str, query: &[(&str, &str)]) -> (result:
        Result<Url, UrlError>)
        requires
            crate::urls::cloud_base(self.base()).len() + path@.len() + crate::web::urlencoded(
                crate::web::borrowed_pairs(query@),
            ).len() < crate::web::URL_TEXT_MAX,
        ensures
            is_bare_url(
                result,
                crate::urls::cloud_base(self.base()) + path@ + "?"@ + crate::web::urlencoded(
                    crate::web::borrowed_pairs(query@),
                ),
                path@,
                Some(crate::web::urlencoded(crate::web::borrowed_pairs(query@))),
            ),
            crate::web::form_pairs(crate::web::urlencoded(crate::web::borrowed_pairs(query@)))
                == crate::web::borrowed_pairs(query@),
    {
        self.build_zed_cloud_url_with_encoded_query(path, urlencode(query))
    }

    /// Builds a Zed Cloud URL using the given path and query params, unless it
    /// would be too long.
    pub fn checked_zed_cloud_url_with_query(&self, path: &str, query: &[(&str, &str)]) -> (result:
        Option<Result<Url, UrlError>>)
        ensures
            result is Some <==> crate::urls::cloud_base(self.base()).len() + path@.len()
                + crate::web::urlencoded(crate::web::borrowed_pairs(query@)).len()
                < crate::web::URL_TEXT_MAX,
            result matches Some(result) ==> is_bare_url(
                result,
                crate::urls::cloud_base(self.base()) + path@ + "?"@ + crate::web::urlencoded(
                    crate::web::borrowed_pairs(query@),
                ),
                path@,
                Some(crate::web::urlencoded(crate::web::borrowed_pairs(query@))),
            ),
    {
        if let Ok(encoded) = urlencode(query) {
            let mut text = concat(zed_cloud_base(self.base_url.as_str()), path);
            text.push_str(encoded.as_str());
            if !text_fits(text.as_str(), crate::web::URL_TEXT_MAX - 1) {
                return None;
            }
        }
        Some(self.build_zed_cloud_url_with_query(path, query))
    }

    /// Builds a Zed Cloud URL using the given path and what came of writing
    /// query params as a query string.
    pub fn build_zed_cloud_url_with_encoded_query(
        &self,
        path: &str,
        query: Result<String, serde_urlencoded::ser::Error>,
    ) -> (result: Result<Url, UrlError>)
        requires
            query matches Ok(query) ==> crate::urls::cloud_base(self.base()).len() + path@.len()
                + query@.len() < crate::web::URL_TEXT_MAX,
        ensures
            match query {
                Err(error) => result == Err::<Url, UrlError>(UrlError::Query(error)),
                Ok(query) => is_bare_url(
                    result,
                    crate::urls::cloud_base(self.base()) + path@ + "?"@ + query@,
                    path@,
                    Some(query@),
                ),
            },
    {
        let query = match query {
            Ok(query) => query,
            Err(error) => return Err(UrlError::Query(error)),
        };
        proof {
            reveal_strlit("?");
        }
        let mut text = concat(zed_cloud_base(self.base_url.as_str()), path);
        text.push_str("?");
        text.push_str(query.as_str());
        match parse_url(text.as_str()) {
            Ok(url) => Ok(url),
            Err(error) => Err(UrlError::Url(error)),
        }
    }

    /// Builds a Zed Cloud URL using the given path and what came of writing
    /// query params as a query string, unless it would be too long.
    pub fn checked_zed_cloud_url_with_encoded_query(
        &self,
        path: &str,
        query: Result<String, serde_urlencoded::ser::Error>,
    ) -> (result: Option<Result<Url, UrlError>>)
        ensures
            result is Some <==> (query matches Ok(query) ==> crate::urls::cloud_base(
                self.base(),
            ).len() + path@.len() + query@.len() < crate::web::URL_TEXT_MAX),
            result matches Some(result) ==> match query {
                Err(error) => result == Err::<Url, UrlError>(UrlError::Query(error)),
                Ok(query) => is_bare_url(
                    result,
                    crate::urls::cloud_base(self.base()) + path@ + "?"@ + query@,
                    path@,
                    Some(query@),
                ),
            },
    {
        if let Ok(query) = &query {
            let mut text = concat(zed_cloud_base(self.base_url.as_str()), path);
            text.push_str(query.as_str());
            if !text_fits(text.as_str(), crate::web::URL_TEXT_MAX - 1) {
                return None;
            }
        }
        Some(self.build_zed_cloud_url_with_encoded_query(path, query))
    }

    /// Builds a Zed LLM URL using the given path.
    pub fn build_zed_llm_url(&self, path: &str, query: &[(&str, &str)]) -> (result: Result<
        Url,
        UrlError,
    >)
        requires
            crate::web::can_take_params(
                crate::urls::llm_base(self.base()) + path@,
                crate::web::borrowed_pairs(query@),
            ),
        ensures
            is_url_with_params(
                result,
                crate::urls::llm_base(self.base()) + path@,
                path@,
                crate::web::borrowed_pairs(query@),
            ),
    {
        let text = concat(zed_llm_base(self.base_url.as_str()), path);
        build_with_params(text.as_str(), query)
    }

    /// Builds a Zed LLM URL using the given path, unless it would be too long.
    pub fn checked_zed_llm_url(&self, path: &str, query: &[(&str, &str)]) -> (result: Option<
        Result<Url, UrlError>,
    >)
        ensures
            result is Some <==> crate::web::can_take_params(
                crate::urls::llm_base(self.base()) + path@,
                crate::web::borrowed_pairs(query@),
            ),
            result matches Some(result) ==> is_url_with_params(
                result,
                crate::urls::llm_base(self.base()) + path@,
                path@,
                crate::web::borrowed_pairs(query@),
            ),
    {
        let text = concat(zed_llm_base(self.base_url.as_str()), path);
        if takes_params(text.as_str(), query) {
            Some(self.build_zed_llm_url(path, query))
        } else {
            None
        }
    }
}

impl<C> core::ops::Deref for HttpClientWithUrl<C> {
    type Target = HttpClientWithProxy<C>;

    fn deref(&self) -> (client: &HttpClientWithProxy<C>)
        ensures
            *client == self.proxied(),
    {
        &self.client
    }
}

impl<B, R, C: HttpClient<B, R>> HttpClient<B, R> for HttpClientWithUrl<C> {
    open spec fn is_ready(&self) -> bool {
        self.proxied().inner().is_ready()
    }

    open spec fn answers(&self, request: HttpRequest<B>, reply: R) -> bool {
        self.proxied().inner().answers(request, reply)
    }

    fn send(&self, req: HttpRequest<B>) -> (reply: R) {
        self.client.send(req)
    }

    open spec fn has_user_agent(&self, user_agent: Option<&HeaderValue>) -> bool {
        self.proxied().inner().has_user_agent(user_agent)
    }

    open spec fn has_proxy(&self, proxy: Option<&Url>) -> bool {
        is_proxy(self.proxied().proxy_url(), proxy)
    }

    fn user_agent(&self) -> (user_agent: Option<&HeaderValue>) {
        self.client.user_agent()
    }

    fn proxy(&self) -> (proxy: Option<&Url>) {
        self.client.proxy.as_ref()
    }
}

/// A response, with a body of any kind.
pub struct HttpResponse<B> {
    pub parts: http::response::Parts,
    pub body: B,
}

impl<B> HttpResponse<B> {
    /// What the response holds besides its body.
    pub open spec fn head(self) -> crate::web::ResponseHead {
        crate::web::response_holds(self.parts)
    }
}

/// A request that a client did not send.
#[derive(Debug, Clone, Copy, PartialEq, Eq, Structural)]
pub enum SendError {
    /// The client may send nothing.
    PermissionDenied,
}

impl SendError {
    /// What the error is reported as.
    pub fn message(&self) -> (message: &'static str)
        ensures
            message@ == "BlockedHttpClient disallowed request"@,
    {
        "BlockedHttpClient disallowed request"
    }
}

/// An [`HttpClient`] that refuses every request.
pub struct BlockedHttpClient;

impl BlockedHttpClient {
    /// Returns a new [`BlockedHttpClient`].
    pub fn new() -> (client: Self)
        ensures
            client == BlockedHttpClient,
    {
        BlockedHttpClient
    }
}

impl<B> HttpClient<B, Result<HttpResponse<B>, SendError>> for BlockedHttpClient {
    open spec fn is_ready(&self) -> bool {
        true
    }

    open spec fn answers(
        &self,
        request: HttpRequest<B>,
        reply: Result<HttpResponse<B>, SendError>,
    ) -> bool {
        reply == Err::<HttpResponse<B>, SendError>(SendError::PermissionDenied)
    }

    fn send(&self, _req: HttpRequest<B>) -> (reply: Result<HttpResponse<B>, SendError>) {
        Err(SendError::PermissionDenied)
    }

    open spec fn has_user_agent(&self, user_agent: Option<&HeaderValue>) -> bool {
        user_agent is None
    }

    open spec fn has_proxy(&self, proxy: Option<&Url>) -> bool {
        proxy is None
    }

    fn user_agent(&self) -> (user_agent: Option<&HeaderValue>) {
        None
    }

    fn proxy(&self) -> (proxy: Option<&Url>) {
        None
    }
}

/// The base URL of a fake client.
pub const FAKE_BASE_URL: &'static str = "http://test.example";

/// What a fake client calls itself.
pub const FAKE_USER_AGENT: &'static str = "http_client::FakeHttpClient";

/// An [`HttpClient`] whose replies a handler makes up.
pub struct FakeHttpClient<H> {
    handler: Arc<H>,
    user_agent: HeaderValue,
}

impl<H> FakeHttpClient<H> {
    /// What makes up the replies.
    pub closed spec fn replies_by(self) -> H {
        *self.handler
    }

    /// What the client calls itself.
    pub closed spec fn agent(self) -> HeaderValue {
        self.user_agent
    }

    /// Returns a client with the given handler, a base URL and no proxy.
    pub fn create(handler: H) -> (client: HttpClientWithUrl<Self>)
        ensures
            client.base() == FAKE_BASE_URL@,
            client.proxied().proxy_url() is None,
            client.proxied().inner().replies_by() == handler,
            crate::web::header_text(client.proxied().inner().agent()) == FAKE_USER_AGENT@,
    {
        proof {
            reveal_strlit("http_client::FakeHttpClient");
        }
        HttpClientWithUrl {
            base_url: FAKE_BASE_URL.to_owned(),
            client: HttpClientWithProxy {
                client: FakeHttpClient {
                    handler: Arc::new(handler),
                    user_agent: static_header_value(FAKE_USER_AGENT),
                },
                proxy: None,
            },
        }
    }

    /// Replaces the handler by one that is made from it.
    pub fn replace_handler<F: FnOnce(Arc<H>) -> H>(&mut self, new_handler: F)
        requires
            call_requires(new_handler, (Arc::new(old(self).replies_by()),)),
        ensures
            call_ensures(
                new_handler,
                (Arc::new(old(self).replies_by()),),
                final(self).replies_by(),
            ),
            final(self).agent() == old(self).agent(),
    {
        let handler = new_handler(self.handler.clone());
        self.handler = Arc::new(handler);
    }
}

/// Whether a reply is a response with a status code, without headers and with an
/// empty body.
pub open spec fn is_empty_response<B: Default>(
    reply: Result<HttpResponse<B>, SendError>,
    status: u16,
) -> bool {
    &&& reply is Ok
    &&& reply->Ok_0.head() == crate::web::status_head(status)
    &&& call_ensures(B::default, (), reply->Ok_0.body)
}

/// A response with a status code, without headers and with an empty body.
pub fn empty_response<B: Default>(status: u16) -> (response: HttpResponse<B>)
    requires
        100 <= status < 1000,
    ensures
        response.head() == crate::web::status_head(status),
        crate::web::response_holds(response.parts).status == status,
        crate::web::response_holds(response.parts).version == "HTTP/1.1"@,
        crate::web::response_holds(response.parts).headers == Map::<
            Seq<char>,
            Seq<Seq<char>>,
        >::empty(),
        crate::web::response_holds(response.parts).extensions is None,
        call_ensures(B::default, (), response.body),
{
    HttpResponse { parts: response_parts(status), body: B::default() }
}

/// A handler that replies to every request with one status code and an empty
/// body.
#[derive(Debug, Clone, Copy, PartialEq, Eq, Structural)]
pub struct FixedStatus {
    status: u16,
}

impl FixedStatus {
    /// The status code of the replies.
    pub closed spec fn code(self) -> u16 {
        self.status
    }

    #[verifier::type_invariant]
    spec fn is_valid(self) -> bool {
        100 <= self.status < 1000
    }
}

impl FakeHttpClient<FixedStatus> {
    /// Returns a client that replies to every request with status 404.
    pub fn with_404_response() -> (client: HttpClientWithUrl<Self>)
        ensures
            client.base() == FAKE_BASE_URL@,
            client.proxied().proxy_url() is None,
            crate::web::header_text(client.proxied().inner().agent()) == FAKE_USER_AGENT@,
            client.proxied().inner().replies_by().code() == 404,
    {
        FakeHttpClient::create(FixedStatus { status: 404 })
    }

    /// Returns a client that replies to every request with status 200.
    pub fn with_200_response() -> (client: HttpClientWithUrl<Self>)
        ensures
            client.base() == FAKE_BASE_URL@,
            client.proxied().proxy_url() is None,
            crate::web::header_text(client.proxied().inner().agent()) == FAKE_USER_AGENT@,
            client.proxied().inner().replies_by().code() == 200,
    {
        FakeHttpClient::create(FixedStatus { status: 200 })
    }
}

impl<B: Default> HttpClient<B, Result<HttpResponse<B>, SendError>> for FakeHttpClient<FixedStatus> {
    open spec fn is_ready(&self) -> bool {
        true
    }

    open spec fn answers(
        &self,
        request: HttpRequest<B>,
        reply: Result<HttpResponse<B>, SendError>,
    ) -> bool {
        is_empty_response(reply, self.replies_by().code())
    }

    open spec fn has_user_agent(&self, user_agent: Option<&HeaderValue>) -> bool {
        user_agent is Some && *user_agent->0 == self.agent()
    }

    open spec fn has_proxy(&self, proxy: Option<&Url>) -> bool {
        proxy is None
    }

    fn send(&self, _req: HttpRequest<B>) -> (reply: Result<HttpResponse<B>, SendError>) {
        let handler: FixedStatus = *self.handler;
        proof {
            use_type_invariant(&handler);
        }
        Ok(empty_response(handler.status))
    }

    fn user_agent(&self) -> (user_agent: Option<&HeaderValue>) {
        Some(&self.user_agent)
    }

    fn proxy(&self) -> (proxy: Option<&Url>) {
        None
    }
}

impl<B, R, H: Fn(HttpRequest<B>) -> R + Send + Sync + 'static> HttpClient<B, R> for FakeHttpClient<
    H,
> {
    open spec fn is_ready(&self) -> bool {
        forall|request: HttpRequest<B>| #[trigger] call_requires(self.replies_by(), (request,))
    }

    open spec fn answers(&self, request: HttpRequest<B>, reply: R) -> bool {
        call_ensures(self.replies_by(), (request,), reply)
    }

    open spec fn has_user_agent(&self, user_agent: Option<&HeaderValue>) -> bool {
        user_agent is Some && *user_agent->0 == self.agent()
    }

    open spec fn has_proxy(&self, proxy: Option<&Url>) -> bool {
        proxy is None
    }

    fn send(&self, req: HttpRequest<B>) -> (reply: R) {
        proof {
            assert(call_requires(self.replies_by(), (req,)));
        }
        (*self.handler)(req)
    }

    fn user_agent(&self) -> (user_agent: Option<&HeaderValue>) {
        Some(&self.user_agent)
    }

    fn proxy(&self) -> (proxy: Option<&Url>) {
        None
    }
}

impl<H> HttpClientWithProxy<FakeHttpClient<H>> {
    /// The fake client behind the proxy.
    pub fn as_fake(&self) -> (fake: &FakeHttpClient<H>)
        ensures
            *fake == self.inner(),
    {
        &self.client
    }
}

impl<H> HttpClientWithUrl<FakeHttpClient<H>> {
    /// The fake client behind the base URL.
    pub fn as_fake(&self) -> (fake: &FakeHttpClient<H>)
        ensures
            *fake == self.proxied().inner(),
    {
        self.client.as_fake()
    }

    /// Replaces the handler of the fake client by one that is made from it.
    pub fn replace_handler<F: FnOnce(Arc<H>) -> H>(&mut self, new_handler: F)
        requires
            call_requires(new_handler, (Arc::new(old(self).proxied().inner().replies_by()),)),
        ensures
            call_ensures(
                new_handler,
                (Arc::new(old(self).proxied().inner().replies_by()),),
                final(self).proxied().inner().replies_by(),
            ),
            final(self).base() == old(self).base(),
            final(self).proxied().proxy_url() == old(self).proxied().proxy_url(),
            final(self).proxied().inner().agent() == old(self).proxied().inner().agent(),
    {
        self.client.client.replace_handler(new_handler);
    }
}

/// Except on the staging site, a Zed LLM URL is the Zed Cloud URL of the same
/// path with the parameters added: it is built just when that one is, and has
/// its scheme, host, port, path and fragment, and its pairs followed by the
/// parameters.
pub proof fn llm_url_is_cloud_url_with_params(
    base: Seq<char>,
    path: Seq<char>,
    params: Seq<(Seq<char>, Seq<char>)>,
    cloud: Result<Url, UrlError>,
    llm: Result<Url, UrlError>,
)
    requires
        base != "https://staging.zed.dev"@,
        is_bare_url(cloud, crate::urls::cloud_base(base) + path, path, None),
        is_url_with_params(llm, crate::urls::llm_base(base) + path, path, params),
    ensures
        match cloud {
            Err(_) => llm == cloud,
            Ok(bare) => llm matches Ok(url) && crate::web::is_same_place(url, bare)
                && crate::web::url_path(url) == crate::web::url_path(bare) && crate::web::url_pairs(
                url,
            ) == crate::web::url_pairs(bare) + params,
        },
{
    crate::urls::cloud_and_llm_differ_on_staging_only(base);
}

/// A query is part of what is built: a Zed Cloud URL with a query is the one
/// whose path has the query behind it.
pub proof fn cloud_query_stands_behind_the_path(
    base: Seq<char>,
    path: Seq<char>,
    query: Seq<char>,
    with_query: Result<Url, UrlError>,
    with_path: Result<Url, UrlError>,
)
    requires
        is_bare_url(
            with_query,
            crate::urls::cloud_base(base) + path + "?"@ + query,
            path,
            Some(query),
        ),
        is_bare_url(
            with_path,
            crate::urls::cloud_base(base) + (path + "?"@ + query),
            path + "?"@ + query,
            None,
        ),
    ensures
        with_query == with_path,
{
    assert(crate::urls::cloud_base(base) + path + "?"@ + query == crate::urls::cloud_base(base) + (
    path + "?"@ + query));
}

/// With a base URL that is not replaced, a Zed Cloud URL is what the base URL
/// and the path are when they are parsed.
pub proof fn other_bases_are_parsed_as_they_are(
    base: Seq<char>,
    path: Seq<char>,
    cloud: Result<Url, UrlError>,
)
    requires
        base != "https://zed.dev"@,
        base != "https://staging.zed.dev"@,
        base != "http://localhost:3000"@,
        is_bare_url(cloud, crate::urls::cloud_base(base) + path, path, None),
    ensures
        cloud == built(crate::web::url_parsed(base + path)),
{
}

/// A blocked client gives nobody a response, whatever is asked of it.
pub proof fn blocked_client_gives_no_response<B>(
    client: BlockedHttpClient,
    result: Result<Result<HttpResponse<B>, SendError>, RequestError>,
    head: Result<crate::web::RequestHead, http::Error>,
    body: B,
)
    requires
        is_exchange(
            result,
            head,
            body,
            |request: HttpRequest<B>, reply: Result<HttpResponse<B>, SendError>|
                client.answers(request, reply),
        ),
    ensures
        match head {
            Ok(_) => result == Ok::<Result<HttpResponse<B>, SendError>, RequestError>(
                Err(SendError::PermissionDenied),
            ),
            Err(error) => result == Err::<Result<HttpResponse<B>, SendError>, RequestError>(
                RequestError::Invalid(error),
            ),
        },
{
}

/// A proxy and a base URL change nothing about how requests are answered, nor
/// about what a client calls itself.
pub proof fn wrapping_keeps_replies<B, R, C: HttpClient<B, R>>(
    client: HttpClientWithUrl<C>,
    request: HttpRequest<B>,
    reply: R,
    user_agent: Option<&HeaderValue>,
)
    ensures
        client.answers(request, reply) == client.proxied().answers(request, reply),
        client.answers(request, reply) == client.proxied().inner().answers(request, reply),
        client.has_user_agent(user_agent) == client.proxied().inner().has_user_agent(user_agent),
{
}

/// A fake client with one status code gives it to every request, however it is
/// asked.
pub proof fn fake_client_gives_its_status<B: Default>(
    client: HttpClientWithUrl<FakeHttpClient<FixedStatus>>,
    result: Result<Result<HttpResponse<B>, SendError>, RequestError>,
    head: Result<crate::web::RequestHead, http::Error>,
    body: B,
)
    requires
        is_exchange(
            result,
            head,
            body,
            |request: HttpRequest<B>, reply: Result<HttpResponse<B>, SendError>|
                client.answers(request, reply),
        ),
        head is Ok,
    ensures
        result is Ok,
        is_empty_response(result->Ok_0, client.proxied().inner().replies_by().code()),
{
}

/// A URL that is built from a text is what comes of parsing the text: the very
/// URL, or the very error.
pub proof fn built_urls_are_parsed_urls(
    result: Result<Url, UrlError>,
    text: Seq<char>,
    path: Seq<char>,
    query: Option<Seq<char>>,
)
    requires
        is_bare_url(result, text, path, query),
    ensures
        crate::web::url_parsed(text) is Ok ==> result is Ok && result->Ok_0
            == crate::web::url_parsed(text)->Ok_0,
        crate::web::url_parsed(text) is Err ==> result is Err && result->Err_0 is Url
            && result->Err_0->Url_0 == crate::web::url_parsed(text)->Err_0,
{
}

/// A URL that is built with parameters is what comes of parsing the text with
/// them. It is built just when the text alone is a URL, stays at the same place
/// and the same path, and has the pairs of the text followed by the parameters.
pub proof fn parameters_come_last(
    result: Result<Url, UrlError>,
    text: Seq<char>,
    path: Seq<char>,
    params: Seq<(Seq<char>, Seq<char>)>,
)
    requires
        is_url_with_params(result, text, path, params),
    ensures
        crate::web::url_parsed_with_params(text, params) is Ok ==> result is Ok && result->Ok_0
            == crate::web::url_parsed_with_params(text, params)->Ok_0,
        crate::web::url_parsed_with_params(text, params) is Err ==> result is Err
            && result->Err_0 is Url && result->Err_0->Url_0
            == crate::web::url_parsed_with_params(text, params)->Err_0,
        crate::web::url_parsed(text) is Ok <==> result is Ok,
        crate::web::url_parsed(text) matches Ok(bare) ==> {
            &&& crate::web::url_scheme(result->Ok_0) == crate::web::url_scheme(bare)
            &&& crate::web::url_host(result->Ok_0) == crate::web::url_host(bare)
            &&& crate::web::url_port(result->Ok_0) == crate::web::url_port(bare)
            &&& crate::web::url_path(result->Ok_0) == crate::web::url_path(bare)
            &&& crate::web::url_fragment(result->Ok_0) == crate::web::url_fragment(bare)
            &&& crate::web::url_query(result->Ok_0) is Some
            &&& crate::web::url_query(bare) is None ==> crate::web::form_pairs(
                crate::web::url_query(result->Ok_0)->0,
            ) == params
            &&& crate::web::url_query(bare) is Some ==> crate::web::form_pairs(
                crate::web::url_query(result->Ok_0)->0,
            ) == crate::web::form_pairs(crate::web::url_query(bare)->0) + params
        },
{
    if let Ok(bare) = crate::web::url_parsed(text) {
        if crate::web::url_query(bare) is None {
            assert(crate::web::url_pairs(bare) + params == params);
        }
    }
}

/// What a client hands back is its own reply to the request that was asked for,
/// and an error stands for a request that was not made.
pub proof fn replies_are_to_the_request<B, R, C: HttpClient<B, R>>(
    client: C,
    result: Result<R, RequestError>,
    head: Result<crate::web::RequestHead, http::Error>,
    body: B,
)
    requires
        is_exchange(
            result,
            head,
            body,
            |request: HttpRequest<B>, reply: R| client.answers(request, reply),
        ),
    ensures
        head is Err ==> result is Err && result->Err_0->Invalid_0 == head->Err_0,
        head is Ok ==> result is Ok && exists|request: HttpRequest<B>|
            crate::web::parts_hold(request.parts) == head->Ok_0 && request.body == body
                && #[trigger] client.answers(request, result->Ok_0),
{
    let answers = |request: HttpRequest<B>, reply: R| client.answers(request, reply);
    if head is Ok {
        let request = choose|request: HttpRequest<B>|
            request.head() == head->Ok_0 && request.body == body && #[trigger] answers(
                request,
                result->Ok_0,
            );
        assert(client.answers(request, result->Ok_0));
    }
}

/// A client names the proxy that it was given, and none if it was given none,
/// with a base URL as without one; and it is as ready as the client behind it.
pub proof fn clients_name_their_proxy<B, R, C: HttpClient<B, R>>(
    client: HttpClientWithUrl<C>,
    proxy: Option<&Url>,
)
    ensures
        client.proxied().has_proxy(proxy) <==> match client.proxied().proxy_url() {
            Some(url) => proxy is Some && *proxy->0 == url,
            None => proxy is None,
        },
        client.has_proxy(proxy) <==> client.proxied().has_proxy(proxy),
        client.is_ready() <==> client.proxied().inner().is_ready(),
        client.proxied().is_ready() <==> client.proxied().inner().is_ready(),
{
}

/// A blocked client refuses every single request, and is always ready to.
pub proof fn blocked_client_refuses<B>(
    client: BlockedHttpClient,
    request: HttpRequest<B>,
    reply: Result<HttpResponse<B>, SendError>,
)
    ensures
        client.answers(request, reply) ==> reply is Err,
        <BlockedHttpClient as HttpClient<B, Result<HttpResponse<B>, SendError>>>::is_ready(&client),
{
}

/// A fake client answers every request with the status that it was made with,
/// without headers and with an empty body.
pub proof fn fixed_status_is_all_there_is<B: Default>(
    client: FakeHttpClient<FixedStatus>,
    request: HttpRequest<B>,
    reply: Result<HttpResponse<B>, SendError>,
)
    requires
        client.answers(request, reply),
    ensures
        reply is Ok,
        crate::web::response_holds(reply->Ok_0.parts).status == client.replies_by().code(),
        crate::web::response_holds(reply->Ok_0.parts).version == "HTTP/1.1"@,
        forall|name: Seq<char>|
            !crate::web::response_holds(reply->Ok_0.parts).headers.dom().contains(name),
        crate::web::response_holds(reply->Ok_0.parts).extensions is None,
        call_ensures(B::default, (), reply->Ok_0.body),
{
}

/// A fake client with a handler replies to a request as the handler does.
pub proof fn handler_makes_the_replies<B, R, H: Fn(HttpRequest<B>) -> R + Send + Sync + 'static>(
    client: FakeHttpClient<H>,
    request: HttpRequest<B>,
    reply: R,
)
    ensures
        client.answers(request, reply) <==> call_ensures(
            client.replies_by(),
            (request,),
            reply,
        ),
{
}

/// A client with a proxy calls itself what the client behind it does.
pub proof fn proxies_keep_the_user_agent<B, R, C: HttpClient<B, R>>(
    client: HttpClientWithProxy<C>,
    user_agent: Option<&HeaderValue>,
)
    ensures
        client.has_user_agent(user_agent) <==> client.inner().has_user_agent(user_agent),
{
}

/// A fake client calls itself by the name that it was made with, and has no
/// proxy, whatever makes its replies.
pub proof fn fake_clients_name_themselves<
    B: Default,
    R,
    H: Fn(HttpRequest<B>) -> R + Send + Sync + 'static,
>(
    client: FakeHttpClient<H>,
    fixed: FakeHttpClient<FixedStatus>,
    user_agent: Option<&HeaderValue>,
    proxy: Option<&Url>,
)
    ensures
        <FakeHttpClient<H> as HttpClient<B, R>>::has_user_agent(&client, user_agent) <==> user_agent
            == Some(&client.agent()),
        <FakeHttpClient<H> as HttpClient<B, R>>::has_proxy(&client, proxy) <==> proxy is None,
        <FakeHttpClient<FixedStatus> as HttpClient<
            B,
            Result<HttpResponse<B>, SendError>,
        >>::has_user_agent(&fixed, user_agent) <==> user_agent == Some(&fixed.agent()),
        <FakeHttpClient<FixedStatus> as HttpClient<
            B,
            Result<HttpResponse<B>, SendError>,
        >>::has_proxy(&fixed, proxy) <==> proxy is None,
{
}

/// A blocked client has neither a name nor a proxy.
pub proof fn blocked_clients_are_nameless<B>(
    client: BlockedHttpClient,
    user_agent: Option<&HeaderValue>,
    proxy: Option<&Url>,
)
    ensures
        <BlockedHttpClient as HttpClient<
            B,
            Result<HttpResponse<B>, SendError>,
        >>::has_user_agent(&client, user_agent) <==> user_agent is None,
        <BlockedHttpClient as HttpClient<B, Result<HttpResponse<B>, SendError>>>::has_proxy(
            &client,
            proxy,
        ) <==> proxy is None,
{
}

} // verus!
