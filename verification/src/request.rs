//! Requests: how they are put together.

use crate::redirect::RedirectPolicy;
use crate::web::{
    builder_body, builder_header, builder_method, builder_redirects, builder_uri,
};
use vstd::prelude::*;

verus! {

/// A request that was not made.
#[derive(Debug)]
pub enum RequestError {
    /// The request could not be built, most often because its URI is none.
    Invalid(http::Error),
}

/// A request, with a body of any kind.
pub struct HttpRequest<B> {
    pub parts: http::request::Parts,
    pub body: B,
}

impl<B> HttpRequest<B> {
    /// What the request holds besides its body.
    pub open spec fn head(self) -> crate::web::RequestHead {
        crate::web::parts_hold(self.parts)
    }
}

/// Ways to set up a request.
pub trait HttpRequestExt {
    /// Conditionally modify self with the given closure.
    fn when(self, condition: bool, apply: impl FnOnce(Self) -> Self) -> (result: Self) where
        Self: Sized,

        requires
            condition ==> call_requires(apply, (self,)),
        ensures
            condition ==> call_ensures(apply, (self,), result),
            !condition ==> result == self,
    {
        if condition {
            apply(self)
        } else {
            self
        }
    }

    /// Conditionally unwrap and modify self with the given closure, if the given option is Some.
    fn when_some<T>(self, option: Option<T>, apply: impl FnOnce(Self, T) -> Self) -> (result:
        Self) where Self: Sized,
        requires
            option matches Some(value) ==> call_requires(apply, (self, value)),
        ensures
            match option {
                Some(value) => call_ensures(apply, (self, value), result),
                None => result == self,
            },
    {
        match option {
            Some(value) => apply(self, value),
            None => self,
        }
    }

    /// Whether or not to follow redirects
    fn follow_redirects(self, follow: RedirectPolicy) -> Self;
}

/// What a builder holds once it was told a redirect policy.
pub open spec fn with_redirects(
    held: Result<crate::web::RequestHead, http::Error>,
    follow: RedirectPolicy,
) -> Result<crate::web::RequestHead, http::Error> {
    match held {
        Err(error) => Err(error),
        Ok(head) => Ok(crate::web::RequestHead { redirects: Some(follow), ..head }),
    }
}

impl HttpRequestExt for http::request::Builder {
    fn follow_redirects(self, follow: RedirectPolicy) -> (result: Self)
        ensures
            crate::web::builder_holds(result) == with_redirects(
                crate::web::builder_holds(self),
                follow,
            ),
    {
        builder_redirects(self, follow)
    }
}

/// The head of a `GET` request, or the error of its URI.
pub open spec fn get_head(uri: Seq<char>, follow_redirects: bool) -> Result<
    crate::web::RequestHead,
    http::Error,
> {
    match crate::web::request_uri(uri) {
        Err(error) => Err(error),
        Ok(uri) => Ok(
            crate::web::RequestHead {
                method: "GET"@,
                uri,
                version: "HTTP/1.1"@,
                headers: Map::empty(),
                redirects: Some(crate::redirect::policy_of(follow_redirects)),
                others: None,
            },
        ),
    }
}

/// The head of a `POST` request with a JSON body, or the error of its URI.
pub open spec fn post_json_head(uri: Seq<char>) -> Result<crate::web::RequestHead, http::Error> {
    match crate::web::request_uri(uri) {
        Err(error) => Err(error),
        Ok(uri) => Ok(
            crate::web::RequestHead {
                method: "POST"@,
                uri,
                version: "HTTP/1.1"@,
                headers: Map::empty().insert("content-type"@, seq!["application/json"@]),
                redirects: None,
                others: None,
            },
        ),
    }
}

/// Which texts certainly are URIs, and which certainly are none.
pub open spec fn is_uri_certainly(uri: Seq<char>) -> bool {
    &&& crate::web::is_plain_uri(uri) ==> crate::web::request_uri(uri) is Ok
        && crate::web::request_uri(uri)->Ok_0 == uri
    &&& uri.len() == 0 || uri.len() > crate::web::URI_SIZE_MAX ==> crate::web::request_uri(
        uri,
    ) is Err
}

/// Whether a request was built with a head and a body, or refused with the
/// error that stands in place of the head.
pub open spec fn is_request<B>(
    result: Result<HttpRequest<B>, RequestError>,
    head: Result<crate::web::RequestHead, http::Error>,
    body: B,
) -> bool {
    match head {
        Err(error) => result == Err::<HttpRequest<B>, RequestError>(RequestError::Invalid(error)),
        Ok(head) => result matches Ok(request) && request.head() == head && request.body == body,
    }
}

/// The request that a builder holds, with a body.
pub fn finish_request<B>(builder: http::request::Builder, body: B) -> (result: Result<
    HttpRequest<B>,
    RequestError,
>)
    ensures
        is_request(result, crate::web::builder_holds(builder), body),
        match crate::web::builder_holds(builder) {
            Err(error) => result matches Err(RequestError::Invalid(reported)) && reported == error,
            Ok(head) => result matches Ok(request) && crate::web::parts_hold(request.parts) == head
                && request.body == body,
        },
{
    match builder_body(builder, body) {
        Ok((parts, body)) => Ok(HttpRequest { parts, body }),
        Err(error) => Err(RequestError::Invalid(error)),
    }
}

/// A `GET` request of a URI, which follows all redirects or none.
pub fn get_request<B>(uri: &str, body: B, follow_redirects: bool) -> (result: Result<
    HttpRequest<B>,
    RequestError,
>)
    ensures
        is_request(result, get_head(uri@, follow_redirects), body),
        match crate::web::request_uri(uri@) {
            Err(error) => result matches Err(RequestError::Invalid(reported)) && reported == error,
            Ok(taken) => {
                &&& result is Ok
                &&& result->Ok_0.body == body
                &&& crate::web::parts_hold(result->Ok_0.parts).method == "GET"@
                &&& crate::web::parts_hold(result->Ok_0.parts).uri == taken
                &&& crate::web::parts_hold(result->Ok_0.parts).version == "HTTP/1.1"@
                &&& crate::web::parts_hold(result->Ok_0.parts).headers == Map::<
                    Seq<char>,
                    Seq<Seq<char>>,
                >::empty()
                &&& crate::web::parts_hold(result->Ok_0.parts).redirects == Some(
                    if follow_redirects {
                        RedirectPolicy::FollowAll
                    } else {
                        RedirectPolicy::NoFollow
                    },
                )
                &&& crate::web::parts_hold(result->Ok_0.parts).others is None
            },
        },
        is_uri_certainly(uri@),
{
    let builder = builder_uri(http::request::Builder::new(), uri);
    let builder = builder.follow_redirects(
        if follow_redirects {
            RedirectPolicy::FollowAll
        } else {
            RedirectPolicy::NoFollow
        },
    );
    finish_request(builder, body)
}

/// A `POST` request to a URI whose body is JSON.
pub fn post_json_request<B>(uri: &str, body: B) -> (result: Result<HttpRequest<B>, RequestError>)
    ensures
        is_request(result, post_json_head(uri@), body),
        match crate::web::request_uri(uri@) {
            Err(error) => result matches Err(RequestError::Invalid(reported)) && reported == error,
            Ok(taken) => {
                &&& result is Ok
                &&& result->Ok_0.body == body
                &&& crate::web::parts_hold(result->Ok_0.parts).method == "POST"@
                &&& crate::web::parts_hold(result->Ok_0.parts).uri == taken
                &&& crate::web::parts_hold(result->Ok_0.parts).version == "HTTP/1.1"@
                &&& crate::web::parts_hold(result->Ok_0.parts).headers == Map::<
                    Seq<char>,
                    Seq<Seq<char>>,
                >::empty().insert("content-type"@, seq!["application/json"@])
                &&& crate::web::parts_hold(result->Ok_0.parts).redirects is None
                &&& crate::web::parts_hold(result->Ok_0.parts).others is None
            },
        },
        is_uri_certainly(uri@),
{
    proof {
        reveal_strlit("POST");
        reveal_strlit("Content-Type");
        reveal_strlit("content-type");
        reveal_strlit("application/json");
        assert(crate::web::lower_case("Content-Type"@) == "content-type"@);
        assert(crate::web::blank_head().header("content-type"@).push("application/json"@)
            == seq!["application/json"@]);
    }
    let builder = builder_uri(http::request::Builder::new(), uri);
    let builder = builder_method(builder, "POST");
    let builder = builder_header(builder, "Content-Type", "application/json");
    finish_request(builder, body)
}

/// Of several redirect policies the last one counts.
pub proof fn last_redirect_policy_counts(
    held: Result<crate::web::RequestHead, http::Error>,
    first: RedirectPolicy,
    last: RedirectPolicy,
)
    ensures
        with_redirects(with_redirects(held, first), last) == with_redirects(held, last),
{
}

/// A redirect policy changes nothing else about a request.
pub proof fn redirect_policy_is_all_that_changes(
    head: crate::web::RequestHead,
    follow: RedirectPolicy,
)
    ensures
        with_redirects(Ok(head), follow) matches Ok(told) && told.redirects == Some(follow)
            && told.method == head.method && told.uri == head.uri && told.version == head.version
            && told.headers == head.headers && told.others == head.others,
{
}

/// A builder that holds an error keeps it, whatever redirect policy it is told.
pub proof fn errors_are_kept(error: http::Error, follow: RedirectPolicy)
    ensures
        with_redirects(Err(error), follow) == Err::<crate::web::RequestHead, http::Error>(error),
{
}

/// Both kinds of requests take the same URIs, and refuse the others with the
/// same error.
pub proof fn same_uris_are_taken(uri: Seq<char>, follow_redirects: bool)
    ensures
        match (get_head(uri, follow_redirects), post_json_head(uri)) {
            (Ok(get), Ok(post)) => get.uri == post.uri,
            (Err(get), Err(post)) => get == post,
            _ => false,
        },
{
}

/// Of every URI that is taken, a `GET` request is made without headers, and it
/// follows redirects just if it is told to. A URI that is not taken is refused
/// for its own error.
pub proof fn get_requests_do_what_is_wanted(uri: Seq<char>, follow_redirects: bool)
    ensures
        match get_head(uri, follow_redirects) {
            Ok(head) => {
                &&& crate::web::request_uri(uri) is Ok
                &&& crate::web::request_uri(uri)->Ok_0 == head.uri
                &&& head.method == "GET"@
                &&& head.version == "HTTP/1.1"@
                &&& forall|name: Seq<char>| head.header(name).len() == 0
                &&& forall|name: Seq<char>| !head.headers.dom().contains(name)
                &&& follow_redirects ==> head.redirects == Some(RedirectPolicy::FollowAll)
                &&& !follow_redirects ==> head.redirects == Some(RedirectPolicy::NoFollow)
                &&& head.others is None
            },
            Err(error) => {
                &&& crate::web::request_uri(uri) is Err
                &&& crate::web::request_uri(uri)->Err_0 == error
            },
        },
{
}

/// Of every URI that is taken, a `POST` request is made whose only header says
/// that the body is JSON, and which leaves redirects to the client. A URI that
/// is not taken is refused for its own error.
pub proof fn post_requests_announce_json(uri: Seq<char>)
    ensures
        match post_json_head(uri) {
            Ok(head) => {
                &&& crate::web::request_uri(uri) is Ok
                &&& crate::web::request_uri(uri)->Ok_0 == head.uri
                &&& head.method == "POST"@
                &&& head.version == "HTTP/1.1"@
                &&& head.headers.dom().contains("content-type"@)
                &&& head.headers["content-type"@].len() == 1
                &&& head.headers["content-type"@][0] == "application/json"@
                &&& forall|name: Seq<char>|
                    head.headers.dom().contains(name) ==> name == "content-type"@
                &&& head.redirects is None
                &&& head.others is None
            },
            Err(error) => {
                &&& crate::web::request_uri(uri) is Err
                &&& crate::web::request_uri(uri)->Err_0 == error
            },
        },
{
}

/// A request that was asked for is made as it was asked for, and one that
/// cannot be made is refused for the reason that was found.
pub proof fn requests_are_made_as_asked<B>(
    result: Result<HttpRequest<B>, RequestError>,
    head: Result<crate::web::RequestHead, http::Error>,
    body: B,
)
    requires
        is_request(result, head, body),
    ensures
        head is Ok ==> result is Ok && crate::web::parts_hold(result->Ok_0.parts) == head->Ok_0
            && result->Ok_0.body == body,
        head is Err ==> result is Err && result->Err_0->Invalid_0 == head->Err_0,
{
}

} // verus!
