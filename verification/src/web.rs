//! The crates `http`, `url` and `serde_urlencoded`: what the library takes from
//! them, and what it takes to be true of it.

use crate::redirect::RedirectPolicy;
use crate::text::text_fits;
use vstd::prelude::*;

verus! {

/// `url::Url`: known by its scheme, host, port, path, query string and fragment.
#[verifier::external_type_specification]
#[verifier::external_body]
pub struct ExUrl(url::Url);

/// `url::ParseError`: why a text is no URL, carried along.
#[verifier::external_type_specification]
#[verifier::external_body]
pub struct ExUrlParseError(url::ParseError);

/// `serde_urlencoded::ser::Error`: why a query was not written, carried along.
#[verifier::external_type_specification]
#[verifier::external_body]
pub struct ExQueryError(serde_urlencoded::ser::Error);

/// `http::Error`: why a request was not built, carried along.
#[verifier::external_type_specification]
#[verifier::external_body]
pub struct ExHttpError(http::Error);

/// `http::HeaderValue`: known by its text.
#[verifier::external_type_specification]
#[verifier::external_body]
pub struct ExHeaderValue(http::HeaderValue);

/// `http::request::Builder`: known by what it holds.
#[verifier::external_type_specification]
#[verifier::external_body]
pub struct ExRequestBuilder(http::request::Builder);

/// `http::request::Parts`: known by what it holds.
#[verifier::external_type_specification]
#[verifier::external_body]
pub struct ExRequestParts(http::request::Parts);

/// `http::Extensions`: carried along.
#[verifier::external_type_specification]
#[verifier::external_body]
pub struct ExExtensions(http::Extensions);

/// `http::response::Parts`: known by what it holds.
#[verifier::external_type_specification]
#[verifier::external_body]
pub struct ExResponseParts(http::response::Parts);

/// Name and value pairs of owned text, as plain text.
pub open spec fn owned_pairs(pairs: Seq<(String, String)>) -> Seq<(Seq<char>, Seq<char>)> {
    pairs.map_values(|pair: (String, String)| (pair.0@, pair.1@))
}

/// Name and value pairs of borrowed text, as plain text.
pub open spec fn borrowed_pairs(pairs: Seq<(&str, &str)>) -> Seq<(Seq<char>, Seq<char>)> {
    pairs.map_values(|pair: (&str, &str)| (pair.0@, pair.1@))
}

// ---------------------------------------------------------------------------
// Query strings
// ---------------------------------------------------------------------------

/// What `serde_urlencoded::to_string` writes for name and value pairs: the
/// `application/x-www-form-urlencoded` form.
pub uninterp spec fn urlencoded(pairs: Seq<(Seq<char>, Seq<char>)>) -> Seq<char>;

/// What `url::form_urlencoded::parse` reads from the bytes of a text: its name
/// and value pairs, percent-decoded, in their order.
pub uninterp spec fn form_pairs(text: Seq<char>) -> Seq<(Seq<char>, Seq<char>)>;

/// Two query strings with the separator of their pairs between them.
pub open spec fn joined(first: Seq<char>, second: Seq<char>) -> Seq<char> {
    first + "&"@ + second
}

/// `serde_urlencoded::to_string` on pairs of text. It never fails on these:
/// a sequence, its pairs and text as name and as value are each a case that
/// it writes. What it writes, `url::form_urlencoded::parse` reads back.
#[verifier::external_body]
pub(crate) fn urlencode(pairs: &[(&str, &str)]) -> (encoded: Result<
    String,
    serde_urlencoded::ser::Error,
>)
    ensures
        encoded is Ok,
        encoded->Ok_0@ == urlencoded(borrowed_pairs(pairs@)),
        form_pairs(encoded->Ok_0@) == borrowed_pairs(pairs@),
{
    serde_urlencoded::to_string(pairs)
}

/// `url::form_urlencoded::parse`. It reads back what was written: each byte of
/// a name or a value that the encoder does not leave as it is, it writes as `+`
/// or as a percent escape, which the parser turns back, and `&` and `=` stand
/// unescaped only between pairs and between a name and its value. It splits the
/// text at each `&` before it looks at the pieces, so that what stands on one
/// side of an `&` is read by itself.
#[verifier::external_body]
pub(crate) fn parse_form(text: &str) -> (pairs: Vec<(String, String)>)
    ensures
        owned_pairs(pairs@) == form_pairs(text@),
        forall|written: Seq<(Seq<char>, Seq<char>)>|
            text@ == #[trigger] urlencoded(written) ==> owned_pairs(pairs@) == written,
        forall|a: Seq<char>, b: Seq<char>|
            text@ == #[trigger] joined(a, b) ==> owned_pairs(pairs@) == form_pairs(a) + form_pairs(b),
        forall|a: Seq<char>, m: Seq<char>, b: Seq<char>|
            text@ == #[trigger] joined(joined(a, m), b) ==> owned_pairs(pairs@) == form_pairs(a)
                + form_pairs(m) + form_pairs(b),
{
    url::form_urlencoded::parse(text.as_bytes()).into_owned().collect()
}

// ---------------------------------------------------------------------------
// URLs
// ---------------------------------------------------------------------------

/// What `url::Url::parse` makes of a text.
pub uninterp spec fn url_parsed(text: Seq<char>) -> Result<url::Url, url::ParseError>;

/// What `url::Url::parse_with_params` makes of a text and of parameters.
pub uninterp spec fn url_parsed_with_params(
    text: Seq<char>,
    params: Seq<(Seq<char>, Seq<char>)>,
) -> Result<url::Url, url::ParseError>;

/// The path of a URL, as `url::Url::path` gives it.
pub uninterp spec fn url_path(url: url::Url) -> Seq<char>;

/// The query string of a URL, if it has one: what stands behind the question
/// mark and before the fragment.
pub uninterp spec fn url_query(url: url::Url) -> Option<Seq<char>>;

/// The scheme of a URL, as `url::Url::scheme` gives it.
pub uninterp spec fn url_scheme(url: url::Url) -> Seq<char>;

/// The host of a URL, as `url::Url::host_str` gives it.
pub uninterp spec fn url_host(url: url::Url) -> Option<Seq<char>>;

/// The port of a URL where it is not that of the scheme, as `url::Url::port`
/// gives it.
pub uninterp spec fn url_port(url: url::Url) -> Option<u16>;

/// The fragment of a URL, as `url::Url::fragment` gives it.
pub uninterp spec fn url_fragment(url: url::Url) -> Option<Seq<char>>;

/// Whether two URLs have the same scheme, host, port and fragment.
pub open spec fn is_same_place(a: url::Url, b: url::Url) -> bool {
    &&& url_scheme(a) == url_scheme(b)
    &&& url_host(a) == url_host(b)
    &&& url_port(a) == url_port(b)
    &&& url_fragment(a) == url_fragment(b)
}

/// The name and value pairs in the query string of a URL.
pub open spec fn url_pairs(url: url::Url) -> Seq<(Seq<char>, Seq<char>)> {
    match url_query(url) {
        Some(query) => form_pairs(query),
        None => Seq::empty(),
    }
}

/// The most characters that are handed to `url`, which counts the characters of
/// an authority with 31 bits.
pub const URL_TEXT_MAX: usize = 0x7fff_ffff;

/// How many bytes of a URL stand before its query string and its fragment.
pub uninterp spec fn url_path_end(url: url::Url) -> usize;

/// How many bytes of a URL stand before its fragment.
pub uninterp spec fn url_query_end(url: url::Url) -> usize;

/// How many bytes a URL has.
pub uninterp spec fn url_len(url: url::Url) -> usize;

/// The last position in a URL that `url` can keep: it keeps them with 32 bits.
pub const POSITION_MAX: usize = 0xffff_ffff;

/// How many bytes come to stand between a query string and a further one, given
/// how many there are from its question mark on: a new question mark, an `&`,
/// or nothing if there is nothing to separate.
pub open spec fn separator_len(query: int, more: int) -> int {
    if query == 0 || (query > 1 && more > 0) {
        1
    } else {
        0
    }
}

/// Whether `url` can keep the positions in a URL that gets a longer query
/// string: that of a new question mark, and that of a fragment before and
/// afterwards.
pub open spec fn positions_fit(path_end: int, query_end: int, len: int, more: int) -> bool {
    &&& path_end == query_end ==> query_end <= POSITION_MAX
    &&& query_end < len ==> query_end < POSITION_MAX && query_end + separator_len(
        query_end - path_end,
        more,
    ) + more <= POSITION_MAX
}

/// Whether parameters can be added to a text: the text is not too long, and if
/// it is a URL, all positions can be kept.
pub open spec fn can_take_params(text: Seq<char>, params: Seq<(Seq<char>, Seq<char>)>) -> bool {
    &&& text.len() <= URL_TEXT_MAX
    &&& url_parsed(text) matches Ok(bare) ==> positions_fit(
        url_path_end(bare) as int,
        url_query_end(bare) as int,
        url_len(bare) as int,
        urlencoded(params).len() as int,
    )
}

/// Whether `url` can keep the positions in a URL of which so many bytes stand
/// before the query string, before the fragment, and in all, when so many are
/// written behind its query string.
pub fn do_positions_fit(path_end: usize, query_end: usize, len: usize, more: usize) -> (fit: bool)
    ensures
        fit == positions_fit(path_end as int, query_end as int, len as int, more as int),
{
    if path_end == query_end && query_end > POSITION_MAX {
        return false;
    }
    if query_end >= len {
        return true;
    }
    if query_end >= POSITION_MAX || more > POSITION_MAX - query_end {
        return false;
    }
    let separated = path_end == query_end || (query_end > path_end && query_end - path_end > 1
        && more > 0);
    !separated || more < POSITION_MAX - query_end
}

/// Whether parameters can be added to a text.
pub fn takes_params(text: &str, params: &[(&str, &str)]) -> (takes: bool)
    ensures
        takes == can_take_params(text@, borrowed_pairs(params@)),
{
    if !text_fits(text, URL_TEXT_MAX) {
        return false;
    }
    match (parse_url(text), urlencode(params)) {
        (Ok(bare), Ok(encoded)) => do_positions_fit(
            path_end_of(&bare),
            query_end_of(&bare),
            len_of(&bare),
            encoded.as_str().unicode_len(),
        ),
        _ => true,
    }
}

/// A query string with a further one behind it.
pub open spec fn extended_query(query: Option<Seq<char>>, more: Seq<char>) -> Seq<char> {
    match query {
        None => more,
        Some(query) => if query.len() == 0 {
            more
        } else if more.len() == 0 {
            query
        } else {
            query + "&"@ + more
        },
    }
}

/// Whether a character stands for itself in the query string of a URL.
pub open spec fn is_query_char(c: char) -> bool {
    ||| 'a' <= c <= 'z'
    ||| 'A' <= c <= 'Z'
    ||| '0' <= c <= '9'
    ||| c == '*' || c == '-' || c == '.' || c == '_' || c == '~'
    ||| c == '+' || c == '%' || c == '&' || c == '='
}

/// Whether a query string is left as it is by the URL parser: because of its
/// characters, or because it is in the form that the encoder writes.
pub open spec fn is_plain_query(query: Seq<char>) -> bool {
    ||| forall|i: int| 0 <= i < query.len() ==> is_query_char(#[trigger] query[i])
    ||| exists|pairs: Seq<(Seq<char>, Seq<char>)>| query == #[trigger] urlencoded(pairs)
}

/// Whether a character separates the parts of the name of a host.
pub open spec fn is_separator(c: char) -> bool {
    c == '.' || c == '-'
}

/// Whether the characters of a text at a position and behind it are both
/// separators.
pub open spec fn is_gap(text: Seq<char>, i: int) -> bool {
    is_separator(text[i]) && is_separator(text[i + 1])
}

/// Whether a text is the name of a host: lower-case letters, with single dots
/// and hyphens between them.
pub open spec fn is_plain_host(host: Seq<char>) -> bool {
    &&& 0 < host.len() <= 255
    &&& !is_separator(host[0])
    &&& !is_separator(host.last())
    &&& forall|i: int| 0 <= i < host.len() ==> 'a' <= #[trigger] host[i] <= 'z' || is_separator(host[i])
    &&& forall|i: int| 0 <= i < host.len() - 1 ==> !(#[trigger] is_gap(host, i))
}

/// Whether a character stands for itself in the path of a URL, and cannot make
/// a segment that means another one.
pub open spec fn is_path_char(c: char) -> bool {
    ||| 'a' <= c <= 'z'
    ||| 'A' <= c <= 'Z'
    ||| '0' <= c <= '9'
    ||| c == '/' || c == '-' || c == '_'
}

/// Whether a text is an absolute path that is left as it is by the URL parser.
pub open spec fn is_plain_path(path: Seq<char>) -> bool {
    &&& path.len() > 0
    &&& path[0] == '/'
    &&& forall|i: int| 0 <= i < path.len() ==> is_path_char(#[trigger] path[i])
}

/// A query string as it stands in a URL, with its question mark.
pub open spec fn query_suffix(query: Option<Seq<char>>) -> Seq<char> {
    match query {
        None => Seq::empty(),
        Some(query) => "?"@ + query,
    }
}

/// A port as it stands in a URL, with its colon.
pub open spec fn port_suffix(port: Option<u16>) -> Seq<char> {
    match port {
        None => Seq::empty(),
        Some(port) => ":"@ + crate::text::decimal(port as nat),
    }
}

/// Whether a text is a URL of the plainest kind: a web address with a host,
/// perhaps a port, a path and perhaps a query string, all of which stand for
/// themselves.
pub open spec fn is_plain_url(
    text: Seq<char>,
    scheme: Seq<char>,
    host: Seq<char>,
    port: Option<u16>,
    path: Seq<char>,
    query: Option<Seq<char>>,
) -> bool {
    &&& text == scheme + host + port_suffix(port) + path + query_suffix(query)
    &&& text.len() <= URL_TEXT_MAX
    &&& scheme == "http://"@ || scheme == "https://"@
    &&& is_plain_host(host)
    &&& is_plain_path(path)
    &&& query matches Some(query) ==> is_plain_query(query)
}

/// Whether a result is a URL with this path and this query string.
pub open spec fn is_url_with(
    result: Result<url::Url, url::ParseError>,
    path: Seq<char>,
    query: Option<Seq<char>>,
) -> bool {
    result matches Ok(url) && url_path(url) == path && url_query(url) == query
}

/// The port that a web address need not name.
pub open spec fn default_port(scheme: Seq<char>) -> u16 {
    if scheme == "http://"@ {
        80
    } else {
        443
    }
}

/// Whether a URL has this scheme, with the characters behind it, this host and
/// this port, and no fragment. The port that the scheme has anyway is not kept.
pub open spec fn is_at(
    url: url::Url,
    scheme: Seq<char>,
    host: Seq<char>,
    port: Option<u16>,
) -> bool {
    &&& url_scheme(url) + "://"@ == scheme
    &&& url_host(url) == Some(host)
    &&& url_port(url) == if port == Some(default_port(scheme)) {
        None
    } else {
        port
    }
    &&& url_fragment(url) is None
}

/// `url::Url::parse`. A URL of the plainest kind is accepted, and none of its
/// parts is changed: the host is in lower case already, and the characters of
/// the path and of the query string are in none of the parser's sets of
/// characters to escape. An authority with more characters than its counter
/// holds makes it panic where overflow is checked, hence the bound.
#[verifier::external_body]
pub(crate) fn parse_url(text: &str) -> (url: Result<url::Url, url::ParseError>)
    requires
        text@.len() <= URL_TEXT_MAX,
    ensures
        url == url_parsed(text@),
        forall|
            scheme: Seq<char>,
            host: Seq<char>,
            port: Option<u16>,
            path: Seq<char>,
            query: Option<Seq<char>>,
        | #[trigger]
            is_plain_url(text@, scheme, host, port, path, query) ==> is_url_with(url, path, query)
                && is_at(url->Ok_0, scheme, host, port),
{
    url::Url::parse(text)
}

/// `url::Url::parse_with_params`. It parses the text and fails as that does;
/// the parameters are written behind the query string that is there, by the
/// same encoder that `serde_urlencoded` uses, with an `&` between them, and all
/// else stays. Parsing the new query string gives the pairs that were there,
/// then the parameters. Of the plainest URLs it accepts those that
/// `url::Url::parse` accepts. It panics where that does, and where a position
/// cannot be kept: that of the question mark that it adds, or that of the
/// fragment, which it takes off and puts back.
#[verifier::external_body]
pub(crate) fn parse_url_with_params(text: &str, params: &[(&str, &str)]) -> (url: Result<
    url::Url,
    url::ParseError,
>)
    requires
        can_take_params(text@, borrowed_pairs(params@)),
    ensures
        url == url_parsed_with_params(text@, borrowed_pairs(params@)),
        match url_parsed(text@) {
            Err(error) => url == Err::<url::Url, url::ParseError>(error),
            Ok(bare) => url matches Ok(url) && url_scheme(url) == url_scheme(bare) && url_host(url)
                == url_host(bare) && url_port(url) == url_port(bare) && url_fragment(url)
                == url_fragment(bare) && url_path(url) == url_path(bare) && url_query(url) == Some(
                extended_query(url_query(bare), urlencoded(borrowed_pairs(params@))),
            ) && url_pairs(url) == url_pairs(bare) + borrowed_pairs(params@),
        },
        forall|scheme: Seq<char>, host: Seq<char>, port: Option<u16>, path: Seq<char>| #[trigger]
            is_plain_url(text@, scheme, host, port, path, None) ==> is_url_with(
                url,
                path,
                Some(urlencoded(borrowed_pairs(params@))),
            ) && is_at(url->Ok_0, scheme, host, port) && url_pairs(url->Ok_0) == borrowed_pairs(params@),
{
    url::Url::parse_with_params(text, params)
}

/// `url::Url::path`.
#[verifier::external_body]
pub(crate) fn path_of(url: &url::Url) -> (path: &str)
    ensures
        path@ == url_path(*url),
{
    url.path()
}

/// The length of a URL up to `url::Position::AfterPath`.
#[verifier::external_body]
pub(crate) fn path_end_of(url: &url::Url) -> (end: usize)
    ensures
        end == url_path_end(*url),
{
    url[..url::Position::AfterPath].len()
}

/// The length of a URL up to `url::Position::AfterQuery`. A query string stands
/// between the two positions with its question mark, so that they differ just
/// where there is one.
#[verifier::external_body]
pub(crate) fn query_end_of(url: &url::Url) -> (end: usize)
    ensures
        end == url_query_end(*url),
        url_path_end(*url) <= end,
        url_query(*url) is Some <==> url_path_end(*url) < end,
{
    url[..url::Position::AfterQuery].len()
}

/// The length of `url::Url::as_str`.
#[verifier::external_body]
pub(crate) fn len_of(url: &url::Url) -> (len: usize)
    ensures
        len == url_len(*url),
{
    url.as_str().len()
}

/// A URL from `url::Position::BeforeQuery` to `url::Position::AfterQuery`: its
/// query string.
#[verifier::external_body]
pub(crate) fn query_text_of(url: &url::Url) -> (query: &str)
    requires
        url_query(*url) is Some,
    ensures
        url_query(*url) == Some(query@),
{
    &url[url::Position::BeforeQuery..url::Position::AfterQuery]
}

/// The query string of a URL. It is found by positions in the text, because
/// `url::Url::query` adds one to the last position that it can keep.
pub(crate) fn query_of(url: &url::Url) -> (query: Option<&str>)
    ensures
        match query {
            Some(query) => url_query(*url) == Some(query@),
            None => url_query(*url) is None,
        },
{
    if path_end_of(url) < query_end_of(url) {
        Some(query_text_of(url))
    } else {
        None
    }
}

// ---------------------------------------------------------------------------
// Requests
// ---------------------------------------------------------------------------

/// What a request holds besides its body. The names of headers are in lower
/// case. The other extensions are all but the redirect policy, if there are any.
pub struct RequestHead {
    pub method: Seq<char>,
    pub uri: Seq<char>,
    pub version: Seq<char>,
    pub headers: Map<Seq<char>, Seq<Seq<char>>>,
    pub redirects: Option<RedirectPolicy>,
    pub others: Option<http::Extensions>,
}

impl RequestHead {
    /// The values of a header, in the order in which they were added.
    pub open spec fn header(self, name: Seq<char>) -> Seq<Seq<char>> {
        if self.headers.dom().contains(name) {
            self.headers[name]
        } else {
            Seq::empty()
        }
    }

    /// The head with one more value of a header.
    pub open spec fn with_header(self, name: Seq<char>, value: Seq<char>) -> RequestHead {
        RequestHead { headers: self.headers.insert(name, self.header(name).push(value)), ..self }
    }
}

/// The head of a request that nothing was set on: a `GET` of `/`.
pub open spec fn blank_head() -> RequestHead {
    RequestHead {
        method: "GET"@,
        uri: "/"@,
        version: "HTTP/1.1"@,
        headers: Map::empty(),
        redirects: None,
        others: None,
    }
}

/// What `http` makes of a text as the URI of a request: the text of the URI, or
/// the error that the request then ends in.
pub uninterp spec fn request_uri(text: Seq<char>) -> Result<Seq<char>, http::Error>;

/// What a `http::request::Builder` holds: the head of a request, or the first
/// error that was met.
pub uninterp spec fn builder_holds(builder: http::request::Builder) -> Result<
    RequestHead,
    http::Error,
>;

/// What the parts of a request hold.
pub uninterp spec fn parts_hold(parts: http::request::Parts) -> RequestHead;

/// `http::request::Builder::new`: the builder holds a blank head.
pub assume_specification[ http::request::Builder::new ]() -> (builder: http::request::Builder)
    ensures
        builder_holds(builder) is Ok,
        builder_holds(builder)->Ok_0 == blank_head(),
;

/// The most bytes that `http` takes as a URI.
pub const URI_SIZE_MAX: usize = 65534;

/// Whether a text is a URI of the plainest kind: a URL of that kind that is not
/// too long.
pub open spec fn is_plain_uri(text: Seq<char>) -> bool {
    &&& text.len() <= URI_SIZE_MAX
    &&& exists|
        scheme: Seq<char>,
        host: Seq<char>,
        port: Option<u16>,
        path: Seq<char>,
        query: Option<Seq<char>>,
    | #[trigger]
        is_plain_url(text, scheme, host, port, path, query)
}

/// `http::request::Builder::uri` with a text: the head gets the URI, unless the
/// builder holds an error already; a text that is no URI makes it hold one. A
/// URI of the plainest kind is taken as it is, and neither an empty text nor one
/// that is too long is a URI.
#[verifier::external_body]
pub(crate) fn builder_uri(builder: http::request::Builder, uri: &str) -> (result:
    http::request::Builder)
    ensures
        builder_holds(result) == match (builder_holds(builder), request_uri(uri@)) {
            (Err(error), _) => Err(error),
            (_, Err(error)) => Err(error),
            (Ok(head), Ok(uri)) => Ok((RequestHead { uri, ..head })),
        },
        builder_holds(builder) is Ok && is_plain_uri(uri@) ==> builder_holds(result) is Ok
            && builder_holds(result)->Ok_0.uri == uri@,
        uri@.len() == 0 || uri@.len() > URI_SIZE_MAX ==> builder_holds(result) is Err,
{
    builder.uri(uri)
}

/// Whether a text is the name of a method, in capital letters.
pub open spec fn is_method_name(text: Seq<char>) -> bool {
    &&& text.len() > 0
    &&& forall|i: int| 0 <= i < text.len() ==> 'A' <= #[trigger] text[i] <= 'Z'
}

/// `http::request::Builder::method` with a text of capital letters, which is
/// always a method: the head gets it, unless the builder holds an error.
#[verifier::external_body]
pub(crate) fn builder_method(builder: http::request::Builder, method: &str) -> (result:
    http::request::Builder)
    requires
        is_method_name(method@),
    ensures
        builder_holds(result) == match builder_holds(builder) {
            Err(error) => Err(error),
            Ok(head) => Ok((RequestHead { method: method@, ..head })),
        },
{
    builder.method(method)
}

/// Whether a text is a short header name of letters and hyphens.
pub open spec fn is_header_name(text: Seq<char>) -> bool {
    &&& 0 < text.len() <= 64
    &&& forall|i: int|
        0 <= i < text.len() ==> ('a' <= #[trigger] text[i] <= 'z' || 'A' <= text[i] <= 'Z'
            || text[i] == '-')
}

/// Whether a text is of visible ASCII characters and spaces.
pub open spec fn is_visible(text: Seq<char>) -> bool {
    forall|i: int| 0 <= i < text.len() ==> ' ' <= #[trigger] text[i] <= '~'
}

/// A text with its ASCII capital letters in lower case.
pub open spec fn lower_case(text: Seq<char>) -> Seq<char> {
    text.map_values(|c: char| if 'A' <= c <= 'Z' { (c as u32 + 32) as char } else { c })
}

/// `http::request::Builder::header` with a name of letters and hyphens and a
/// visible value, which are always a header name and a header value: the value
/// is added to those of the name in lower case, unless the builder holds an
/// error. A builder that holds thousands of headers could refuse, hence the
/// bound.
#[verifier::external_body]
pub(crate) fn builder_header(builder: http::request::Builder, name: &str, value: &str) -> (result:
    http::request::Builder)
    requires
        is_header_name(name@),
        is_visible(value@),
        builder_holds(builder) matches Ok(head) ==> head.headers.dom().finite()
            && head.headers.dom().len() < 1000,
    ensures
        builder_holds(result) == match builder_holds(builder) {
            Err(error) => Err(error),
            Ok(head) => Ok(head.with_header(lower_case(name@), value@)),
        },
{
    builder.header(name, value)
}

/// `http::request::Builder::extension` with a redirect policy: the policy takes
/// the place of one that was there, and extensions of other types stay, unless
/// the builder holds an error.
#[verifier::external_body]
pub(crate) fn builder_redirects(builder: http::request::Builder, follow: RedirectPolicy) -> (result:
    http::request::Builder)
    ensures
        builder_holds(result) == match builder_holds(builder) {
            Err(error) => Err(error),
            Ok(head) => Ok((RequestHead { redirects: Some(follow), ..head })),
        },
{
    builder.extension(follow)
}

/// `http::request::Builder::body`: the error that the builder holds, or a
/// request with the head that it holds and with the body, taken apart.
#[verifier::external_body]
pub(crate) fn builder_body<B>(builder: http::request::Builder, body: B) -> (result: Result<
    (http::request::Parts, B),
    http::Error,
>)
    ensures
        match builder_holds(builder) {
            Err(error) => result == Err::<(http::request::Parts, B), http::Error>(error),
            Ok(head) => result matches Ok((parts, kept)) && parts_hold(parts) == head && kept
                == body,
        },
{
    builder.body(body).map(|request| request.into_parts())
}

// ---------------------------------------------------------------------------
// Responses and header values
// ---------------------------------------------------------------------------

/// What a response holds besides its body. The names of headers are in lower
/// case.
pub struct ResponseHead {
    pub status: u16,
    pub version: Seq<char>,
    pub headers: Map<Seq<char>, Seq<Seq<char>>>,
    pub extensions: Option<http::Extensions>,
}

/// The head of a response on which nothing but the status code was set.
pub open spec fn status_head(status: u16) -> ResponseHead {
    ResponseHead { status, version: "HTTP/1.1"@, headers: Map::empty(), extensions: None }
}

/// What the parts of a response hold.
pub uninterp spec fn response_holds(parts: http::response::Parts) -> ResponseHead;

/// `http::response::Builder::status` with a number that is a status code, on a
/// new builder, and `body`: the parts of a response with that status code, and
/// with neither headers nor extensions.
#[verifier::external_body]
pub(crate) fn response_parts(status: u16) -> (parts: http::response::Parts)
    requires
        100 <= status < 1000,
    ensures
        response_holds(parts) == status_head(status),
{
    let (parts, _) = http::Response::builder().status(status).body(()).unwrap().into_parts();
    parts
}

/// The text of a header value.
pub uninterp spec fn header_text(value: http::HeaderValue) -> Seq<char>;

/// `http::HeaderValue::from_static` with a visible text, which it takes as it
/// is.
#[verifier::external_body]
pub(crate) fn static_header_value(text: &'static str) -> (value: http::HeaderValue)
    requires
        is_visible(text@),
    ensures
        header_text(value) == text@,
{
    http::HeaderValue::from_static(text)
}

/// Name and value pairs are seen as they are, in their order.
pub proof fn pairs_are_seen_as_they_are(owned: Seq<(String, String)>, borrowed: Seq<(&str, &str)>)
    ensures
        owned_pairs(owned).len() == owned.len(),
        forall|i: int|
            0 <= i < owned.len() ==> #[trigger] owned_pairs(owned)[i] == (owned[i].0@, owned[i].1@),
        borrowed_pairs(borrowed).len() == borrowed.len(),
        forall|i: int|
            0 <= i < borrowed.len() ==> #[trigger] borrowed_pairs(borrowed)[i] == (
                borrowed[i].0@,
                borrowed[i].1@,
            ),
{
}

/// Parameters can be added to every text that is no URL and not too long, and
/// to every URL that stays short enough with them; to one without a fragment
/// also where they make it longer, as long as its question mark can be placed.
pub proof fn parameters_can_be_added(text: Seq<char>, params: Seq<(Seq<char>, Seq<char>)>)
    requires
        text.len() < 0x8000_0000,
    ensures
        url_parsed(text) is Err ==> can_take_params(text, params),
        url_parsed(text) matches Ok(bare) ==> {
            let path_end = url_path_end(bare) as int;
            let query_end = url_query_end(bare) as int;
            let len = url_len(bare) as int;
            let more = urlencoded(params).len() as int;
            &&& path_end <= query_end <= len && len + 1 + more <= 0xffff_ffff ==> can_take_params(
                text,
                params,
            )
            &&& path_end < query_end == len ==> can_take_params(text, params)
            &&& path_end == query_end == len ==> (can_take_params(text, params) <==> len
                <= 0xffff_ffff)
            &&& path_end == query_end < len ==> (can_take_params(text, params) <==> query_end + 1
                + more <= 0xffff_ffff)
            &&& path_end + 1 == query_end < len ==> (can_take_params(text, params) <==> query_end
                < 0xffff_ffff && query_end + more <= 0xffff_ffff)
            &&& path_end + 1 < query_end < len && more > 0 ==> (can_take_params(text, params)
                <==> query_end + 1 + more <= 0xffff_ffff)
            &&& path_end + 1 < query_end < len && more == 0 ==> (can_take_params(text, params)
                <==> query_end < 0xffff_ffff)
        },
{
}

/// A text is refused parameters for its length only where it cannot be parsed.
pub proof fn long_texts_take_no_parameters(
    text: Seq<char>,
    params: Seq<(Seq<char>, Seq<char>)>,
)
    requires
        can_take_params(text, params),
    ensures
        text.len() < 0x8000_0000,
{
}

/// Two URLs are at the same place just if scheme, host, port and fragment are
/// the same, and the pairs of a URL are those of its query string.
pub proof fn urls_are_seen_as_they_are(a: url::Url, b: url::Url)
    ensures
        is_same_place(a, b) <==> url_scheme(a) == url_scheme(b) && url_host(a) == url_host(b)
            && url_port(a) == url_port(b) && url_fragment(a) == url_fragment(b),
        url_query(a) is Some ==> url_pairs(a) == form_pairs(url_query(a)->0),
        url_query(a) is None ==> url_pairs(a).len() == 0,
{
}

} // verus!
