//! The callback of an OAuth authorization: what the browser brings back from
//! the authorization server.

use crate::text::concat;
use crate::web::{parse_form, parse_url, path_of, query_of};
use vstd::prelude::*;

verus! {

/// Parsed OAuth callback parameters from the authorization server redirect.
pub struct OAuthCallbackParams {
    pub code: String,
    pub state: String,
}

/// A callback that brings no parameters.
#[derive(Debug)]
pub enum OAuthCallbackError {
    /// The authorization server reports an error.
    AuthorizationFailed { error: String, description: Option<String> },
    /// There is no authorization code.
    MissingCode,
    /// There is no state.
    MissingState,
    /// What was requested is no URL.
    MalformedUrl(url::ParseError),
    /// Another path than that of the callback was requested.
    UnexpectedPath(String),
    /// The URL has no query string.
    MissingQuery,
    /// The server could not receive a request.
    ServerFailure,
}

/// Callback parameters as plain text.
pub struct CallbackText {
    pub code: Seq<char>,
    pub state: Seq<char>,
}

/// What went wrong with a callback, as plain text.
pub enum CallbackFailure {
    AuthorizationFailed { error: Seq<char>, description: Option<Seq<char>> },
    MissingCode,
    MissingState,
    MalformedUrl(url::ParseError),
    UnexpectedPath(Seq<char>),
    MissingQuery,
    ServerFailure,
}

impl View for OAuthCallbackParams {
    type V = CallbackText;

    open spec fn view(&self) -> CallbackText {
        CallbackText { code: self.code@, state: self.state@ }
    }
}

impl View for OAuthCallbackError {
    type V = CallbackFailure;

    open spec fn view(&self) -> CallbackFailure {
        match self {
            OAuthCallbackError::AuthorizationFailed { error, description } => {
                CallbackFailure::AuthorizationFailed {
                    error: error@,
                    description: crate::proxy::text_of(*description),
                }
            },
            OAuthCallbackError::MissingCode => CallbackFailure::MissingCode,
            OAuthCallbackError::MissingState => CallbackFailure::MissingState,
            OAuthCallbackError::MalformedUrl(error) => CallbackFailure::MalformedUrl(*error),
            OAuthCallbackError::UnexpectedPath(path) => CallbackFailure::UnexpectedPath(path@),
            OAuthCallbackError::MissingQuery => CallbackFailure::MissingQuery,
            OAuthCallbackError::ServerFailure => CallbackFailure::ServerFailure,
        }
    }
}

/// The outcome of a callback, as plain text.
pub open spec fn outcome(result: Result<OAuthCallbackParams, OAuthCallbackError>) -> Result<
    CallbackText,
    CallbackFailure,
> {
    match result {
        Ok(params) => Ok(params@),
        Err(error) => Err(error@),
    }
}

/// The last value of a parameter that is not empty.
pub open spec fn last_value(pairs: Seq<(Seq<char>, Seq<char>)>, name: Seq<char>) -> Option<
    Seq<char>,
>
    decreases pairs.len(),
{
    if pairs.len() == 0 {
        None
    } else if pairs.last().0 == name && pairs.last().1.len() > 0 {
        Some(pairs.last().1)
    } else {
        last_value(pairs.drop_last(), name)
    }
}

/// What the parameters of a query string amount to. An error that the
/// authorization server reports comes before all else.
pub open spec fn pairs_outcome(pairs: Seq<(Seq<char>, Seq<char>)>) -> Result<
    CallbackText,
    CallbackFailure,
> {
    match last_value(pairs, "error"@) {
        Some(error) => Err(
            CallbackFailure::AuthorizationFailed {
                error,
                description: last_value(pairs, "error_description"@),
            },
        ),
        None => match (last_value(pairs, "code"@), last_value(pairs, "state"@)) {
            (None, _) => Err(CallbackFailure::MissingCode),
            (Some(_), None) => Err(CallbackFailure::MissingState),
            (Some(code), Some(state)) => Ok(CallbackText { code, state }),
        },
    }
}

/// What a query string amounts to.
pub open spec fn query_outcome(query: Seq<char>) -> Result<CallbackText, CallbackFailure> {
    pairs_outcome(crate::web::form_pairs(query))
}

/// What the path and the query string of a URL amount to.
pub open spec fn location_outcome(path: Seq<char>, query: Option<Seq<char>>) -> Result<
    CallbackText,
    CallbackFailure,
> {
    if path != "/callback"@ {
        Err(CallbackFailure::UnexpectedPath(path))
    } else {
        match query {
            None => Err(CallbackFailure::MissingQuery),
            Some(query) => query_outcome(query),
        }
    }
}

/// Whether none of some parameters matters: each has another name or no value.
pub open spec fn are_unread(pairs: Seq<(Seq<char>, Seq<char>)>) -> bool {
    forall|i: int|
        0 <= i < pairs.len() ==> (#[trigger] pairs[i]).1.len() == 0 || (pairs[i].0 != "code"@
            && pairs[i].0 != "state"@ && pairs[i].0 != "error"@ && pairs[i].0
            != "error_description"@)
}

/// The most characters that a requested path and query may have: as many as
/// can be parsed behind the name of the host.
pub const TARGET_MAX: usize = 0x7fff_ffef;

/// What a requested path and query, as they stand in the request, amount to.
pub open spec fn request_outcome(target: Seq<char>) -> Result<CallbackText, CallbackFailure> {
    match crate::web::url_parsed("http://localhost"@ + target) {
        Err(error) => Err(CallbackFailure::MalformedUrl(error)),
        Ok(url) => location_outcome(crate::web::url_path(url), crate::web::url_query(url)),
    }
}

/// The values of the parameters that matter, as far as some parameters were
/// read.
struct Values {
    code: Option<String>,
    state: Option<String>,
    error: Option<String>,
    error_description: Option<String>,
}

impl Values {
    spec fn are_last_of(self, pairs: Seq<(Seq<char>, Seq<char>)>) -> bool {
        &&& crate::proxy::text_of(self.code) == last_value(pairs, "code"@)
        &&& crate::proxy::text_of(self.state) == last_value(pairs, "state"@)
        &&& crate::proxy::text_of(self.error) == last_value(pairs, "error"@)
        &&& crate::proxy::text_of(self.error_description) == last_value(
            pairs,
            "error_description"@,
        )
    }
}

proof fn lemma_names_differ()
    ensures
        "code"@ != "state"@,
        "code"@ != "error"@,
        "code"@ != "error_description"@,
        "state"@ != "error"@,
        "state"@ != "error_description"@,
        "error"@ != "error_description"@,
{
    reveal_strlit("code");
    reveal_strlit("state");
    reveal_strlit("error");
    reveal_strlit("error_description");
    assert("code"@.len() == 4);
    assert("error_description"@.len() == 17);
    assert("state"@[0] == 's');
    assert("error"@[0] == 'e');
}

impl OAuthCallbackParams {
    /// Parse the query string from a callback URL like
    /// `http://127.0.0.1:<port>/callback?code=...&state=...`.
    /// Parameters that do not matter may stand anywhere in it.
    pub fn parse_query(query: &str) -> (result: Result<Self, OAuthCallbackError>)
        ensures
            outcome(result) == query_outcome(query@),
            outcome(result) == pairs_outcome(crate::web::form_pairs(query@)),
            forall|pairs: Seq<(Seq<char>, Seq<char>)>|
                query@ == #[trigger] crate::web::urlencoded(pairs) ==> outcome(result)
                    == pairs_outcome(pairs),
            forall|a: Seq<char>, b: Seq<char>|
                query@ == #[trigger] crate::web::joined(a, b) ==> {
                    let first = crate::web::form_pairs(a);
                    let second = crate::web::form_pairs(b);
                    &&& outcome(result) == pairs_outcome(first + second)
                    &&& are_unread(first) ==> outcome(result) == query_outcome(b)
                    &&& are_unread(second) ==> outcome(result) == query_outcome(a)
                },
            forall|a: Seq<char>, m: Seq<char>, b: Seq<char>|
                query@ == #[trigger] crate::web::joined(crate::web::joined(a, m), b) && are_unread(
                    crate::web::form_pairs(m),
                ) ==> outcome(result) == pairs_outcome(
                    crate::web::form_pairs(a) + crate::web::form_pairs(b),
                ),
    {
        let pairs = parse_form(query);
        proof {
            let none = Seq::<(Seq<char>, Seq<char>)>::empty();
            assert forall|a: Seq<char>, b: Seq<char>|
                query@ == #[trigger] crate::web::joined(a, b) implies {
                    let first = crate::web::form_pairs(a);
                    let second = crate::web::form_pairs(b);
                    let all = crate::web::owned_pairs(pairs@);
                    &&& all == first + second
                    &&& are_unread(first) ==> pairs_outcome(all) == query_outcome(b)
                    &&& are_unread(second) ==> pairs_outcome(all) == query_outcome(a)
                } by {
                let first = crate::web::form_pairs(a);
                let second = crate::web::form_pairs(b);
                assert(none + first + second == first + second);
                assert(none + second == second);
                assert(first + second + none == first + second);
                assert(first + none == first);
                if are_unread(first) {
                    unread_parameters_are_ignored(none, first, second);
                }
                if are_unread(second) {
                    unread_parameters_are_ignored(first, second, none);
                }
            }
            assert forall|a: Seq<char>, m: Seq<char>, b: Seq<char>|
                query@ == #[trigger] crate::web::joined(crate::web::joined(a, m), b) && are_unread(
                    crate::web::form_pairs(m),
                ) implies pairs_outcome(crate::web::owned_pairs(pairs@)) == pairs_outcome(
                crate::web::form_pairs(a) + crate::web::form_pairs(b),
            ) by {
                unread_parameters_are_ignored(
                    crate::web::form_pairs(a),
                    crate::web::form_pairs(m),
                    crate::web::form_pairs(b),
                );
            }
        }
        Self::from_pairs(&pairs)
    }

    /// The callback parameters among name and value pairs.
    pub fn from_pairs(pairs: &Vec<(String, String)>) -> (result: Result<Self, OAuthCallbackError>)
        ensures
            outcome(result) == pairs_outcome(crate::web::owned_pairs(pairs@)),
    {
        let mut values = Values { code: None, state: None, error: None, error_description: None };
        let ghost all = crate::web::owned_pairs(pairs@);
        let mut i: usize = 0;
        while i < pairs.len()
            invariant
                i <= pairs.len(),
                all == crate::web::owned_pairs(pairs@),
                values.are_last_of(all.take(i as int)),
            decreases pairs.len() - i,
        {
            let key = pairs[i].0.as_str();
            let value = &pairs[i].1;
            proof {
                lemma_names_differ();
                let seen = all.take(i + 1);
                assert(seen.drop_last() == all.take(i as int));
                assert(seen.last() == (key@, value@));
            }
            if !value.as_str().is_empty() {
                if *key == *"code" {
                    values.code = Some(value.clone());
                } else if *key == *"state" {
                    values.state = Some(value.clone());
                } else if *key == *"error" {
                    values.error = Some(value.clone());
                } else if *key == *"error_description" {
                    values.error_description = Some(value.clone());
                }
            }
            i += 1;
        }
        proof {
            assert(all.take(pairs.len() as int) == all);
        }
        if let Some(error) = values.error {
            return Err(
                OAuthCallbackError::AuthorizationFailed {
                    error,
                    description: values.error_description,
                },
            );
        }
        let code = match values.code {
            Some(code) => code,
            None => return Err(OAuthCallbackError::MissingCode),
        };
        let state = match values.state {
            Some(state) => state,
            None => return Err(OAuthCallbackError::MissingState),
        };
        Ok(OAuthCallbackParams { code, state })
    }

    /// The callback parameters in the path and the query string of a URL.
    pub fn from_location(path: &str, query: Option<&str>) -> (result: Result<
        Self,
        OAuthCallbackError,
    >)
        ensures
            outcome(result) == location_outcome(
                path@,
                match query {
                    Some(query) => Some(query@),
                    None => None,
                },
            ),
            path@ != "/callback"@ ==> (result matches Err(
                OAuthCallbackError::UnexpectedPath(found),
            ) && found@ == path@),
            path@ == "/callback"@ && query is None ==> result matches Err(
                OAuthCallbackError::MissingQuery,
            ),
            path@ == "/callback"@ && query is Some ==> outcome(result) == pairs_outcome(
                crate::web::form_pairs(query->0@),
            ),
            path@ == "/callback"@ && query is Some ==> forall|pairs: Seq<(Seq<char>, Seq<char>)>|
                query->0@ == #[trigger] crate::web::urlencoded(pairs) ==> outcome(result)
                    == pairs_outcome(pairs),
    {
        if !(*path == *"/callback") {
            return Err(OAuthCallbackError::UnexpectedPath(path.to_owned()));
        }
        match query {
            Some(query) => Self::parse_query(query),
            None => Err(OAuthCallbackError::MissingQuery),
        }
    }
}

/// The callback parameters in what a request asks for: the path and the query
/// string behind the name of the host.
pub fn handle_oauth_callback_request(target: &str) -> (result: Result<
    OAuthCallbackParams,
    OAuthCallbackError,
>)
    requires
        target@.len() <= TARGET_MAX,
    ensures
        outcome(result) == request_outcome(target@),
        match crate::web::url_parsed("http://localhost"@ + target@) {
            Err(error) => result matches Err(OAuthCallbackError::MalformedUrl(found)) && found
                == error,
            Ok(url) => {
                &&& crate::web::url_path(url) != "/callback"@ ==> (result matches Err(
                    OAuthCallbackError::UnexpectedPath(found),
                ) && found@ == crate::web::url_path(url))
                &&& crate::web::url_path(url) == "/callback"@ && crate::web::url_query(url) is None
                    ==> (result matches Err(OAuthCallbackError::MissingQuery))
                &&& crate::web::url_path(url) == "/callback"@ && crate::web::url_query(url) is Some
                    ==> outcome(result) == pairs_outcome(
                    crate::web::form_pairs(crate::web::url_query(url)->0),
                )
            },
        },
        forall|query: Seq<char>|
            target@ == "/callback?"@ + query && #[trigger] crate::web::is_plain_query(query)
                ==> outcome(result) == query_outcome(query),
        forall|pairs: Seq<(Seq<char>, Seq<char>)>|
            target@ == "/callback?"@ + #[trigger] crate::web::urlencoded(pairs) ==> outcome(result)
                == pairs_outcome(pairs),
{
    proof {
        reveal_strlit("http://localhost");
    }
    let text = concat("http://localhost", target);
    match parse_url(text.as_str()) {
        Ok(url) => {
            let result = OAuthCallbackParams::from_location(path_of(&url), query_of(&url));
            proof {
                assert forall|query: Seq<char>|
                    target@ == "/callback?"@ + query && #[trigger] crate::web::is_plain_query(
                        query,
                    ) implies outcome(result) == query_outcome(query) && crate::web::url_path(url)
                    == "/callback"@ && crate::web::url_query(url) == Some(query) by {
                    lemma_plain_callback(target@, query);
                }
                assert forall|pairs: Seq<(Seq<char>, Seq<char>)>|
                    target@ == "/callback?"@ + #[trigger] crate::web::urlencoded(
                        pairs,
                    ) implies outcome(result) == pairs_outcome(pairs) by {
                    assert(crate::web::is_plain_query(crate::web::urlencoded(pairs)));
                }
            }
            result
        },
        Err(error) => {
            proof {
                assert forall|query: Seq<char>| target@ == "/callback?"@ + query implies !(
                #[trigger] crate::web::is_plain_query(query)) by {
                    if crate::web::is_plain_query(query) {
                        lemma_plain_callback(target@, query);
                    }
                }
                assert forall|pairs: Seq<(Seq<char>, Seq<char>)>|
                    target@ != "/callback?"@ + #[trigger] crate::web::urlencoded(pairs) by {
                    assert(crate::web::is_plain_query(crate::web::urlencoded(pairs)));
                }
            }
            Err(OAuthCallbackError::MalformedUrl(error))
        },
    }
}

proof fn lemma_plain_callback(target: Seq<char>, query: Seq<char>)
    requires
        target == "/callback?"@ + query,
        target.len() <= TARGET_MAX,
        crate::web::is_plain_query(query),
    ensures
        crate::web::is_plain_url(
            "http://localhost"@ + target,
            "http://"@,
            "localhost"@,
            None,
            "/callback"@,
            Some(query),
        ),
{
    reveal_strlit("http://localhost");
    reveal_strlit("http://");
    reveal_strlit("localhost");
    reveal_strlit("/callback?");
    reveal_strlit("/callback");
    reveal_strlit("?");
    assert("http://localhost"@ == "http://"@ + "localhost"@);
    assert("/callback?"@ == "/callback"@ + "?"@);
    assert("http://localhost"@ + target == "http://"@ + "localhost"@ + "/callback"@ + ("?"@
        + query));
}

/// What a failed callback is reported as.
pub open spec fn failure_message(failure: CallbackFailure) -> Seq<char> {
    match failure {
        CallbackFailure::AuthorizationFailed { error, description } => {
            "OAuth authorization failed: "@ + error + " ("@ + (match description {
                Some(description) => description,
                None => "no description"@,
            }) + ")"@
        },
        CallbackFailure::MissingCode => "missing 'code' parameter in OAuth callback"@,
        CallbackFailure::MissingState => "missing 'state' parameter in OAuth callback"@,
        CallbackFailure::MalformedUrl(_) => "malformed callback request URL"@,
        CallbackFailure::UnexpectedPath(path) => "unexpected path in OAuth callback: "@ + path,
        CallbackFailure::MissingQuery => "OAuth callback has no query string"@,
        CallbackFailure::ServerFailure => "OAuth callback server I/O error"@,
    }
}

impl OAuthCallbackError {
    /// What the error is reported as.
    pub fn message(&self) -> (message: String)
        ensures
            message@ == failure_message(self@),
    {
        match self {
            OAuthCallbackError::AuthorizationFailed { error, description } => {
                let mut message = concat("OAuth authorization failed: ", error.as_str());
                message.push_str(" (");
                match description {
                    Some(description) => message.push_str(description.as_str()),
                    None => message.push_str("no description"),
                }
                message.push_str(")");
                message
            },
            OAuthCallbackError::MissingCode => {
                "missing 'code' parameter in OAuth callback".to_owned()
            },
            OAuthCallbackError::MissingState => {
                "missing 'state' parameter in OAuth callback".to_owned()
            },
            OAuthCallbackError::MalformedUrl(_) => "malformed callback request URL".to_owned(),
            OAuthCallbackError::UnexpectedPath(path) => concat(
                "unexpected path in OAuth callback: ",
                path.as_str(),
            ),
            OAuthCallbackError::MissingQuery => "OAuth callback has no query string".to_owned(),
            OAuthCallbackError::ServerFailure => "OAuth callback server I/O error".to_owned(),
        }
    }
}

proof fn lemma_last_value_not_empty(pairs: Seq<(Seq<char>, Seq<char>)>, name: Seq<char>)
    ensures
        last_value(pairs, name) matches Some(value) ==> value.len() > 0 && pairs.contains(
            (name, value),
        ),
    decreases pairs.len(),
{
    if pairs.len() > 0 {
        let init = pairs.drop_last();
        lemma_last_value_not_empty(init, name);
        if pairs.last().0 == name && pairs.last().1.len() > 0 {
            assert(pairs[pairs.len() - 1] == (name, pairs.last().1));
        } else if let Some(value) = last_value(init, name) {
            let i = choose|i: int| 0 <= i < init.len() && init[i] == (name, value);
            assert(pairs[i] == (name, value));
        }
    }
}

/// Parameters that are accepted are not empty, and stand in the query string
/// under their names.
pub proof fn accepted_parameters_were_given(pairs: Seq<(Seq<char>, Seq<char>)>)
    requires
        pairs_outcome(pairs) is Ok,
    ensures
        pairs_outcome(pairs)->Ok_0.code.len() > 0,
        pairs_outcome(pairs)->Ok_0.state.len() > 0,
        pairs.contains(("code"@, pairs_outcome(pairs)->Ok_0.code)),
        pairs.contains(("state"@, pairs_outcome(pairs)->Ok_0.state)),
{
    lemma_last_value_not_empty(pairs, "code"@);
    lemma_last_value_not_empty(pairs, "state"@);
}

/// An error that the authorization server reports is never overruled by a code
/// and a state.
pub proof fn reported_error_wins(
    pairs: Seq<(Seq<char>, Seq<char>)>,
    error: Seq<char>,
)
    requires
        error.len() > 0,
        pairs.contains(("error"@, error)),
    ensures
        pairs_outcome(pairs) matches Err(CallbackFailure::AuthorizationFailed { .. }),
{
    lemma_given_value_is_found(pairs, "error"@, error);
}

proof fn lemma_given_value_is_found(
    pairs: Seq<(Seq<char>, Seq<char>)>,
    name: Seq<char>,
    value: Seq<char>,
)
    requires
        value.len() > 0,
        pairs.contains((name, value)),
    ensures
        last_value(pairs, name) is Some,
    decreases pairs.len(),
{
    if !(pairs.last().0 == name && pairs.last().1.len() > 0) {
        let i = choose|i: int| 0 <= i < pairs.len() && pairs[i] == (name, value);
        assert(pairs.drop_last()[i] == (name, value));
        lemma_given_value_is_found(pairs.drop_last(), name, value);
    }
}

/// A parameter without a value changes nothing.
pub proof fn empty_parameter_is_ignored(
    before: Seq<(Seq<char>, Seq<char>)>,
    name: Seq<char>,
    after: Seq<(Seq<char>, Seq<char>)>,
)
    ensures
        pairs_outcome(before + seq![(name, Seq::empty())] + after) == pairs_outcome(before + after),
{
    let extra = (name, Seq::<char>::empty());
    lemma_unread_pair(before, extra, after, "code"@);
    lemma_unread_pair(before, extra, after, "state"@);
    lemma_unread_pair(before, extra, after, "error"@);
    lemma_unread_pair(before, extra, after, "error_description"@);
}

/// A parameter of another name changes nothing.
pub proof fn unknown_parameter_is_ignored(
    before: Seq<(Seq<char>, Seq<char>)>,
    name: Seq<char>,
    value: Seq<char>,
    after: Seq<(Seq<char>, Seq<char>)>,
)
    requires
        name != "code"@,
        name != "state"@,
        name != "error"@,
        name != "error_description"@,
    ensures
        pairs_outcome(before + seq![(name, value)] + after) == pairs_outcome(before + after),
{
    lemma_unread_pair(before, (name, value), after, "code"@);
    lemma_unread_pair(before, (name, value), after, "state"@);
    lemma_unread_pair(before, (name, value), after, "error"@);
    lemma_unread_pair(before, (name, value), after, "error_description"@);
}

proof fn lemma_unread_pair(
    before: Seq<(Seq<char>, Seq<char>)>,
    extra: (Seq<char>, Seq<char>),
    after: Seq<(Seq<char>, Seq<char>)>,
    name: Seq<char>,
)
    requires
        extra.0 != name || extra.1.len() == 0,
    ensures
        last_value(before + seq![extra] + after, name) == last_value(before + after, name),
    decreases after.len(),
{
    let long = before + seq![extra] + after;
    let short = before + after;
    if after.len() == 0 {
        assert(long.last() == extra);
        assert(long.drop_last() == short);
    } else {
        assert(long.drop_last() == before + seq![extra] + after.drop_last());
        assert(short.drop_last() == before + after.drop_last());
        assert(long.last() == short.last());
        lemma_unread_pair(before, extra, after.drop_last(), name);
    }
}

/// Parameters that do not matter change nothing, however many there are.
pub proof fn unread_parameters_are_ignored(
    before: Seq<(Seq<char>, Seq<char>)>,
    extra: Seq<(Seq<char>, Seq<char>)>,
    after: Seq<(Seq<char>, Seq<char>)>,
)
    requires
        are_unread(extra),
    ensures
        pairs_outcome(before + extra + after) == pairs_outcome(before + after),
    decreases extra.len(),
{
    if extra.len() == 0 {
        assert(before + extra + after == before + after);
    } else {
        let init = extra.drop_last();
        let (name, value) = extra.last();
        assert(extra[extra.len() - 1] == (name, value));
        assert forall|i: int| 0 <= i < init.len() implies (#[trigger] init[i]).1.len() == 0 || (
        init[i].0 != "code"@ && init[i].0 != "state"@ && init[i].0 != "error"@ && init[i].0
            != "error_description"@) by {
            assert(init[i] == extra[i]);
        }
        assert(before + extra + after == (before + init) + seq![(name, value)] + after);
        if value.len() == 0 {
            assert(value == Seq::<char>::empty());
            empty_parameter_is_ignored(before + init, name, after);
        } else {
            unknown_parameter_is_ignored(before + init, name, value, after);
        }
        unread_parameters_are_ignored(before, init, after);
    }
}

/// Of several values of a parameter the last one that is not empty counts.
pub proof fn last_parameter_counts(
    pairs: Seq<(Seq<char>, Seq<char>)>,
    name: Seq<char>,
    value: Seq<char>,
)
    requires
        value.len() > 0,
    ensures
        last_value(pairs.push((name, value)), name) == Some(value),
        forall|other: Seq<char>|
            other != name ==> #[trigger] last_value(pairs.push((name, value)), other)
                == last_value(pairs, other),
{
    assert(pairs.push((name, value)).drop_last() == pairs);
}

/// The order of parameters with different names does not matter.
pub proof fn parameters_may_be_swapped(
    before: Seq<(Seq<char>, Seq<char>)>,
    a: (Seq<char>, Seq<char>),
    b: (Seq<char>, Seq<char>),
    after: Seq<(Seq<char>, Seq<char>)>,
)
    requires
        a.0 != b.0,
    ensures
        pairs_outcome(before + seq![a, b] + after) == pairs_outcome(before + seq![b, a] + after),
{
    lemma_swap(before, a, b, after, "code"@);
    lemma_swap(before, a, b, after, "state"@);
    lemma_swap(before, a, b, after, "error"@);
    lemma_swap(before, a, b, after, "error_description"@);
}

proof fn lemma_swap(
    before: Seq<(Seq<char>, Seq<char>)>,
    a: (Seq<char>, Seq<char>),
    b: (Seq<char>, Seq<char>),
    after: Seq<(Seq<char>, Seq<char>)>,
    name: Seq<char>,
)
    requires
        a.0 != b.0,
    ensures
        last_value(before + seq![a, b] + after, name) == last_value(
            before + seq![b, a] + after,
            name,
        ),
    decreases after.len(),
{
    reveal_with_fuel(last_value, 3);
    let left = before + seq![a, b] + after;
    let right = before + seq![b, a] + after;
    if after.len() == 0 {
        assert(left.last() == b && right.last() == a);
        assert(left.drop_last() == before.push(a));
        assert(right.drop_last() == before.push(b));
        assert(before.push(a).drop_last() == before);
        assert(before.push(b).drop_last() == before);
    } else {
        assert(left.drop_last() == before + seq![a, b] + after.drop_last());
        assert(right.drop_last() == before + seq![b, a] + after.drop_last());
        assert(left.last() == right.last());
        lemma_swap(before, a, b, after.drop_last(), name);
    }
}

/// A callback that brings a code and a state, neither of them empty, is
/// accepted with just these.
pub proof fn code_and_state_are_read_back(code: Seq<char>, state: Seq<char>)
    requires
        code.len() > 0,
        state.len() > 0,
    ensures
        pairs_outcome(seq![("code"@, code), ("state"@, state)]) == Ok::<
            CallbackText,
            CallbackFailure,
        >((CallbackText { code, state })),
{
    lemma_names_differ();
    reveal_with_fuel(last_value, 3);
    let one = seq![("code"@, code)];
    let both = seq![("code"@, code), ("state"@, state)];
    assert(both.drop_last() == one);
    assert(one.drop_last() == Seq::<(Seq<char>, Seq<char>)>::empty());
    assert(one.last() == ("code"@, code));
    assert(both.last() == ("state"@, state));
}

proof fn lemma_last_entry(pairs: Seq<(Seq<char>, Seq<char>)>, name: Seq<char>)
    ensures
        forall|i: int|
            0 <= i < pairs.len() && (#[trigger] pairs[i]).0 == name && pairs[i].1.len() > 0 && (
            forall|j: int|
                i < j < pairs.len() && (#[trigger] pairs[j]).0 == name ==> pairs[j].1.len() == 0)
                ==> last_value(pairs, name) == Some(pairs[i].1),
        (forall|j: int|
            0 <= j < pairs.len() && (#[trigger] pairs[j]).0 == name ==> pairs[j].1.len() == 0)
            ==> last_value(pairs, name) is None,
    decreases pairs.len(),
{
    if pairs.len() > 0 {
        let init = pairs.drop_last();
        let end = pairs.len() - 1;
        lemma_last_entry(init, name);
        assert(pairs[end] == pairs.last());
        assert forall|i: int|
            0 <= i < pairs.len() && (#[trigger] pairs[i]).0 == name && pairs[i].1.len() > 0 && (
            forall|j: int|
                i < j < pairs.len() && (#[trigger] pairs[j]).0 == name ==> pairs[j].1.len() == 0)
            implies last_value(pairs, name) == Some(pairs[i].1) by {
            if i < end {
                assert(init[i] == pairs[i]);
                assert forall|j: int|
                    i < j < init.len() && (#[trigger] init[j]).0 == name implies init[j].1.len()
                    == 0 by {
                    assert(init[j] == pairs[j]);
                }
            }
        }
        if forall|j: int|
            0 <= j < pairs.len() && (#[trigger] pairs[j]).0 == name ==> pairs[j].1.len() == 0 {
            assert forall|j: int|
                0 <= j < init.len() && (#[trigger] init[j]).0 == name implies init[j].1.len()
                == 0 by {
                assert(init[j] == pairs[j]);
            }
        }
    }
}

/// Parameters with a code and a state, and without an error, are accepted,
/// whatever else stands between them: with the last code and the last state
/// that are not empty.
pub proof fn code_and_state_are_accepted(
    pairs: Seq<(Seq<char>, Seq<char>)>,
    code: int,
    state: int,
)
    requires
        0 <= code < pairs.len(),
        pairs[code].0 == "code"@,
        pairs[code].1.len() > 0,
        forall|j: int|
            code < j < pairs.len() && (#[trigger] pairs[j]).0 == "code"@ ==> pairs[j].1.len() == 0,
        0 <= state < pairs.len(),
        pairs[state].0 == "state"@,
        pairs[state].1.len() > 0,
        forall|j: int|
            state < j < pairs.len() && (#[trigger] pairs[j]).0 == "state"@ ==> pairs[j].1.len()
                == 0,
        forall|j: int|
            0 <= j < pairs.len() && (#[trigger] pairs[j]).0 == "error"@ ==> pairs[j].1.len() == 0,
    ensures
        pairs_outcome(pairs) is Ok,
        pairs_outcome(pairs)->Ok_0.code == pairs[code].1,
        pairs_outcome(pairs)->Ok_0.state == pairs[state].1,
{
    lemma_last_entry(pairs, "code"@);
    lemma_last_entry(pairs, "state"@);
    lemma_last_entry(pairs, "error"@);
}

/// Parameters without an error are refused for want of a code if they have
/// none, and for want of a state if that alone is missing.
pub proof fn missing_parameters_are_refused(pairs: Seq<(Seq<char>, Seq<char>)>)
    requires
        forall|j: int|
            0 <= j < pairs.len() && (#[trigger] pairs[j]).0 == "error"@ ==> pairs[j].1.len() == 0,
    ensures
        (forall|j: int|
            0 <= j < pairs.len() && (#[trigger] pairs[j]).0 == "code"@ ==> pairs[j].1.len() == 0)
            ==> pairs_outcome(pairs) matches Err(CallbackFailure::MissingCode),
        (exists|j: int|
            0 <= j < pairs.len() && (#[trigger] pairs[j]).0 == "code"@ && pairs[j].1.len() > 0)
            && (forall|j: int|
            0 <= j < pairs.len() && (#[trigger] pairs[j]).0 == "state"@ ==> pairs[j].1.len() == 0)
            ==> pairs_outcome(pairs) matches Err(CallbackFailure::MissingState),
{
    lemma_last_entry(pairs, "error"@);
    lemma_last_entry(pairs, "code"@);
    lemma_last_entry(pairs, "state"@);
    if exists|j: int|
        0 <= j < pairs.len() && (#[trigger] pairs[j]).0 == "code"@ && pairs[j].1.len() > 0 {
        let j = choose|j: int|
            0 <= j < pairs.len() && (#[trigger] pairs[j]).0 == "code"@ && pairs[j].1.len() > 0;
        assert(pairs.contains(("code"@, pairs[j].1)));
        lemma_given_value_is_found(pairs, "code"@, pairs[j].1);
    }
}

/// The error that is reported is the last one that is not empty, whatever code
/// and state stand beside it.
pub proof fn reported_error_is_passed_on(pairs: Seq<(Seq<char>, Seq<char>)>, error: int)
    requires
        0 <= error < pairs.len(),
        pairs[error].0 == "error"@,
        pairs[error].1.len() > 0,
        forall|j: int|
            error < j < pairs.len() && (#[trigger] pairs[j]).0 == "error"@ ==> pairs[j].1.len()
                == 0,
    ensures
        pairs_outcome(pairs) matches Err(
            CallbackFailure::AuthorizationFailed { error: reported, .. },
        ) && reported == pairs[error].1,
{
    lemma_last_entry(pairs, "error"@);
}

/// With the error goes the last description that is not empty, and none if
/// there is none.
pub proof fn description_goes_with_the_error(
    pairs: Seq<(Seq<char>, Seq<char>)>,
    error: Seq<char>,
    given: Option<Seq<char>>,
)
    requires
        pairs_outcome(pairs) == Err::<CallbackText, CallbackFailure>(
            (CallbackFailure::AuthorizationFailed { error, description: given }),
        ),
    ensures
        forall|i: int|
            0 <= i < pairs.len() && (#[trigger] pairs[i]).0 == "error_description"@
                && pairs[i].1.len() > 0 && (forall|j: int|
                i < j < pairs.len() && (#[trigger] pairs[j]).0 == "error_description"@
                    ==> pairs[j].1.len() == 0) ==> given == Some(pairs[i].1),
        (forall|j: int|
            0 <= j < pairs.len() && (#[trigger] pairs[j]).0 == "error_description"@
                ==> pairs[j].1.len() == 0) ==> given is None,
{
    lemma_last_entry(pairs, "error_description"@);
    lemma_last_entry(pairs, "error"@);
}

/// A callback request whose URL has the path of the callback amounts to what
/// its query string amounts to, whatever characters that has. Every other
/// request is refused for what is wrong with it.
pub proof fn requests_amount_to_their_queries(target: Seq<char>)
    ensures
        match crate::web::url_parsed("http://localhost"@ + target) {
            Err(error) => request_outcome(target) matches Err(CallbackFailure::MalformedUrl(found))
                && found == error,
            Ok(url) => {
                &&& crate::web::url_path(url) != "/callback"@ ==> (request_outcome(target) matches Err(
                    CallbackFailure::UnexpectedPath(path),
                ) && path == crate::web::url_path(url))
                &&& crate::web::url_path(url) == "/callback"@ && crate::web::url_query(url) is None
                    ==> (request_outcome(target) matches Err(CallbackFailure::MissingQuery))
                &&& crate::web::url_path(url) == "/callback"@ && crate::web::url_query(url) is Some
                    ==> request_outcome(target) == pairs_outcome(
                    crate::web::form_pairs(crate::web::url_query(url)->0),
                )
            },
        },
{
}

/// A callback request that brings a code and a state, and no error, is accepted
/// with them, in whatever way its query string is written.
pub proof fn callback_requests_are_accepted(
    target: Seq<char>,
    url: url::Url,
    pairs: Seq<(Seq<char>, Seq<char>)>,
    code: int,
    state: int,
)
    requires
        crate::web::url_parsed("http://localhost"@ + target) == Ok::<url::Url, url::ParseError>(
            url,
        ),
        crate::web::url_path(url) == "/callback"@,
        crate::web::url_query(url) is Some,
        pairs == crate::web::form_pairs(crate::web::url_query(url)->0),
        0 <= code < pairs.len(),
        pairs[code].0 == "code"@,
        pairs[code].1.len() > 0,
        forall|j: int|
            code < j < pairs.len() && (#[trigger] pairs[j]).0 == "code"@ ==> pairs[j].1.len() == 0,
        0 <= state < pairs.len(),
        pairs[state].0 == "state"@,
        pairs[state].1.len() > 0,
        forall|j: int|
            state < j < pairs.len() && (#[trigger] pairs[j]).0 == "state"@ ==> pairs[j].1.len()
                == 0,
        forall|j: int|
            0 <= j < pairs.len() && (#[trigger] pairs[j]).0 == "error"@ ==> pairs[j].1.len() == 0,
    ensures
        request_outcome(target) is Ok,
        request_outcome(target)->Ok_0.code == pairs[code].1,
        request_outcome(target)->Ok_0.state == pairs[state].1,
{
    code_and_state_are_accepted(pairs, code, state);
}

/// An outcome as plain text says just what the result says.
pub proof fn outcomes_are_seen_as_they_are(
    result: Result<OAuthCallbackParams, OAuthCallbackError>,
)
    ensures
        match result {
            Ok(params) => outcome(result) is Ok && outcome(result)->Ok_0.code == params.code@
                && outcome(result)->Ok_0.state == params.state@,
            Err(OAuthCallbackError::AuthorizationFailed { error, description }) => {
                &&& outcome(result) matches Err(
                    CallbackFailure::AuthorizationFailed { error: seen, description: told },
                )
                &&& seen == error@
                &&& description is None <==> told is None
                &&& description is Some ==> told->0 == description->0@
            },
            Err(OAuthCallbackError::MissingCode) => outcome(result) matches Err(
                CallbackFailure::MissingCode,
            ),
            Err(OAuthCallbackError::MissingState) => outcome(result) matches Err(
                CallbackFailure::MissingState,
            ),
            Err(OAuthCallbackError::MalformedUrl(error)) => outcome(result) matches Err(
                CallbackFailure::MalformedUrl(seen),
            ) && seen == error,
            Err(OAuthCallbackError::UnexpectedPath(path)) => outcome(result) matches Err(
                CallbackFailure::UnexpectedPath(seen),
            ) && seen == path@,
            Err(OAuthCallbackError::MissingQuery) => outcome(result) matches Err(
                CallbackFailure::MissingQuery,
            ),
            Err(OAuthCallbackError::ServerFailure) => outcome(result) matches Err(
                CallbackFailure::ServerFailure,
            ),
        },
{
}

/// The report of an authorization that failed holds the error and its
/// description, each whole and in this order; another failure is reported with
/// a text of its own, and a path with the path behind it.
pub proof fn reports_hold_what_went_wrong(
    error: Seq<char>,
    description: Seq<char>,
    path: Seq<char>,
    parse_error: url::ParseError,
)
    ensures
        failure_message(
            (CallbackFailure::AuthorizationFailed { error, description: Some(description) }),
        ) == "OAuth authorization failed: "@ + error + " ("@ + description + ")"@,
        failure_message((CallbackFailure::AuthorizationFailed { error, description: None }))
            == "OAuth authorization failed: "@ + error + " (no description)"@,
        failure_message(CallbackFailure::UnexpectedPath(path))
            == "unexpected path in OAuth callback: "@ + path,
        failure_message(CallbackFailure::MalformedUrl(parse_error))
            == "malformed callback request URL"@,
        failure_message(CallbackFailure::MissingCode)
            == "missing 'code' parameter in OAuth callback"@,
        failure_message(CallbackFailure::MissingState)
            == "missing 'state' parameter in OAuth callback"@,
        failure_message(CallbackFailure::MissingQuery) == "OAuth callback has no query string"@,
        failure_message(CallbackFailure::ServerFailure) == "OAuth callback server I/O error"@,
{
    reveal_strlit(" (");
    reveal_strlit("no description");
    reveal_strlit(")");
    reveal_strlit(" (no description)");
    assert("OAuth authorization failed: "@ + error + " ("@ + "no description"@ + ")"@
        == "OAuth authorization failed: "@ + error + " (no description)"@);
}

/// Every target that can be parsed behind the name of the host may be handed
/// over.
pub proof fn targets_may_be_long(target: Seq<char>)
    ensures
        target.len() <= TARGET_MAX <==> ("http://localhost"@ + target).len() < 0x8000_0000,
{
    reveal_strlit("http://localhost");
}

} // verus!
