//! The proxy that the environment asks for.
//!
//! The program looks up the variables that are named here and hands over those
//! that are set, as pairs of a name and a value.

use crate::text::text_fits;
use crate::web::parse_url;
use vstd::prelude::*;

verus! {

/// The value of a variable in an environment. Of several entries with its name
/// the first counts.
pub open spec fn value_of(env: Seq<(Seq<char>, Seq<char>)>, name: Seq<char>) -> Option<Seq<char>>
    decreases env.len(),
{
    if env.len() == 0 {
        None
    } else if env[0].0 == name {
        Some(env[0].1)
    } else {
        value_of(env.drop_first(), name)
    }
}

/// The value of the first of some variables that is set.
pub open spec fn first_value_of(
    env: Seq<(Seq<char>, Seq<char>)>,
    names: Seq<Seq<char>>,
) -> Option<Seq<char>>
    decreases names.len(),
{
    if names.len() == 0 {
        None
    } else {
        match value_of(env, names[0]) {
            Some(value) => Some(value),
            None => first_value_of(env, names.drop_first()),
        }
    }
}

/// The variables that name a proxy, the most important one first.
pub open spec fn proxy_names() -> Seq<Seq<char>> {
    seq![
        "ALL_PROXY"@,
        "all_proxy"@,
        "HTTPS_PROXY"@,
        "https_proxy"@,
        "HTTP_PROXY"@,
        "http_proxy"@,
    ]
}

/// The variables that name hosts to be reached without a proxy, the more
/// important one first.
pub open spec fn no_proxy_names() -> Seq<Seq<char>> {
    seq!["NO_PROXY"@, "no_proxy"@]
}

/// The proxy that an environment asks for. Only the first variable that is set
/// counts: if its value is no URL, there is no proxy.
pub open spec fn proxy_from_env(env: Seq<(Seq<char>, Seq<char>)>) -> Option<url::Url> {
    match first_value_of(env, proxy_names()) {
        Some(value) => url_of(value),
        None => None,
    }
}

/// The URL that a text is, if it is one.
pub open spec fn url_of(text: Seq<char>) -> Option<url::Url> {
    match crate::web::url_parsed(text) {
        Ok(url) => Some(url),
        Err(_) => None,
    }
}

/// The proxy of a client: the one that was asked for, if it is a URL, and else
/// the one of the environment.
pub open spec fn chosen_proxy(
    asked: Option<Seq<char>>,
    env: Seq<(Seq<char>, Seq<char>)>,
) -> Option<url::Url> {
    match asked {
        Some(text) => match url_of(text) {
            Some(url) => Some(url),
            None => proxy_from_env(env),
        },
        None => proxy_from_env(env),
    }
}

/// The texts of a list.
pub open spec fn texts(list: Seq<&'static str>) -> Seq<Seq<char>> {
    list.map_values(|text: &'static str| text@)
}

/// An optional text, as plain text.
pub open spec fn text_of(text: Option<String>) -> Option<Seq<char>> {
    match text {
        Some(text) => Some(text@),
        None => None,
    }
}

/// Whether a text, if there is one, is not too long to be parsed as a URL.
pub open spec fn is_fitting(text: Option<Seq<char>>) -> bool {
    text matches Some(text) ==> text.len() <= crate::web::URL_TEXT_MAX
}

/// The variables that name a proxy, the most important one first.
pub fn proxy_variables() -> (names: Vec<&'static str>)
    ensures
        texts(names@) == proxy_names(),
{
    let names: Vec<&'static str> = vec![
        "ALL_PROXY",
        "all_proxy",
        "HTTPS_PROXY",
        "https_proxy",
        "HTTP_PROXY",
        "http_proxy",
    ];
    proof {
        assert(texts(names@) =~= proxy_names());
    }
    names
}

/// The variables that name hosts to be reached without a proxy, the more
/// important one first.
pub fn no_proxy_variables() -> (names: Vec<&'static str>)
    ensures
        texts(names@) == no_proxy_names(),
{
    let names: Vec<&'static str> = vec!["NO_PROXY", "no_proxy"];
    proof {
        assert(texts(names@) =~= no_proxy_names());
    }
    names
}

fn lookup(env: &Vec<(String, String)>, name: &str) -> (value: Option<String>)
    ensures
        text_of(value) == value_of(crate::web::owned_pairs(env@), name@),
{
    let ghost pairs = crate::web::owned_pairs(env@);
    let mut i: usize = 0;
    proof {
        assert(pairs.skip(0) == pairs);
    }
    while i < env.len()
        invariant
            i <= env.len(),
            pairs == crate::web::owned_pairs(env@),
            value_of(pairs.skip(i as int), name@) == value_of(pairs, name@),
        decreases env.len() - i,
    {
        let entry = &env[i];
        proof {
            assert(pairs.skip(i as int)[0] == (entry.0@, entry.1@));
            assert(pairs.skip(i as int).drop_first() == pairs.skip(i + 1));
        }
        if *entry.0.as_str() == *name {
            return Some(entry.1.clone());
        }
        i += 1;
    }
    None
}

/// The value of the first of some variables that is set.
pub fn first_set(env: &Vec<(String, String)>, names: &Vec<&'static str>) -> (value: Option<String>)
    ensures
        text_of(value) == first_value_of(crate::web::owned_pairs(env@), texts(names@)),
{
    let ghost pairs = crate::web::owned_pairs(env@);
    let ghost all = texts(names@);
    let mut i: usize = 0;
    proof {
        assert(all.skip(0) == all);
    }
    while i < names.len()
        invariant
            i <= names.len(),
            pairs == crate::web::owned_pairs(env@),
            all == texts(names@),
            first_value_of(pairs, all.skip(i as int)) == first_value_of(pairs, all),
        decreases names.len() - i,
    {
        proof {
            assert(all.skip(i as int)[0] == names@[i as int]@);
            assert(all.skip(i as int).drop_first() == all.skip(i + 1));
        }
        let value = lookup(env, names[i]);
        if value.is_some() {
            return value;
        }
        i += 1;
    }
    None
}

/// Whether the proxy that an environment asks for is not too long to be parsed
/// as a URL.
pub fn env_fits(env: &Vec<(String, String)>) -> (fits: bool)
    ensures
        fits == is_fitting(first_value_of(crate::web::owned_pairs(env@), proxy_names())),
{
    match first_set(env, &proxy_variables()) {
        Some(value) => text_fits(value.as_str(), crate::web::URL_TEXT_MAX),
        None => true,
    }
}

/// The proxy that an environment asks for.
pub fn read_proxy_from_env(env: &Vec<(String, String)>) -> (proxy: Option<url::Url>)
    requires
        is_fitting(first_value_of(crate::web::owned_pairs(env@), proxy_names())),
    ensures
        proxy == proxy_from_env(crate::web::owned_pairs(env@)),
{
    match first_set(env, &proxy_variables()) {
        Some(value) => parse_url(value.as_str()).ok(),
        None => None,
    }
}

/// The hosts that an environment wants to be reached without a proxy.
pub fn read_no_proxy_from_env(env: &Vec<(String, String)>) -> (hosts: Option<String>)
    ensures
        text_of(hosts) == first_value_of(crate::web::owned_pairs(env@), no_proxy_names()),
{
    first_set(env, &no_proxy_variables())
}

/// The proxy of a client that was asked to use a proxy, or was not.
pub(crate) fn choose_proxy(asked: Option<String>, env: &Vec<(String, String)>) -> (proxy: Option<
    url::Url,
>)
    requires
        is_fitting(text_of(asked)),
        is_fitting(first_value_of(crate::web::owned_pairs(env@), proxy_names())),
    ensures
        proxy == chosen_proxy(text_of(asked), crate::web::owned_pairs(env@)),
{
    if let Some(text) = asked {
        if let Ok(url) = parse_url(text.as_str()) {
            return Some(url);
        }
    }
    read_proxy_from_env(env)
}

/// A variable that is set hides all that are less important, even where its
/// value is no URL.
pub proof fn first_variable_decides(
    env: Seq<(Seq<char>, Seq<char>)>,
    rank: int,
    value: Seq<char>,
)
    requires
        0 <= rank < proxy_names().len(),
        value_of(env, proxy_names()[rank]) == Some(value),
        forall|i: int| 0 <= i < rank ==> value_of(env, #[trigger] proxy_names()[i]) is None,
    ensures
        proxy_from_env(env) == url_of(value),
{
    lemma_first_value(env, proxy_names(), rank, value);
}

proof fn lemma_first_value(
    env: Seq<(Seq<char>, Seq<char>)>,
    names: Seq<Seq<char>>,
    rank: int,
    value: Seq<char>,
)
    requires
        0 <= rank < names.len(),
        value_of(env, names[rank]) == Some(value),
        forall|i: int| 0 <= i < rank ==> value_of(env, #[trigger] names[i]) is None,
    ensures
        first_value_of(env, names) == Some(value),
    decreases names.len(),
{
    if rank > 0 {
        assert(value_of(env, names[0]) is None);
        let rest = names.drop_first();
        assert(rest[rank - 1] == names[rank]);
        assert forall|i: int| 0 <= i < rank - 1 implies value_of(env, #[trigger] rest[i]) is None by {
            assert(rest[i] == names[i + 1]);
        }
        lemma_first_value(env, rest, rank - 1, value);
    }
}

/// An environment in which none of the variables is set asks for no proxy.
pub proof fn no_variable_no_proxy(env: Seq<(Seq<char>, Seq<char>)>)
    requires
        forall|i: int|
            0 <= i < proxy_names().len() ==> value_of(env, #[trigger] proxy_names()[i]) is None,
    ensures
        proxy_from_env(env) is None,
{
    lemma_no_value(env, proxy_names());
}

proof fn lemma_no_value(env: Seq<(Seq<char>, Seq<char>)>, names: Seq<Seq<char>>)
    requires
        forall|i: int| 0 <= i < names.len() ==> value_of(env, #[trigger] names[i]) is None,
    ensures
        first_value_of(env, names) is None,
    decreases names.len(),
{
    if names.len() > 0 {
        assert(value_of(env, names[0]) is None);
        let rest = names.drop_first();
        assert forall|i: int| 0 <= i < rest.len() implies value_of(env, #[trigger] rest[i]) is None by {
            assert(rest[i] == names[i + 1]);
        }
        lemma_no_value(env, rest);
    }
}

/// A proxy that is asked for and is a URL is used, whatever the environment
/// holds.
pub proof fn asked_proxy_wins(
    asked: Seq<char>,
    env: Seq<(Seq<char>, Seq<char>)>,
    other: Seq<(Seq<char>, Seq<char>)>,
)
    requires
        url_of(asked) is Some,
    ensures
        chosen_proxy(Some(asked), env) == url_of(asked),
        chosen_proxy(Some(asked), env) == chosen_proxy(Some(asked), other),
{
}

/// A proxy that is asked for and is no URL counts as none.
pub proof fn malformed_proxy_is_ignored(asked: Seq<char>, env: Seq<(Seq<char>, Seq<char>)>)
    requires
        url_of(asked) is None,
    ensures
        chosen_proxy(Some(asked), env) == chosen_proxy(None, env),
{
}

/// The value of a variable is that of the first entry with its name, and a
/// variable without an entry has none.
pub proof fn first_entry_counts(env: Seq<(Seq<char>, Seq<char>)>, name: Seq<char>)
    ensures
        forall|i: int|
            0 <= i < env.len() && (#[trigger] env[i]).0 == name && (forall|j: int|
                0 <= j < i ==> (#[trigger] env[j]).0 != name) ==> value_of(env, name) == Some(
                env[i].1,
            ),
        (forall|j: int| 0 <= j < env.len() ==> (#[trigger] env[j]).0 != name) ==> value_of(
            env,
            name,
        ) is None,
    decreases env.len(),
{
    if env.len() > 0 {
        let rest = env.drop_first();
        first_entry_counts(rest, name);
        assert forall|i: int|
            0 <= i < env.len() && (#[trigger] env[i]).0 == name && (forall|j: int|
                0 <= j < i ==> (#[trigger] env[j]).0 != name) implies value_of(env, name) == Some(
            env[i].1,
        ) by {
            if i > 0 {
                assert(env[0].0 != name);
                assert(rest[i - 1] == env[i]);
                assert forall|j: int| 0 <= j < i - 1 implies (#[trigger] rest[j]).0 != name by {
                    assert(rest[j] == env[j + 1]);
                }
            }
        }
        if forall|j: int| 0 <= j < env.len() ==> (#[trigger] env[j]).0 != name {
            assert(env[0].0 != name);
            assert forall|j: int| 0 <= j < rest.len() implies (#[trigger] rest[j]).0 != name by {
                assert(rest[j] == env[j + 1]);
            }
        }
    }
}

/// Of any variables, the first one that has an entry counts, with its first
/// entry.
pub proof fn first_variable_with_an_entry_counts(
    env: Seq<(Seq<char>, Seq<char>)>,
    names: Seq<Seq<char>>,
    rank: int,
    entry: int,
)
    requires
        0 <= rank < names.len(),
        0 <= entry < env.len(),
        env[entry].0 == names[rank],
        forall|j: int| 0 <= j < entry ==> (#[trigger] env[j]).0 != names[rank],
        forall|i: int, j: int|
            0 <= i < rank && 0 <= j < env.len() ==> (#[trigger] env[j]).0 != #[trigger] names[i],
    ensures
        first_value_of(env, names) == Some(env[entry].1),
{
    first_entry_counts(env, names[rank]);
    assert(value_of(env, names[rank]) == Some(env[entry].1));
    assert forall|i: int| 0 <= i < rank implies value_of(env, #[trigger] names[i]) is None by {
        first_entry_counts(env, names[i]);
    }
    lemma_first_value(env, names, rank, env[entry].1);
}

/// Variables none of which has an entry have no value.
pub proof fn variables_without_entry_have_no_value(
    env: Seq<(Seq<char>, Seq<char>)>,
    names: Seq<Seq<char>>,
)
    requires
        forall|i: int, j: int|
            0 <= i < names.len() && 0 <= j < env.len() ==> (#[trigger] env[j]).0
                != #[trigger] names[i],
    ensures
        first_value_of(env, names) is None,
{
    assert forall|i: int| 0 <= i < names.len() implies value_of(env, #[trigger] names[i]) is None by {
        first_entry_counts(env, names[i]);
    }
    lemma_no_value(env, names);
}

/// A client that is asked for no proxy, or for one that is no URL, has the proxy
/// that the environment names: the value of the most important of the six
/// variables that has an entry, if that value is a URL.
pub proof fn environment_stands_in(
    asked: Option<Seq<char>>,
    env: Seq<(Seq<char>, Seq<char>)>,
    names: Seq<Seq<char>>,
    rank: int,
    entry: int,
)
    requires
        asked matches Some(text) ==> crate::web::url_parsed(text) is Err,
        names == seq![
            "ALL_PROXY"@,
            "all_proxy"@,
            "HTTPS_PROXY"@,
            "https_proxy"@,
            "HTTP_PROXY"@,
            "http_proxy"@,
        ],
        0 <= rank < names.len(),
        0 <= entry < env.len(),
        env[entry].0 == names[rank],
        forall|j: int| 0 <= j < entry ==> (#[trigger] env[j]).0 != names[rank],
        forall|i: int, j: int|
            0 <= i < rank && 0 <= j < env.len() ==> (#[trigger] env[j]).0 != #[trigger] names[i],
    ensures
        match crate::web::url_parsed(env[entry].1) {
            Ok(url) => chosen_proxy(asked, env) == Some(url) && proxy_from_env(env) == Some(url),
            Err(_) => chosen_proxy(asked, env) is None && proxy_from_env(env) is None,
        },
{
    first_variable_with_an_entry_counts(env, names, rank, entry);
}

/// A client that is asked for no proxy, or for one that is no URL, has none if
/// none of the six variables has an entry.
pub proof fn no_proxy_without_environment(
    asked: Option<Seq<char>>,
    env: Seq<(Seq<char>, Seq<char>)>,
)
    requires
        asked matches Some(text) ==> crate::web::url_parsed(text) is Err,
        forall|j: int|
            0 <= j < env.len() ==> (#[trigger] env[j]).0 != "ALL_PROXY"@ && env[j].0
                != "all_proxy"@ && env[j].0 != "HTTPS_PROXY"@ && env[j].0 != "https_proxy"@
                && env[j].0 != "HTTP_PROXY"@ && env[j].0 != "http_proxy"@,
    ensures
        chosen_proxy(asked, env) is None,
        proxy_from_env(env) is None,
{
    let names = proxy_names();
    assert forall|i: int, j: int|
        0 <= i < names.len() && 0 <= j < env.len() implies (#[trigger] env[j]).0
        != #[trigger] names[i] by {
        assert(env[j].0 != "ALL_PROXY"@);
    }
    variables_without_entry_have_no_value(env, names);
}

/// A client that is asked for a proxy has the very URL that was asked for, and
/// without being asked it has that of the environment.
pub proof fn client_has_the_proxy_it_is_asked_for(
    asked: Seq<char>,
    env: Seq<(Seq<char>, Seq<char>)>,
)
    ensures
        crate::web::url_parsed(asked) matches Ok(url) ==> chosen_proxy(Some(asked), env) == Some(
            url,
        ),
        crate::web::url_parsed(asked) is Err ==> chosen_proxy(Some(asked), env) == proxy_from_env(
            env,
        ),
        chosen_proxy(None, env) == proxy_from_env(env),
{
}

/// The hosts to be reached without a proxy are the value of `NO_PROXY` if it has
/// an entry, else that of `no_proxy`, and there are none if neither has one.
pub proof fn hosts_without_proxy_are_read(env: Seq<(Seq<char>, Seq<char>)>, entry: int)
    ensures
        0 <= entry < env.len() && env[entry].0 == "NO_PROXY"@ && (forall|j: int|
            0 <= j < entry ==> (#[trigger] env[j]).0 != "NO_PROXY"@) ==> first_value_of(
            env,
            no_proxy_names(),
        ) == Some(env[entry].1),
        0 <= entry < env.len() && env[entry].0 == "no_proxy"@ && (forall|j: int|
            0 <= j < entry ==> (#[trigger] env[j]).0 != "no_proxy"@) && (forall|j: int|
            0 <= j < env.len() ==> (#[trigger] env[j]).0 != "NO_PROXY"@) ==> first_value_of(
            env,
            no_proxy_names(),
        ) == Some(env[entry].1),
        (forall|j: int|
            0 <= j < env.len() ==> (#[trigger] env[j]).0 != "NO_PROXY"@ && env[j].0
                != "no_proxy"@) ==> first_value_of(env, no_proxy_names()) is None,
{
    first_entry_counts(env, "NO_PROXY"@);
    first_entry_counts(env, "no_proxy"@);
    reveal_with_fuel(first_value_of, 3);
    let names = no_proxy_names();
    assert(names[0] == "NO_PROXY"@ && names.drop_first()[0] == "no_proxy"@);
    assert(names.drop_first().drop_first().len() == 0);
}

/// Texts are seen as they are, and each list in its order.
pub proof fn texts_are_seen_as_they_are(list: Seq<&'static str>, text: Option<String>)
    ensures
        texts(list).len() == list.len(),
        forall|i: int| 0 <= i < list.len() ==> #[trigger] texts(list)[i] == list[i]@,
        text matches Some(text) ==> text_of(Some(text)) == Some(text@),
        text is None ==> text_of(text) is None,
{
}

/// A proxy may have as many characters as can be parsed.
pub proof fn proxies_may_be_long(text: Option<Seq<char>>)
    ensures
        is_fitting(text) <==> (text is Some ==> text->0.len() < 0x8000_0000),
{
}

} // verus!
