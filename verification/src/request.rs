//! What goes into the search request, and what its status means.

use vstd::prelude::*;
use vstd::string::*;
use url::Url;
use crate::error::Error;

verus! {

/// The environment variable that may hold the bearer token.
pub const BEARER_ENV_TOKEN_NAME: &'static str = "HAPPY_TWEET_BEARER_TOKEN";

/// Where recent tweets are searched.
pub const SEARCH_ENDPOINT: &'static str = "https://api.twitter.com/2/tweets/search/recent";

/// The token to use: the one from the environment if there is one, else
/// the one given on the command line, else none.
pub fn pick_token(from_env: Option<String>, from_flag: Option<String>) -> (token: Option<String>)
    ensures
        token == if from_env is Some {
            from_env
        } else {
            from_flag
        },
{
    match from_env {
        Some(token) => Some(token),
        None => from_flag,
    }
}

/// `str::starts_with`, for a string as the pattern: whether the text begins
/// with the characters of `prefix`.
#[verifier::external_body]
fn starts_with(text: &str, prefix: &str) -> (b: bool)
    ensures
        b == prefix@.is_prefix_of(text@),
{
    text.starts_with(prefix)
}

/// The value of the authorization header for a token: the token itself if
/// it already starts with the scheme, else the scheme and the token.
pub open spec fn bearer_of(token: Seq<char>) -> Seq<char> {
    if "Bearer "@.is_prefix_of(token) {
        token
    } else {
        "Bearer "@ + token
    }
}

/// Makes the value of the authorization header from a token.
pub fn bearer_header(token: String) -> (header: String)
    ensures
        header@ == bearer_of(token@),
{
    if !starts_with(token.as_str(), "Bearer ") {
        String::from_str("Bearer ").concat(token.as_str())
    } else {
        token
    }
}

/// `url::ParseError`, what the parser of the `url` crate reports. It is
/// carried from the call to [`address`] and never looked into.
#[verifier::external_type_specification]
#[verifier::external_body]
pub struct ExParseError(url::ParseError);

/// The address that `Url::parse_with_params` makes of an absolute URL and
/// the query pairs to add to it, as text; `None` where it reports an error.
pub uninterp spec fn url_with_params(base: Seq<char>, params: Seq<(Seq<char>, Seq<char>)>) -> Option<Seq<char>>;

/// A base that `Url::parse_with_params` can take whatever the pairs are:
/// short enough that every position in the address fits the 32 bits the
/// parser keeps for it, and without a fragment, which would have to be put
/// back behind the pairs.
pub open spec fn plain_base(base: Seq<char>) -> bool {
    base.len() <= 1024 && !base.contains('#')
}

/// `Url::parse_with_params`, with the URL it gives turned into its text.
/// The outcome depends on the base and the pairs alone.
#[verifier::external_body]
fn parse_with_params(base: &str, params: &Vec<(String, String)>) -> (parsed: Result<
    String,
    url::ParseError,
>)
    requires
        plain_base(base@),
    ensures
        match parsed {
            Ok(address) => url_with_params(base@, params.deep_view()) == Some(address@),
            Err(_) => url_with_params(base@, params.deep_view()) is None,
        },
{
    Url::parse_with_params(base, params).map(String::from)
}

/// The query pairs of a search for a term, in the order they are sent.
pub open spec fn search_params(term: Seq<char>) -> Seq<(Seq<char>, Seq<char>)> {
    seq![
        ("max_results"@, "100"@),
        ("query"@, term),
        ("tweet.fields"@, "created_at"@),
        ("expansions"@, "author_id"@),
        ("user.fields"@, "profile_image_url"@),
    ]
}

/// Builds the query pairs of a search for a term.
pub fn search_query(term: &str) -> (params: Vec<(String, String)>)
    ensures
        params.deep_view() == search_params(term@),
{
    let mut params: Vec<(String, String)> = Vec::new();
    params.push((String::from_str("max_results"), String::from_str("100")));
    params.push((String::from_str("query"), String::from_str(term)));
    params.push((String::from_str("tweet.fields"), String::from_str("created_at")));
    params.push((String::from_str("expansions"), String::from_str("author_id")));
    params.push((String::from_str("user.fields"), String::from_str("profile_image_url")));
    assert(params.deep_view() =~= search_params(term@));
    params
}

/// What becomes of a parsed address: its text, or the failure to build it.
pub fn address(parsed: Result<String, url::ParseError>) -> (result: Result<String, Error>)
    ensures
        match parsed {
            Ok(text) => result == Ok::<String, Error>(text),
            Err(_) => result == Err::<String, Error>(Error::InvalidUrl),
        },
{
    match parsed {
        Ok(text) => Ok(text),
        Err(_) => Err(Error::InvalidUrl),
    }
}

/// The address of a search for a term, where one can be built.
pub open spec fn search_address(term: Seq<char>) -> Option<Seq<char>> {
    url_with_params(SEARCH_ENDPOINT@, search_params(term))
}

/// Builds the address of the search for a term.
pub fn search_url(term: &str) -> (result: Result<String, Error>)
    ensures
        match result {
            Ok(text) => search_address(term@) == Some(text@),
            Err(e) => e == Error::InvalidUrl && search_address(term@) is None,
        },
{
    let params = search_query(term);
    proof {
        reveal_strlit("https://api.twitter.com/2/tweets/search/recent");
    }
    address(parse_with_params(SEARCH_ENDPOINT, &params))
}

/// A status from 200 to 299 means success.
pub open spec fn is_success(status: u16) -> bool {
    200 <= status <= 299
}

/// Tells whether the search succeeded, by the status of its answer.
pub fn check_status(status: u16) -> (result: Result<(), Error>)
    ensures
        result == if is_success(status) {
            Ok::<(), Error>(())
        } else {
            Err::<(), Error>(Error::Fetch)
        },
{
    if 200 <= status && status <= 299 {
        Ok(())
    } else {
        Err(Error::Fetch)
    }
}

} // verus!
