//! Which handler answers a request: by the request's path, then by its
//! method.

use crate::error::Error;
use crate::header::chars_of;
use crate::message::Method;
use crate::search::RedisIndex;
use crate::search::User;
use vstd::prelude::*;

verus! {

/// The part of the server that a path leads to.
#[derive(Clone, Copy, Debug, PartialEq, Eq, Structural)]
pub enum Route {
    /// The refresh endpoint: paths that end in `/jwt/refresh`.
    Refresh,
    /// The GraphQL endpoint: paths that end in `/graphql`.
    GraphQL,
    /// Every other path: the files of the web application.
    Web,
}

/// What answers a request.
#[derive(Clone, Copy, Debug, PartialEq, Eq, Structural)]
pub enum Handler {
    /// The rotation of refresh tokens, which looks at the method itself.
    Refresh,
    /// The page that lets a person try queries.
    GraphiQL,
    /// The execution of a query.
    GraphQL,
    /// A file of the web application.
    Asset,
    /// Nothing: the method is not allowed on the route.
    NotAllowed,
}

/// Whether `regex` finds a match of `pattern` in `text`; `None` where the
/// pattern is no regular expression.
pub uninterp spec fn regex_matches(pattern: Seq<char>, text: Seq<char>) -> Option<bool>;

/// `regex::Regex::new`, then `regex::Regex::is_match`: whether the pattern
/// matches somewhere in the text, or `None` where the pattern does not
/// compile.
#[verifier::external_body]
fn matches(pattern: &str, text: &str) -> (r: Option<bool>)
    ensures
        r == regex_matches(pattern@, text@),
{
    regex::Regex::new(pattern).ok().map(|compiled| compiled.is_match(text))
}

/// The route for a path of which it is known whether the pattern of the
/// refresh endpoint and that of the GraphQL endpoint match it. The refresh
/// endpoint comes first; the second pattern counts only where the first
/// does not match. `None` where a pattern that counts did not compile.
pub open spec fn route_spec(refresh: Option<bool>, graphql: Option<bool>) -> Option<Route> {
    match refresh {
        None => None,
        Some(true) => Some(Route::Refresh),
        Some(false) => match graphql {
            None => None,
            Some(true) => Some(Route::GraphQL),
            Some(false) => Some(Route::Web),
        },
    }
}

/// The route of a result, or nothing for a failure.
pub open spec fn routed(r: Result<Route, Error>) -> Option<Route> {
    match r {
        Ok(route) => Some(route),
        Err(_) => None,
    }
}

/// Computes [`route_spec`]; fails where it is `None`.
pub fn decide(refresh: Option<bool>, graphql: Option<bool>) -> (r: Result<Route, Error>)
    ensures
        routed(r) == route_spec(refresh, graphql),
{
    match refresh {
        None => Err(Error::new_str("Regex error")),
        Some(true) => Ok(Route::Refresh),
        Some(false) => match graphql {
            None => Err(Error::new_str("Regex error")),
            Some(true) => Ok(Route::GraphQL),
            Some(false) => Ok(Route::Web),
        },
    }
}

/// The route of a path: the refresh endpoint where the pattern
/// `/jwt/refresh/?$` matches, else the GraphQL endpoint where the pattern
/// `/graphql/?$` matches, else the web application.
pub fn route(path: &str) -> (r: Result<Route, Error>)
    ensures
        routed(r) == route_spec(
            regex_matches("/jwt/refresh/?$"@, path@),
            regex_matches("/graphql/?$"@, path@),
        ),
{
    let refresh = matches("/jwt/refresh/?$", path);
    match refresh {
        Some(false) => decide(refresh, matches("/graphql/?$", path)),
        _ => decide(refresh, None),
    }
}

/// What answers a request on a route with a method. The refresh endpoint
/// takes every request; the GraphQL endpoint shows its page for `GET` and
/// executes for `POST`; the web application answers `GET` alone.
pub open spec fn handler_spec(route: Route, method: Method) -> Handler {
    match route {
        Route::Refresh => Handler::Refresh,
        Route::GraphQL => match method {
            Method::Get => Handler::GraphiQL,
            Method::Post => Handler::GraphQL,
            Method::Other => Handler::NotAllowed,
        },
        Route::Web => match method {
            Method::Get => Handler::Asset,
            _ => Handler::NotAllowed,
        },
    }
}

/// Computes [`handler_spec`].
pub fn handler(route: Route, method: Method) -> (h: Handler)
    ensures
        h == handler_spec(route, method),
{
    match route {
        Route::Refresh => Handler::Refresh,
        Route::GraphQL => match method {
            Method::Get => Handler::GraphiQL,
            Method::Post => Handler::GraphQL,
            Method::Other => Handler::NotAllowed,
        },
        Route::Web => match method {
            Method::Get => Handler::Asset,
            _ => Handler::NotAllowed,
        },
    }
}

/// The name of the file that a path asks for: the path without its first
/// character where that is a slash.
pub open spec fn asset_name_spec(path: Seq<char>) -> Seq<char> {
    if path.len() > 0 && path[0] == '/' {
        path.subrange(1, path.len() as int)
    } else {
        path
    }
}

/// Computes [`asset_name_spec`].
pub fn asset_name(path: &str) -> (name: String)
    ensures
        name@ == asset_name_spec(path@),
{
    let n = path.unicode_len();
    if n > 0 && path.get_char(0) == '/' {
        path.substring_char(1, n).to_owned()
    } else {
        path.to_owned()
    }
}

/// The kind of thing that an identifier names.
#[derive(Clone, Copy, Debug, PartialEq, Eq, Structural)]
pub enum Node {
    /// A user: the identifier begins with the prefix of the users' keys and
    /// has no colon after it.
    User,
    /// Nothing that is known.
    Unknown,
}

/// What `regex` captures in the given group when it matches `pattern` in
/// `text`: `None` where the pattern is no regular expression, `Some(None)`
/// where it does not match or the group took no part in the match.
pub uninterp spec fn regex_captured(pattern: Seq<char>, text: Seq<char>, group: nat) -> Option<
    Option<Seq<char>>,
>;

/// `regex::Regex::new`, then `regex::Regex::captures` and
/// `regex::Captures::get`: the text that the group of that number captured
/// in the first match, if the pattern compiles, matches and the group took
/// part.
#[verifier::external_body]
fn captured(pattern: &str, text: &str, group: usize) -> (r: Option<Option<String>>)
    ensures
        captured_view(r) == regex_captured(pattern@, text@, group as nat),
{
    regex::Regex::new(pattern).ok().map(
        |compiled|
            compiled.captures(text).and_then(|found| found.get(group)).map(
                |part| part.as_str().to_owned(),
            ),
    )
}

/// The characters of what was captured.
pub open spec fn captured_view(r: Option<Option<String>>) -> Option<Option<Seq<char>>> {
    match r {
        Some(Some(s)) => Some(Some(s@)),
        Some(None) => Some(None),
        None => None,
    }
}

/// The kind of thing that an identifier names, given the prefix that was
/// captured from it: a user where the prefix is that of the users' keys,
/// nothing known for another prefix or none. `None` where the pattern did
/// not compile.
pub open spec fn node_spec(prefix: Option<Option<Seq<char>>>) -> Option<Node> {
    match prefix {
        None => None,
        Some(None) => Some(Node::Unknown),
        Some(Some(p)) => if p == User::prefix_spec() {
            Some(Node::User)
        } else {
            Some(Node::Unknown)
        },
    }
}

/// The kind of a result, or nothing for a failure.
pub open spec fn kind_of(r: Result<Node, Error>) -> Option<Node> {
    match r {
        Ok(node) => Some(node),
        Err(_) => None,
    }
}

/// Computes [`node_spec`]; fails where it is `None`.
pub fn node_of(prefix: Option<Option<String>>) -> (r: Result<Node, Error>)
    ensures
        kind_of(r) == node_spec(captured_view(prefix)),
{
    match prefix {
        None => Err(Error::new_str("Regex error")),
        Some(None) => Ok(Node::Unknown),
        Some(Some(p)) => if p == User::prefix() {
            Ok(Node::User)
        } else {
            Ok(Node::Unknown)
        },
    }
}

/// The kind of thing that an identifier names. Its prefix is what the first
/// group of the pattern `(.*:)*.*` captures: the identifier through its
/// last colon.
pub fn node(id: &str) -> (r: Result<Node, Error>)
    ensures
        kind_of(r) == node_spec(regex_captured("(.*:)*.*"@, id@, 1)),
{
    node_of(captured("(.*:)*.*", id, 1))
}

/// Whether a file name stays below the directory that it is looked up in:
/// it does not begin with a slash, and nowhere in it two dots follow each
/// other.
pub open spec fn stays_inside_spec(name: Seq<char>) -> bool {
    &&& name.len() > 0 ==> name[0] != '/'
    &&& forall|i: int|
        0 <= i && i + 1 < name.len() ==> !(#[trigger] name[i] == '.' && name[i + 1] == '.')
}

/// Computes [`stays_inside_spec`].
pub fn stays_inside(name: &str) -> (b: bool)
    ensures
        b == stays_inside_spec(name@),
{
    let chars = chars_of(name);
    if chars.len() > 0 && chars[0] == '/' {
        return false;
    }
    let mut i: usize = 1;
    while i < chars.len()
        invariant
            1 <= i,
            chars@ == name@,
            forall|k: int|
                0 <= k && k + 1 < i && k + 1 < name@.len() ==> !(#[trigger] name@[k] == '.'
                    && name@[k + 1] == '.'),
        decreases chars.len() - i,
    {
        if chars[i - 1] == '.' && chars[i] == '.' {
            return false;
        }
        i += 1;
    }
    true
}

} // verus!
