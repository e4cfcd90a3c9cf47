//! Cookies: what a response sets, what a request sent, and the jar of the
//! `cookie` crate that keeps both.

use crate::claims::text_view;
use crate::digits::decimal;
use vstd::prelude::*;

verus! {

/// The `SameSite` attribute of a cookie.
#[derive(Clone, Copy, Debug, PartialEq, Eq, Structural)]
pub enum SameSite {
    /// Sent with requests from the cookie's own site only.
    Strict,
    /// Also sent when a link leads to the site.
    Lax,
    /// Sent with every request.
    Cross,
}

/// A cookie that a response sets, in plain values.
#[derive(Debug)]
pub struct SetCookie {
    pub name: String,
    pub value: String,
    pub path: String,
    pub http_only: bool,
    pub secure: bool,
    pub same_site: SameSite,
    /// The seconds the cookie may live; `Some(0)` ends it at once.
    pub max_age: Option<u32>,
}

/// The mathematical value of [`SetCookie`].
pub ghost struct SetCookieView {
    pub name: Seq<char>,
    pub value: Seq<char>,
    pub path: Seq<char>,
    pub http_only: bool,
    pub secure: bool,
    pub same_site: SameSite,
    pub max_age: Option<nat>,
}

impl View for SetCookie {
    type V = SetCookieView;

    open spec fn view(&self) -> SetCookieView {
        SetCookieView {
            name: self.name@,
            value: self.value@,
            path: self.path@,
            http_only: self.http_only,
            secure: self.secure,
            same_site: self.same_site,
            max_age: match self.max_age {
                Some(s) => Some(s as nat),
                None => None,
            },
        }
    }
}

/// The word that stands for a `SameSite` attribute in a header.
pub open spec fn same_site_word(s: SameSite) -> Seq<char> {
    match s {
        SameSite::Strict => "Strict"@,
        SameSite::Lax => "Lax"@,
        SameSite::Cross => "None"@,
    }
}

/// The value of the `Set-Cookie` header that sets the cookie: name and
/// value, then the attributes in a fixed order.
pub open spec fn set_cookie_line(c: SetCookieView) -> Seq<char> {
    c.name + "="@ + c.value + (if c.http_only {
        "; HttpOnly"@
    } else {
        Seq::empty()
    }) + "; SameSite="@ + same_site_word(c.same_site) + (if c.secure {
        "; Secure"@
    } else {
        Seq::empty()
    }) + "; Path="@ + c.path + (match c.max_age {
        Some(s) => "; Max-Age="@ + decimal(s),
        None => Seq::empty(),
    })
}

/// `cookie::CookieJar`: the cookies that a request sent and the changes that
/// the response will make to them.
#[verifier::external_type_specification]
#[verifier::external_body]
pub struct ExCookieJar(cookie::CookieJar);

/// One change that a jar holds for a cookie's name.
pub ghost struct Change {
    /// The value that the cookie gets.
    pub value: Seq<char>,
    /// The `Set-Cookie` header value that makes the change.
    pub line: Seq<char>,
    /// Whether the change takes the cookie away, so that the jar no longer
    /// shows it.
    pub removed: bool,
}

/// The cookies that the request sent, as the jar holds them: value by name.
pub uninterp spec fn jar_original(jar: cookie::CookieJar) -> Map<Seq<char>, Seq<char>>;

/// The changes that the jar holds, by the cookie's name.
pub uninterp spec fn jar_changes(jar: cookie::CookieJar) -> Map<Seq<char>, Change>;

/// The change that setting a cookie makes.
pub open spec fn change_of(c: SetCookieView) -> Change {
    Change { value: c.value, line: set_cookie_line(c), removed: false }
}

/// The value that a jar shows for a name: that of the change for the name,
/// unless the change removes the cookie; without a change, that of the
/// cookie that the request sent.
pub open spec fn jar_value(jar: cookie::CookieJar, name: Seq<char>) -> Option<Seq<char>> {
    if jar_changes(jar).contains_key(name) {
        if jar_changes(jar)[name].removed {
            None
        } else {
            Some(jar_changes(jar)[name].value)
        }
    } else if jar_original(jar).contains_key(name) {
        Some(jar_original(jar)[name])
    } else {
        None
    }
}

/// `cookie::CookieJar::new`: a jar without cookies and without changes.
#[verifier::external_body]
pub(crate) fn jar() -> (jar: cookie::CookieJar)
    ensures
        jar_original(jar) == (Map::<Seq<char>, Seq<char>>::empty()),
        jar_changes(jar) == (Map::<Seq<char>, Change>::empty()),
{
    cookie::CookieJar::new()
}

/// `cookie::CookieJar::add_original` with the cookie that
/// `cookie::Cookie::new` makes of a name and a value: the jar then holds the
/// value under the name as sent by the request; its changes stay.
#[verifier::external_body]
pub(crate) fn seed(jar: &mut cookie::CookieJar, name: &str, value: &str)
    ensures
        jar_original(*final(jar)) == jar_original(*old(jar)).insert(name@, value@),
        jar_changes(*final(jar)) == jar_changes(*old(jar)),
{
    jar.add_original(cookie::Cookie::new(name.to_owned(), value.to_owned()));
}

/// `cookie::CookieJar::add` with the cookie that `cookie::Cookie::build`
/// makes of the plain values: the jar then holds, under the cookie's name,
/// the change that sets it; what the request sent stays.
///
/// The header value of that change is the one that `Display` of
/// `cookie::Cookie` writes, stated here as [`set_cookie_line`].
#[verifier::external_body]
pub(crate) fn set(jar: &mut cookie::CookieJar, c: &SetCookie)
    ensures
        jar_changes(*final(jar)) == jar_changes(*old(jar)).insert(c.name@, change_of(c@)),
        jar_original(*final(jar)) == jar_original(*old(jar)),
{
    let same_site = match c.same_site {
        SameSite::Strict => cookie::SameSite::Strict,
        SameSite::Lax => cookie::SameSite::Lax,
        SameSite::Cross => cookie::SameSite::None,
    };
    let builder = cookie::Cookie::build(c.name.clone(), c.value.clone()).path(c.path.clone());
    let mut made = builder.http_only(c.http_only).secure(c.secure).same_site(same_site).finish();
    made.set_max_age(c.max_age.map(|s| cookie::time::Duration::seconds(s as i64)));
    jar.add(made);
}

/// `cookie::CookieJar::get`, then `cookie::Cookie::value`: the value that
/// the jar shows for the name.
#[verifier::external_body]
pub(crate) fn value_of(jar: &cookie::CookieJar, name: &str) -> (r: Option<String>)
    ensures
        text_view(r) == jar_value(*jar, name@),
{
    jar.get(name).map(|c| c.value().to_owned())
}

/// Whether `lines` are the header values of the given changes: as many
/// lines as there are names, each change with its line among them, and no
/// line that belongs to no change.
pub open spec fn lines_of(lines: Seq<String>, changes: Map<Seq<char>, Change>) -> bool {
    &&& changes.dom().finite()
    &&& lines.len() == changes.dom().len()
    &&& forall|name: Seq<char>| #[trigger]
        changes.contains_key(name) ==> exists|i: int|
            0 <= i < lines.len() && (#[trigger] lines[i])@ == changes[name].line
    &&& forall|i: int|
        0 <= i < lines.len() ==> exists|name: Seq<char>| #[trigger]
            changes.contains_key(name) && changes[name].line == (#[trigger] lines[i])@
}

/// `cookie::CookieJar::delta`, each cookie written by its `Display`: the
/// header values of the jar's changes, one for each name, in no stated
/// order.
#[verifier::external_body]
pub(crate) fn lines(jar: &cookie::CookieJar) -> (r: Vec<String>)
    ensures
        lines_of(r@, jar_changes(*jar)),
{
    jar.delta().map(|c| c.to_string()).collect()
}

} // verus!
