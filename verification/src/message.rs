//! One request and the response to it, in plain values.
//!
//! A [`Message`] holds what the handlers read of a request (its method, its
//! path, its `Authorization` header, its cookies) and what they decide of the
//! response (status, body, changed cookies). [`Message::done`] hands the
//! response out.

use crate::claims::text_view;
use crate::cookies;
use crate::cookies::jar_changes;
use crate::cookies::jar_original;
use crate::cookies::jar_value;
use crate::cookies::change_of;
use crate::cookies::lines_of;
use crate::cookies::SetCookie;
use crate::cookies::Change;
use crate::header::cookie_pairs;
use crate::header::pairs_view;
use crate::header::parse_cookie_header;
use vstd::prelude::*;

verus! {

/// The method of a request, as far as the handlers tell methods apart.
#[derive(Clone, Copy, Debug, PartialEq, Eq, Structural)]
pub enum Method {
    Get,
    Post,
    Other,
}

/// A request and the response that is being made for it.
#[derive(Debug)]
pub struct Message {
    pub method: Method,
    pub path: String,
    pub authorization: Option<String>,
    pub status: u16,
    pub body: String,
    pub cookies: cookie::CookieJar,
}

/// A finished response.
#[derive(Debug)]
pub struct Response {
    pub status: u16,
    pub body: String,
    /// The values of the `Set-Cookie` headers.
    pub set_cookie: Vec<String>,
}

/// The cookies that a jar holds as sent, once it was given the pairs in
/// their order: a later pair replaces an earlier one of the same name.
pub open spec fn seeded(pairs: Seq<(Seq<char>, Seq<char>)>) -> Map<Seq<char>, Seq<char>>
    decreases pairs.len(),
{
    if pairs.len() == 0 {
        Map::empty()
    } else {
        seeded(pairs.drop_last()).insert(pairs.last().0, pairs.last().1)
    }
}

/// The cookies that several `Cookie` headers name, header after header.
pub open spec fn header_pairs(headers: Seq<String>) -> Seq<(Seq<char>, Seq<char>)>
    decreases headers.len(),
{
    if headers.len() == 0 {
        Seq::empty()
    } else {
        header_pairs(headers.drop_last()) + cookie_pairs(headers.last()@)
    }
}

impl Message {
    /// The message for a request with the given method, path,
    /// `Authorization` header and `Cookie` headers. The response starts as
    /// `200` with an empty body, and no cookie is changed yet.
    pub fn new(
        method: Method,
        path: String,
        authorization: Option<String>,
        cookie_headers: &Vec<String>,
    ) -> (m: Message)
        ensures
            m.method == method,
            m.path@ == path@,
            text_view(m.authorization) == text_view(authorization),
            m.status == 200,
            m.body@ == Seq::<char>::empty(),
            jar_changes(m.cookies) == Map::<Seq<char>, Change>::empty(),
            jar_original(m.cookies) == seeded(header_pairs(cookie_headers@)),
    {
        let mut jar = cookies::jar();
        let mut h: usize = 0;
        while h < cookie_headers.len()
            invariant
                h <= cookie_headers.len(),
                jar_changes(jar) == Map::<Seq<char>, Change>::empty(),
                jar_original(jar) == seeded(header_pairs(cookie_headers@.subrange(0, h as int))),
            decreases cookie_headers.len() - h,
        {
            let ghost before = header_pairs(cookie_headers@.subrange(0, h as int));
            let pairs = parse_cookie_header(cookie_headers[h].as_str());
            let mut j: usize = 0;
            while j < pairs.len()
                invariant
                    j <= pairs.len(),
                    jar_changes(jar) == Map::<Seq<char>, Change>::empty(),
                    jar_original(jar) == seeded(before + pairs_view(pairs@).subrange(0, j as int)),
                decreases pairs.len() - j,
            {
                cookies::seed(&mut jar, pairs[j].0.as_str(), pairs[j].1.as_str());
                proof {
                    let shorter = before + pairs_view(pairs@).subrange(0, j as int);
                    let longer = before + pairs_view(pairs@).subrange(0, j + 1);
                    assert(longer.drop_last() =~= shorter);
                }
                j += 1;
            }
            proof {
                let upto = cookie_headers@.subrange(0, h + 1);
                assert(upto.drop_last() =~= cookie_headers@.subrange(0, h as int));
                assert(pairs_view(pairs@).subrange(0, pairs.len() as int) =~= pairs_view(pairs@));
            }
            h += 1;
        }
        assert(cookie_headers@.subrange(0, cookie_headers.len() as int) =~= cookie_headers@);
        Message { method, path, authorization, status: 200, body: String::new(), cookies: jar }
    }

    /// The value of the cookie of the given name, as the jar shows it: a
    /// change made for the response comes before what the request sent.
    pub fn cookie(&self, name: &str) -> (r: Option<String>)
        ensures
            text_view(r) == jar_value(self.cookies, name@),
    {
        cookies::value_of(&self.cookies, name)
    }

    /// Sets a cookie of the response: the jar then holds the change that
    /// sets it, in place of any earlier change for the same name. The rest
    /// of the message stays.
    pub fn set_cookie(&mut self, c: &SetCookie)
        ensures
            jar_changes(final(self).cookies) == jar_changes(old(self).cookies).insert(
                c.name@,
                change_of(c@),
            ),
            jar_original(final(self).cookies) == jar_original(old(self).cookies),
            final(self).method == old(self).method,
            final(self).path == old(self).path,
            final(self).authorization == old(self).authorization,
            final(self).status == old(self).status,
            final(self).body == old(self).body,
    {
        cookies::set(&mut self.cookies, c);
    }

    /// The response: status and body as they stand, and one `Set-Cookie`
    /// value for each cookie that was changed.
    pub fn done(self) -> (r: Response)
        ensures
            r.status == self.status,
            r.body@ == self.body@,
            lines_of(r.set_cookie@, jar_changes(self.cookies)),
    {
        let set_cookie = cookies::lines(&self.cookies);
        Response { status: self.status, body: self.body, set_cookie }
    }
}

} // verus!
