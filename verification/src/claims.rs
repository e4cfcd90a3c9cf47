//! The claims that every token signs, and their form as a JSON object.

use crate::json;
use crate::json::is_shallow;
use crate::json::Json;
use vstd::prelude::*;

verus! {

/// What a token carries beside the identity: for now, an email address.
#[derive(Debug)]
pub struct AdditionalData {
    pub email: String,
}

/// The signed payload of a token.
#[derive(Debug)]
pub struct Claims {
    /// Who the token speaks for.
    pub sub: String,
    /// When the token ends, in seconds since the Unix epoch.
    pub exp: usize,
    /// Data that only the issuer and the consumer read.
    pub ajd: AdditionalData,
    /// The token's identifier; refresh tokens have one, access tokens none.
    pub jti: Option<String>,
}

/// What a caller knows of a user before claims are made of it.
#[derive(Debug)]
pub struct Payload {
    pub id: String,
    pub jti: Option<String>,
    pub email: String,
}

/// The mathematical value of [`Claims`].
pub ghost struct ClaimsView {
    pub sub: Seq<char>,
    pub exp: nat,
    pub email: Seq<char>,
    pub jti: Option<Seq<char>>,
}

/// The characters of an optional string.
pub open spec fn text_view(s: Option<String>) -> Option<Seq<char>> {
    match s {
        Some(t) => Some(t@),
        None => None,
    }
}

/// A copy of an optional string.
pub fn copy_text(s: &Option<String>) -> (r: Option<String>)
    ensures
        text_view(r) == text_view(*s),
{
    match s {
        Some(t) => Some(t.clone()),
        None => None,
    }
}

impl View for Claims {
    type V = ClaimsView;

    open spec fn view(&self) -> ClaimsView {
        ClaimsView {
            sub: self.sub@,
            exp: self.exp as nat,
            email: self.ajd.email@,
            jti: text_view(self.jti),
        }
    }
}

impl ClaimsView {
    /// Claims are valid when they name a subject.
    pub open spec fn valid(self) -> bool {
        self.sub.len() > 0
    }

    /// The same claims with another expiry.
    pub open spec fn expiring(self, exp: nat) -> ClaimsView {
        ClaimsView { exp, ..self }
    }

    /// The same claims with another identifier, or none.
    pub open spec fn identified(self, jti: Option<Seq<char>>) -> ClaimsView {
        ClaimsView { jti, ..self }
    }
}

/// The member of a JSON object that carries the token's identifier.
pub open spec fn identifier_json(jti: Option<Seq<char>>) -> Json {
    match jti {
        Some(t) => Json::Text(t),
        None => Json::Null,
    }
}

/// The JSON object that is signed for the given claims.
pub open spec fn payload_json(c: ClaimsView) -> Json {
    Json::Object(
        Map::<Seq<char>, Json>::empty().insert("sub"@, Json::Text(c.sub)).insert(
            "exp"@,
            Json::Integer(c.exp as int),
        ).insert(
            "ajd"@,
            Json::Object(Map::<Seq<char>, Json>::empty().insert("email"@, Json::Text(c.email))),
        ).insert("jti"@, identifier_json(c.jti)),
    )
}

/// Whether the object's member under `key` is a string.
pub open spec fn holds_text(m: Map<Seq<char>, Json>, key: Seq<char>) -> bool {
    m.contains_key(key) && m[key] is Text
}

/// Whether the object's member for the identifier is well formed: absent,
/// `null` or a string.
pub open spec fn identifier_ok(m: Map<Seq<char>, Json>) -> bool {
    m.contains_key("jti"@) ==> m["jti"@] is Null || m["jti"@] is Text
}

/// The identifier that the object carries, if any.
pub open spec fn identifier_of(m: Map<Seq<char>, Json>) -> Option<Seq<char>> {
    if m.contains_key("jti"@) && m["jti"@] is Text {
        Some(m["jti"@]->Text_0)
    } else {
        None
    }
}

/// Whether a JSON value has the structure of claims: an object with a
/// non-empty string `sub`, a whole number `exp` that the machine's `usize`
/// holds, an object `ajd` with a string `email`, and `jti` absent, `null` or
/// a string. Other members are ignored.
pub open spec fn is_claims(j: Json) -> bool {
    &&& j is Object
    &&& holds_text(j->Object_0, "sub"@)
    &&& j->Object_0["sub"@]->Text_0.len() > 0
    &&& j->Object_0.contains_key("exp"@)
    &&& j->Object_0["exp"@] is Integer
    &&& 0 <= j->Object_0["exp"@]->Integer_0 <= usize::MAX
    &&& j->Object_0.contains_key("ajd"@)
    &&& j->Object_0["ajd"@] is Object
    &&& holds_text(j->Object_0["ajd"@]->Object_0, "email"@)
    &&& identifier_ok(j->Object_0)
}

/// The claims that a JSON value states, if it has their structure.
pub open spec fn claims_of_json(j: Json) -> Option<ClaimsView> {
    if is_claims(j) {
        Some(
            ClaimsView {
                sub: j->Object_0["sub"@]->Text_0,
                exp: j->Object_0["exp"@]->Integer_0 as nat,
                email: j->Object_0["ajd"@]->Object_0["email"@]->Text_0,
                jti: identifier_of(j->Object_0),
            },
        )
    } else {
        None
    }
}

/// The view of optional claims.
pub open spec fn claims_view(c: Option<Claims>) -> Option<ClaimsView> {
    match c {
        Some(c) => Some(c@),
        None => None,
    }
}

/// The names of the members of a claims object are four different strings.
pub proof fn lemma_member_names()
    ensures
        "sub"@ != "exp"@,
        "sub"@ != "ajd"@,
        "sub"@ != "jti"@,
        "exp"@ != "ajd"@,
        "exp"@ != "jti"@,
        "ajd"@ != "jti"@,
        "sub"@.len() == 3,
        "exp"@.len() == 3,
        "ajd"@.len() == 3,
        "jti"@.len() == 3,
{
    reveal_strlit("sub");
    reveal_strlit("exp");
    reveal_strlit("ajd");
    reveal_strlit("jti");
    assert("exp"@[0] == 'e');
    assert("ajd"@[0] == 'a');
    assert("jti"@[0] == 'j');
}

/// Claims written as JSON and read back are the same claims, as long as
/// they name a subject.
pub proof fn lemma_payload_round_trip(c: ClaimsView)
    requires
        c.exp <= usize::MAX,
    ensures
        claims_of_json(payload_json(c)) == (if c.valid() {
            Some(c)
        } else {
            None
        }),
        payload_json(c) is Object,
        payload_json(c)->Object_0.contains_key("exp"@),
        payload_json(c)->Object_0["exp"@] == Json::Integer(c.exp as int),
        is_shallow(payload_json(c)),
{
    lemma_member_names();
}

impl AdditionalData {
    /// The additional data that holds the given email address.
    pub fn new(email: String) -> (a: Self)
        ensures
            a.email@ == email@,
    {
        Self { email }
    }
}

impl Claims {
    /// Claims for a subject, without expiry or identifier yet.
    pub fn new(sub: String, ajd: AdditionalData) -> (c: Self)
        ensures
            c@ == (ClaimsView { sub: sub@, exp: 0, email: ajd.email@, jti: None }),
    {
        Self { sub, exp: 0, ajd, jti: None }
    }

    /// A copy of the claims.
    pub fn copy(&self) -> (c: Self)
        ensures
            c@ == self@,
    {
        Self {
            sub: self.sub.clone(),
            exp: self.exp,
            ajd: AdditionalData { email: self.ajd.email.clone() },
            jti: copy_text(&self.jti),
        }
    }

    /// Whether the claims name a subject.
    pub fn is_valid(&self) -> (b: bool)
        ensures
            b == self@.valid(),
    {
        self.sub.as_str().unicode_len() > 0
    }

    /// The JSON object that is signed for the claims.
    pub fn to_json(&self) -> (v: serde_json::Value)
        ensures
            json_of_claims(v, self@),
    {
        let mut ajd = json::members();
        json::put(&mut ajd, "email", json::text(self.ajd.email.as_str()));
        let mut all = json::members();
        json::put(&mut all, "sub", json::text(self.sub.as_str()));
        json::put(&mut all, "exp", json::number(self.exp as u64));
        json::put(&mut all, "ajd", json::object(ajd));
        let jti = match &self.jti {
            Some(t) => json::text(t.as_str()),
            None => json::null(),
        };
        json::put(&mut all, "jti", jti);
        json::object(all)
    }

    /// The claims that a JSON value states, if it has their structure (see
    /// [`is_claims`]).
    pub fn from_json(v: &serde_json::Value) -> (r: Option<Claims>)
        ensures
            claims_view(r) == claims_of_json(json::json_of(*v)),
    {
        let sub = match json::member(v, "sub") {
            Some(x) => match json::as_text(x) {
                Some(s) => s,
                None => return None,
            },
            None => return None,
        };
        if sub.unicode_len() == 0 {
            return None;
        }
        let exp = match json::member(v, "exp") {
            Some(x) => match json::as_number(x) {
                Some(n) => n,
                None => return None,
            },
            None => return None,
        };
        if exp > usize::MAX as u64 {
            return None;
        }
        let email = match json::member(v, "ajd") {
            Some(a) => match json::member(a, "email") {
                Some(x) => match json::as_text(x) {
                    Some(s) => s,
                    None => return None,
                },
                None => return None,
            },
            None => return None,
        };
        let jti = match json::member(v, "jti") {
            Some(x) => if json::is_null(x) {
                None
            } else {
                match json::as_text(x) {
                    Some(s) => Some(s.to_owned()),
                    None => return None,
                }
            },
            None => None,
        };
        Some(
            Claims {
                sub: sub.to_owned(),
                exp: exp as usize,
                ajd: AdditionalData { email: email.to_owned() },
                jti,
            },
        )
    }
}

/// Whether `v` holds the JSON object of the claims `c`.
pub open spec fn json_of_claims(v: serde_json::Value, c: ClaimsView) -> bool {
    json::json_of(v) == payload_json(c)
}

/// The claims of a user that is known by identity, identifier and email.
pub fn convert(payload: &Payload, exp: usize) -> (c: Claims)
    ensures
        c@ == (ClaimsView {
            sub: payload.id@,
            exp: exp as nat,
            email: payload.email@,
            jti: text_view(payload.jti),
        }),
{
    Claims {
        sub: payload.id.clone(),
        exp,
        ajd: AdditionalData { email: payload.email.clone() },
        jti: copy_text(&payload.jti),
    }
}

} // verus!
