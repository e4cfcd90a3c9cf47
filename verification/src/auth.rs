//! Key pairs and the two classes of token that are signed with them.
//!
//! An access token is short-lived and checked by signature and expiry alone.
//! A refresh token is long-lived, travels in a cookie that only the refresh
//! route receives, and carries an identifier that the rotation compares with
//! the one on record. Each class has a key pair of its own, so that a key of
//! one class says nothing about tokens of the other.

use crate::claims::claims_of_json;
use crate::claims::lemma_payload_round_trip;
use crate::claims::payload_json;
use crate::claims::text_view;
use crate::claims::Claims;
use crate::claims::ClaimsView;
use crate::clock;
use crate::clock::expiry_of;
use crate::cookies::change_of;
use crate::cookies::jar_changes;
use crate::cookies::jar_original;
use crate::cookies::jar_value;
use crate::cookies::SameSite;
use crate::cookies::SetCookie;
use crate::cookies::SetCookieView;
use crate::error::Error;
use crate::error::ErrorKind;
use crate::json::json_of;
use crate::json::Json;
use crate::jwt;
use crate::jwt::jwt_opened;
use crate::jwt::jwt_signed;
use crate::jwt::rsa_modulus_bits;
use crate::jwt::rsa_public_pem;
use crate::jwt::JwtFailure;
use crate::message::Message;
use vstd::prelude::*;

verus! {

/// The size of the RSA modulus of every key pair, in bits.
pub const KEY_BITS: usize = 2048;

/// The seconds that an access token lives: a quarter of an hour.
pub const ACCESS_LIFETIME: usize = 900;

/// The seconds that a refresh token lives: a week.
pub const REFRESH_LIFETIME: usize = 604800;

/// An RSA key pair, both keys as PEM texts.
#[derive(Debug)]
pub struct Keypair {
    private: String,
    public: String,
}

impl Clone for Keypair {
    fn clone(&self) -> (k: Self)
        ensures
            k == *self,
    {
        Self { private: self.private.clone(), public: self.public.clone() }
    }
}

impl Keypair {
    /// The PEM text of the private key.
    pub closed spec fn private_pem(&self) -> Seq<char> {
        self.private@
    }

    /// The PEM text of the public key.
    pub closed spec fn public_pem(&self) -> Seq<char> {
        self.public@
    }

    /// Whether the two keys belong together: the public key is the one of
    /// the private key. A pair that was generated is paired; of a pair that
    /// was put together from texts nothing is known.
    pub open spec fn paired(&self) -> bool {
        rsa_public_pem(self.private_pem()) == Some(self.public_pem())
    }

    /// The number of bits of the modulus of a pair that was generated.
    pub open spec fn bits(&self) -> nat {
        rsa_modulus_bits(self.private_pem())
    }

    /// A fresh key pair with a modulus of [`KEY_BITS`] bits. Which one
    /// depends on chance. A failure that comes back is
    /// [`ErrorKind::KeyFailure`]; where the system's random source gives
    /// nothing, the generation does not return.
    pub fn new() -> (r: Result<Self, Error>)
        ensures
            r matches Ok(k) ==> k.paired() && k.bits() == KEY_BITS,
            r matches Err(e) ==> e.kind_spec() == ErrorKind::KeyFailure,
    {
        match jwt::generate(KEY_BITS) {
            Some(pair) => Ok(Self { private: pair.0, public: pair.1 }),
            None => Err(Error::of_kind(ErrorKind::KeyFailure)),
        }
    }

    /// The pair of two keys that are at hand as PEM texts, such as a pair
    /// that was generated earlier and kept. Nothing is read or checked here:
    /// a text that is no key fails when it is used, and keys that do not
    /// belong together sign tokens that do not verify.
    pub fn from_pem(private: String, public: String) -> (k: Self)
        ensures
            k.private_pem() == private@,
            k.public_pem() == public@,
    {
        Self { private, public }
    }

    /// The PEM text of the private key.
    pub fn private_text(&self) -> (s: &str)
        ensures
            s@ == self.private_pem(),
    {
        self.private.as_str()
    }

    /// The PEM text of the public key.
    pub fn public_text(&self) -> (s: &str)
        ensures
            s@ == self.public_pem(),
    {
        self.public.as_str()
    }
}

/// A token or the kind of the failure, seen as mathematical values.
pub open spec fn result_text(r: Result<String, Error>) -> Result<Seq<char>, ErrorKind> {
    match r {
        Ok(t) => Ok(t@),
        Err(e) => Err(e.kind_spec()),
    }
}

/// Claims or the kind of the failure, seen as mathematical values.
pub open spec fn result_claims(r: Result<Claims, Error>) -> Result<ClaimsView, ErrorKind> {
    match r {
        Ok(c) => Ok(c@),
        Err(e) => Err(e.kind_spec()),
    }
}

/// What issuing a token gives: the claims get the expiry `now + lifetime`,
/// whatever expiry they came with, and are signed with the private key.
/// Fails with `ClockError` where that expiry does not fit, and with
/// `KeyFailure` where the key does not sign.
pub open spec fn issue_spec(private: Seq<char>, c: ClaimsView, now: usize, lifetime: usize) -> Result<
    Seq<char>,
    ErrorKind,
> {
    match expiry_of(now, lifetime) {
        None => Err(ErrorKind::ClockError),
        Some(exp) => match jwt_signed(payload_json(c.expiring(exp as nat)), private) {
            Some(t) => Ok(t),
            None => Err(ErrorKind::KeyFailure),
        },
    }
}

/// What an opened token holds, or why it did not open.
pub open spec fn opened_view(o: Result<serde_json::Value, JwtFailure>) -> Result<Json, JwtFailure> {
    match o {
        Ok(v) => Ok(json_of(v)),
        Err(f) => Err(f),
    }
}

/// What is made of an opened token at the time `now`: a token that did not
/// open fails as it failed; a payload without the structure of claims is
/// malformed; claims whose expiry is not after `now` are expired; other
/// claims are the result.
pub open spec fn checked(o: Result<Json, JwtFailure>, now: usize) -> Result<ClaimsView, ErrorKind> {
    match o {
        Err(JwtFailure::InvalidSignature) => Err(ErrorKind::InvalidSignature),
        Err(JwtFailure::Malformed) => Err(ErrorKind::MalformedToken),
        Ok(j) => match claims_of_json(j) {
            None => Err(ErrorKind::MalformedToken),
            Some(c) => if c.exp > now {
                Ok(c)
            } else {
                Err(ErrorKind::Expired)
            },
        },
    }
}

/// What verifying a token under a public key gives at the time `now`.
pub open spec fn verify_spec(public: Seq<char>, token: Seq<char>, now: usize) -> Result<
    ClaimsView,
    ErrorKind,
> {
    checked(jwt_opened(token, public), now)
}

/// What verifying a token gives at the time `now`, where the system's clock
/// can be read (`clock`) and where it cannot: without the clock no token is
/// opened, and the failure is `ClockError`.
pub open spec fn verify_by(public: Seq<char>, token: Seq<char>, now: usize, clock: bool) -> Result<
    ClaimsView,
    ErrorKind,
> {
    if clock {
        verify_spec(public, token, now)
    } else {
        Err(ErrorKind::ClockError)
    }
}

/// Whether a token verifies under a public key to the given claims at
/// every time before the claims expire.
pub open spec fn verifies_to(public: Seq<char>, token: Seq<char>, claims: ClaimsView) -> bool {
    forall|later: usize|
        later < claims.exp ==> #[trigger] verify_spec(public, token, later) == Ok::<
            ClaimsView,
            ErrorKind,
        >(claims)
}

/// Whether `token` is what issuing gives at the time `now` for the claims,
/// and, where the claims are valid and the keys belong together, verifies
/// to the claims with the expiry `now + lifetime` until it expires.
pub open spec fn created(
    keys: Keypair,
    lifetime: usize,
    claims: ClaimsView,
    now: usize,
    token: Seq<char>,
) -> bool {
    &&& issue_spec(keys.private_pem(), claims, now, lifetime) == Ok::<Seq<char>, ErrorKind>(token)
    &&& claims.valid() && keys.paired() ==> verifies_to(
        keys.public_pem(),
        token,
        claims.expiring((now + lifetime) as nat),
    )
}

/// Computes [`checked`] for a token that was opened, or was not.
pub fn check_opened(opened: Result<serde_json::Value, JwtFailure>, now: usize) -> (r: Result<
    Claims,
    Error,
>)
    ensures
        result_claims(r) == checked(opened_view(opened), now),
{
    match opened {
        Err(JwtFailure::InvalidSignature) => Err(Error::of_kind(ErrorKind::InvalidSignature)),
        Err(JwtFailure::Malformed) => Err(Error::of_kind(ErrorKind::MalformedToken)),
        Ok(payload) => match Claims::from_json(&payload) {
            None => Err(Error::of_kind(ErrorKind::MalformedToken)),
            Some(claims) => if claims.exp > now {
                Ok(claims)
            } else {
                Err(Error::of_kind(ErrorKind::Expired))
            },
        },
    }
}

/// A class of token: a key pair and a lifetime.
pub trait Token: Sized {
    /// The key pair of the class.
    spec fn keys(&self) -> Keypair;

    /// The seconds that a token of the class lives.
    spec fn lifetime_spec(&self) -> usize;

    /// A class with a fresh key pair. `path` is the route that receives the
    /// class's cookie, for a class that has one.
    fn new(lifetime: usize, path: String) -> (r: Result<Self, Error>)
        ensures
            r matches Ok(t) ==> t.lifetime_spec() == lifetime && t.keys().paired()
                && t.keys().bits() == KEY_BITS,
            r matches Err(e) ==> e.kind_spec() == ErrorKind::KeyFailure,
    ;

    /// The key pair of the class.
    fn keypair(&self) -> (k: &Keypair)
        ensures
            *k == self.keys(),
    ;

    /// The seconds that a token of the class lives.
    fn lifetime(&self) -> (n: usize)
        ensures
            n == self.lifetime_spec(),
    ;

    /// The expiry of a token that is issued now, by the system's clock:
    /// whatever the clock says, some time plus `lifetime` seconds. The only
    /// failure is [`ErrorKind::ClockError`].
    fn expiry(lifetime: usize) -> (r: Result<usize, Error>)
        ensures
            r matches Ok(exp) ==> exists|now: usize| #[trigger]
                expiry_of(now, lifetime) == Some(exp),
            r matches Err(e) ==> e.kind_spec() == ErrorKind::ClockError,
    {
        match clock::now() {
            Ok(now) => clock::expiry_at(now, lifetime),
            Err(e) => Err(e),
        }
    }

    /// The PEM text of the private key.
    fn private(&self) -> (s: String)
        ensures
            s@ == self.keys().private_pem(),
    {
        self.keypair().private_text().to_owned()
    }

    /// The PEM text of the public key.
    fn public(&self) -> (s: String)
        ensures
            s@ == self.keys().public_pem(),
    {
        self.keypair().public_text().to_owned()
    }

    /// Issues a token at the time `now`: see [`issue_spec`].
    ///
    /// A token that was issued for valid claims verifies, under the same
    /// class and at any time before its expiry, to those claims with the
    /// expiry `now + lifetime`, as long as the keys of the class belong
    /// together.
    fn issue(&self, claims: Claims, now: usize) -> (r: Result<String, Error>)
        ensures
            result_text(r) == issue_spec(
                self.keys().private_pem(),
                claims@,
                now,
                self.lifetime_spec(),
            ),
            r is Ok && claims@.valid() && self.keys().paired() ==> verifies_to(
                self.keys().public_pem(),
                r->Ok_0@,
                claims@.expiring((now + self.lifetime_spec()) as nat),
            ),
    {
        let exp = match clock::expiry_at(now, self.lifetime()) {
            Ok(exp) => exp,
            Err(e) => {
                return Err(e);
            },
        };
        let stamped = Claims { sub: claims.sub, exp, ajd: claims.ajd, jti: claims.jti };
        let payload = stamped.to_json();
        proof {
            lemma_payload_round_trip(stamped@);
        }
        match jwt::sign(&payload, self.keypair().private_text()) {
            Some(token) => Ok(token),
            None => Err(Error::of_kind(ErrorKind::KeyFailure)),
        }
    }

    /// Issues a token now, by the system's clock, and hands it to the
    /// message where the class has a cookie.
    ///
    /// Whatever the clock says, a token that comes back is the one that
    /// [`Token::issue`] gives for some time, and verifies as that one does:
    /// see [`created`]. A failure is of the kind `ClockError` or
    /// `KeyFailure`.
    fn create(&self, payload: Claims, message: &mut Message) -> (r: Result<String, Error>)
        ensures
            r matches Ok(t) ==> exists|now: usize| #[trigger]
                created(self.keys(), self.lifetime_spec(), payload@, now, t@),
            r matches Err(e) ==> e.kind_spec() == ErrorKind::ClockError || e.kind_spec()
                == ErrorKind::KeyFailure,
    ;

    /// Verifies a token at the time `now`: see [`verify_by`].
    ///
    /// The crate that opens the token reads the system's clock for itself,
    /// and does not return where the clock stands before the epoch. So the
    /// clock is read here first, and where that fails the token is not
    /// opened: the result is then `ClockError`, whatever the token. Where the
    /// clock can be read the result is exactly [`verify_spec`]; `now` is the
    /// time that the expiry is compared with.
    fn verify_at(&self, token: &str, now: usize) -> (r: Result<Claims, Error>)
        ensures
            result_claims(r) == verify_by(self.keys().public_pem(), token@, now, true)
                || result_claims(r) == verify_by(self.keys().public_pem(), token@, now, false),
    {
        match clock::now() {
            Ok(_) => {
                let opened = jwt::open(token, self.keypair().public_text());
                check_opened(opened, now)
            },
            Err(e) => Err(e),
        }
    }

    /// Verifies a token now, by the system's clock.
    ///
    /// Whatever the clock says, the result is the one that
    /// [`verify_spec`] gives for some time, or the failure `ClockError`.
    fn verify(&self, token: String) -> (r: Result<Claims, Error>)
        ensures
            (r matches Err(e) && e.kind_spec() == ErrorKind::ClockError) || exists|now: usize|
                result_claims(r) == #[trigger] verify_spec(self.keys().public_pem(), token@, now),
    {
        match clock::now() {
            Ok(now) => self.verify_at(token.as_str(), now),
            Err(e) => Err(e),
        }
    }
}

/// The class of access tokens.
#[derive(Clone, Debug)]
pub struct AccessToken {
    keypair: Keypair,
    lifetime: usize,
}

impl Token for AccessToken {
    closed spec fn keys(&self) -> Keypair {
        self.keypair
    }

    closed spec fn lifetime_spec(&self) -> usize {
        self.lifetime
    }

    fn new(lifetime: usize, _path: String) -> (r: Result<Self, Error>) {
        match Keypair::new() {
            Ok(keypair) => Ok(Self::with_keypair(keypair, lifetime)),
            Err(e) => Err(e),
        }
    }

    fn keypair(&self) -> (k: &Keypair) {
        &self.keypair
    }

    fn lifetime(&self) -> (n: usize) {
        self.lifetime
    }

    /// An access token has no cookie: the message stays as it is.
    fn create(&self, payload: Claims, message: &mut Message) -> (r: Result<String, Error>)
        ensures
            *final(message) == *old(message),
    {
        let ghost claims = payload@;
        match clock::now() {
            Ok(now) => {
                let r = self.issue(payload, now);
                proof {
                    if r is Ok {
                        assert(created(self.keys(), self.lifetime_spec(), claims, now, r->Ok_0@));
                    }
                }
                r
            },
            Err(e) => Err(e),
        }
    }
}

impl AccessToken {
    /// The class of access tokens that are signed with the given key pair
    /// and live for `lifetime` seconds.
    pub fn with_keypair(keypair: Keypair, lifetime: usize) -> (t: Self)
        ensures
            t.keys() == keypair,
            t.lifetime_spec() == lifetime,
    {
        Self { keypair, lifetime }
    }
}

/// The class of refresh tokens.
#[derive(Clone, Debug)]
pub struct RefreshToken {
    keypair: Keypair,
    lifetime: usize,
    path: String,
}

/// The cookie that carries a refresh token: named `refresh`, hidden from
/// scripts, sent over secure transport only, never sent across sites, and
/// sent to the refresh route alone.
pub open spec fn refresh_cookie(path: Seq<char>, value: Seq<char>, max_age: Option<nat>) -> SetCookieView {
    SetCookieView {
        name: "refresh"@,
        value,
        path,
        http_only: true,
        secure: true,
        same_site: SameSite::Strict,
        max_age,
    }
}

/// Whether two messages differ in nothing but the changes to their cookies.
pub open spec fn same_but_changes(a: Message, b: Message) -> bool {
    &&& a.method == b.method
    &&& a.path == b.path
    &&& a.authorization == b.authorization
    &&& a.status == b.status
    &&& a.body == b.body
    &&& jar_original(a.cookies) == jar_original(b.cookies)
}

/// Whether `after` is `before` with the refresh cookie set to `value` at
/// the given path, with the given age.
pub open spec fn refresh_set(
    before: Message,
    after: Message,
    path: Seq<char>,
    value: Seq<char>,
    max_age: Option<nat>,
) -> bool {
    &&& same_but_changes(before, after)
    &&& jar_changes(after.cookies) == jar_changes(before.cookies).insert(
        "refresh"@,
        change_of(refresh_cookie(path, value, max_age)),
    )
}

impl Token for RefreshToken {
    closed spec fn keys(&self) -> Keypair {
        self.keypair
    }

    closed spec fn lifetime_spec(&self) -> usize {
        self.lifetime
    }

    fn new(lifetime: usize, path: String) -> (r: Result<Self, Error>)
        ensures
            r matches Ok(t) ==> t.path_spec() == path@,
    {
        match Keypair::new() {
            Ok(keypair) => Ok(Self::with_keypair(keypair, lifetime, path)),
            Err(e) => Err(e),
        }
    }

    fn keypair(&self) -> (k: &Keypair) {
        &self.keypair
    }

    fn lifetime(&self) -> (n: usize) {
        self.lifetime
    }

    /// A refresh token that was issued is bound to the message as its
    /// cookie; on a failure the message stays as it is.
    fn create(&self, payload: Claims, message: &mut Message) -> (r: Result<String, Error>)
        ensures
            r matches Ok(t) ==> refresh_set(*old(message), *final(message), self.path_spec(), t@, None),
            r is Err ==> *final(message) == *old(message),
    {
        let ghost claims = payload@;
        let now = match clock::now() {
            Ok(now) => now,
            Err(e) => {
                return Err(e);
            },
        };
        match self.issue(payload, now) {
            Ok(token) => {
                proof {
                    assert(created(self.keys(), self.lifetime_spec(), claims, now, token@));
                }
                self.bind(token.as_str(), message);
                Ok(token)
            },
            Err(e) => Err(e),
        }
    }
}

impl RefreshToken {
    /// The route that receives the refresh cookie.
    pub closed spec fn path_spec(&self) -> Seq<char> {
        self.path@
    }

    /// The class of refresh tokens that are signed with the given key pair,
    /// live for `lifetime` seconds and travel to the route `path`.
    pub fn with_keypair(keypair: Keypair, lifetime: usize, path: String) -> (t: Self)
        ensures
            t.keys() == keypair,
            t.lifetime_spec() == lifetime,
            t.path_spec() == path@,
    {
        Self { keypair, lifetime, path }
    }

    /// The route that receives the refresh cookie.
    pub fn path(&self) -> (s: String)
        ensures
            s@ == self.path_spec(),
    {
        self.path.clone()
    }

    /// The refresh cookie with the given value and age, in plain values.
    pub fn cookie(&self, value: &str, max_age: Option<u32>) -> (c: SetCookie)
        ensures
            c@ == refresh_cookie(
                self.path_spec(),
                value@,
                match max_age {
                    Some(s) => Some(s as nat),
                    None => None,
                },
            ),
    {
        SetCookie {
            name: "refresh".to_owned(),
            value: value.to_owned(),
            path: self.path.clone(),
            http_only: true,
            secure: true,
            same_site: SameSite::Strict,
            max_age,
        }
    }

    /// Sets the refresh cookie of the response to the token.
    pub fn bind(&self, token: &str, message: &mut Message)
        ensures
            refresh_set(*old(message), *final(message), self.path_spec(), token@, None),
    {
        let c = self.cookie(token, None);
        message.set_cookie(&c);
    }

    /// Clears the refresh cookie: the response sets it to the empty value,
    /// with an age of zero seconds, at the same path.
    pub fn reset(&self, message: &mut Message)
        ensures
            refresh_set(
                *old(message),
                *final(message),
                self.path_spec(),
                Seq::<char>::empty(),
                Some(0nat),
            ),
    {
        let c = self.cookie("", Some(0));
        proof {
            reveal_strlit("");
            assert(""@ =~= Seq::<char>::empty());
        }
        message.set_cookie(&c);
    }

    /// The refresh token that the message carries, if it carries one.
    pub fn extract(message: &Message) -> (r: Option<String>)
        ensures
            text_view(r) == jar_value(message.cookies, "refresh"@),
    {
        message.cookie("refresh")
    }
}

/// The two classes of token of one process.
#[derive(Clone, Debug)]
pub struct AuthContext {
    pub access: AccessToken,
    pub refresh: RefreshToken,
}

impl AuthContext {
    /// Whether the keys of each class belong together.
    pub open spec fn paired(&self) -> bool {
        self.access.keys().paired() && self.refresh.keys().paired()
    }

    /// Both classes with fresh key pairs: access tokens that live for
    /// [`ACCESS_LIFETIME`] seconds, refresh tokens that live for
    /// [`REFRESH_LIFETIME`] seconds and travel to `/jwt/refresh`.
    pub fn new() -> (r: Result<Self, Error>)
        ensures
            r matches Ok(c) ==> c.access.lifetime_spec() == ACCESS_LIFETIME
                && c.refresh.lifetime_spec() == REFRESH_LIFETIME && c.refresh.path_spec()
                == "/jwt/refresh"@,
            r matches Ok(c) ==> c.paired() && c.access.keys().bits() == KEY_BITS
                && c.refresh.keys().bits() == KEY_BITS,
            r matches Err(e) ==> e.kind_spec() == ErrorKind::KeyFailure,
    {
        let access = match Keypair::new() {
            Ok(k) => k,
            Err(e) => {
                return Err(e);
            },
        };
        let refresh = match Keypair::new() {
            Ok(k) => k,
            Err(e) => {
                return Err(e);
            },
        };
        Ok(Self::with_keypairs(access, refresh))
    }

    /// Both classes with the given key pairs, and the lifetimes and the
    /// route of [`AuthContext::new`].
    pub fn with_keypairs(access: Keypair, refresh: Keypair) -> (c: Self)
        ensures
            c.access.keys() == access,
            c.refresh.keys() == refresh,
            c.access.lifetime_spec() == ACCESS_LIFETIME,
            c.refresh.lifetime_spec() == REFRESH_LIFETIME,
            c.refresh.path_spec() == "/jwt/refresh"@,
    {
        Self {
            access: AccessToken::with_keypair(access, ACCESS_LIFETIME),
            refresh: RefreshToken::with_keypair(refresh, REFRESH_LIFETIME, "/jwt/refresh".to_owned()),
        }
    }
}

/// The one answer to every credential that does not verify.
#[derive(Clone, Copy, Debug, PartialEq, Eq, Structural)]
pub struct Unauthenticated;

/// The token of an `Authorization` header of the form `Bearer <token>`.
pub open spec fn bearer_token(h: Seq<char>) -> Option<Seq<char>> {
    if h.len() >= 7 && h.subrange(0, 7) == "Bearer "@ {
        Some(h.subrange(7, h.len() as int))
    } else {
        None
    }
}

/// Computes [`bearer_token`].
pub fn bearer(header: &str) -> (r: Option<String>)
    ensures
        text_view(r) == bearer_token(header@),
{
    let n = header.unicode_len();
    proof {
        reveal_strlit("Bearer ");
    }
    if n < 7 {
        return None;
    }
    if header.get_char(0) == 'B' && header.get_char(1) == 'e' && header.get_char(2) == 'a'
        && header.get_char(3) == 'r' && header.get_char(4) == 'e' && header.get_char(5) == 'r'
        && header.get_char(6) == ' ' {
        assert(header@.subrange(0, 7) =~= "Bearer "@);
        Some(header.substring_char(7, n).to_owned())
    } else {
        assert(header@.subrange(0, 7) != "Bearer "@) by {
            if header@.subrange(0, 7) == "Bearer "@ {
                assert(header@.subrange(0, 7)[0] == 'B');
                assert(header@.subrange(0, 7)[1] == 'e');
                assert(header@.subrange(0, 7)[2] == 'a');
                assert(header@.subrange(0, 7)[3] == 'r');
                assert(header@.subrange(0, 7)[4] == 'e');
                assert(header@.subrange(0, 7)[5] == 'r');
                assert(header@.subrange(0, 7)[6] == ' ');
            }
        }
        None
    }
}

/// The claims that a request is authenticated with at the time `now`: those
/// of the access token in its `Authorization` header, where there is such a
/// header, it holds a bearer token, and the token verifies. `clock` says
/// whether the system's clock can be read; without it no token verifies.
pub open spec fn authentic(
    authorization: Option<Seq<char>>,
    public: Seq<char>,
    now: usize,
    clock: bool,
) -> Option<ClaimsView> {
    match authorization {
        None => None,
        Some(h) => match bearer_token(h) {
            None => None,
            Some(t) => collapsed(verify_by(public, t, now, clock)),
        },
    }
}

/// What is left of a verification for the one who asked: the claims, or
/// nothing, whatever the failure was.
pub open spec fn collapsed(verified: Result<ClaimsView, ErrorKind>) -> Option<ClaimsView> {
    match verified {
        Ok(c) => Some(c),
        Err(_) => None,
    }
}

/// The claims of an authentication, if it gave any.
pub open spec fn admitted(r: Result<Claims, Unauthenticated>) -> Option<ClaimsView> {
    match r {
        Ok(c) => Some(c@),
        Err(_) => None,
    }
}

/// Turns every failure of a verification into the same
/// [`Unauthenticated`]: see [`collapsed`].
pub fn collapse(verified: Result<Claims, Error>) -> (r: Result<Claims, Unauthenticated>)
    ensures
        admitted(r) == collapsed(result_claims(verified)),
{
    match verified {
        Ok(c) => Ok(c),
        Err(_) => Err(Unauthenticated),
    }
}

/// Authenticates a request: see [`authentic`]. Every failure is the same
/// [`Unauthenticated`], so that a caller cannot tell why a token failed.
///
/// The result is what [`authentic`] gives where the system's clock can be
/// read, or what it gives where the clock cannot, which is no claims.
pub fn authenticate(message: &Message, context: &AuthContext, now: usize) -> (r: Result<
    Claims,
    Unauthenticated,
>)
    ensures
        admitted(r) == authentic(
            text_view(message.authorization),
            context.access.keys().public_pem(),
            now,
            true,
        ) || admitted(r) == authentic(
            text_view(message.authorization),
            context.access.keys().public_pem(),
            now,
            false,
        ),
{
    let header = match &message.authorization {
        Some(h) => h,
        None => {
            return Err(Unauthenticated);
        },
    };
    let token = match bearer(header.as_str()) {
        Some(t) => t,
        None => {
            return Err(Unauthenticated);
        },
    };
    collapse(context.access.verify_at(token.as_str(), now))
}

} // verus!
