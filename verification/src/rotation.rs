//! The rotation of refresh tokens, as a machine that a server drives.
//!
//! A refresh request is answered in up to three steps. The server hands
//! [`step`] what happened (the request came, the store answered a read, the
//! store answered a write) and does what [`step`] tells it (read the record
//! of a subject, write one, send the response). The machine decides; it
//! never touches the store or the network itself.
//!
//! A token is good for one rotation: the rotation writes a new identifier
//! to the record, and a token that carries the old one no longer matches.

use crate::auth::issue_spec;
use crate::auth::refresh_cookie;
use crate::auth::refresh_set;
use crate::auth::result_claims;
use crate::auth::verifies_to;
use crate::auth::verify_by;
use crate::auth::AuthContext;
use crate::auth::RefreshToken;
use crate::auth::Token;
use crate::claims::text_view;
use crate::claims::AdditionalData;
use crate::claims::Claims;
use crate::claims::ClaimsView;
use crate::clock;
use crate::cookies::change_of;
use crate::cookies::jar_changes;
use crate::cookies::jar_original;
use crate::cookies::jar_value;
use crate::cookies::Change;
use crate::error::Error;
use crate::error::ErrorKind;
use crate::ident;
use crate::json;
use crate::json::is_flat;
use crate::json::json_text;
use crate::json::Json;
use crate::message::Message;
use crate::message::Method;
use vstd::prelude::*;

verus! {

/// How a refresh request ended.
#[derive(Clone, Copy, Debug, PartialEq, Eq, Structural)]
pub enum Outcome {
    /// The request carried no refresh cookie.
    NoCookie,
    /// The refresh token did not verify.
    VerifyFailed,
    /// The subject has no identifier on record, or another one than the
    /// token carries.
    IdMismatch,
    /// New tokens were issued and the new identifier is on record.
    Rotated,
    /// The store did not answer a read or a write.
    StoreUnavailable,
    /// The new tokens could not be issued, or the identifier that was
    /// offered for them is the one that the presented token carries.
    IssueFailed,
    /// The request did not use the method `POST`.
    MethodNotAllowed,
    /// The server reported something that cannot follow what came before.
    OutOfTurn,
    /// The system's clock could not be read, or no identifier could be
    /// drawn.
    Unable,
}

impl Outcome {
    /// Whether the outcome turns the client away as unauthenticated.
    pub open spec fn is_rejection(self) -> bool {
        self != Outcome::Rotated && self != Outcome::MethodNotAllowed
    }

    /// The status of the response that ends with this outcome.
    pub open spec fn status_spec(self) -> u16 {
        match self {
            Outcome::Rotated => 200,
            Outcome::MethodNotAllowed => 405,
            _ => 401,
        }
    }

    /// The status of the response that ends with this outcome: `200` after a
    /// rotation, `405` for a wrong method, `401` for every rejection.
    pub fn status(self) -> (s: u16)
        ensures
            s == self.status_spec(),
    {
        match self {
            Outcome::Rotated => 200,
            Outcome::MethodNotAllowed => 405,
            _ => 401,
        }
    }

    /// The kind of failure that the outcome stands for, where it stands for
    /// one alone.
    pub fn failure(self) -> (k: Option<ErrorKind>)
        ensures
            k == (match self {
                Outcome::IdMismatch => Some(ErrorKind::RevocationMismatch),
                Outcome::StoreUnavailable => Some(ErrorKind::StoreUnavailable),
                _ => None,
            }),
    {
        match self {
            Outcome::IdMismatch => Some(ErrorKind::RevocationMismatch),
            Outcome::StoreUnavailable => Some(ErrorKind::StoreUnavailable),
            _ => None,
        }
    }
}

/// What a rotation has made and not yet handed out.
#[derive(Debug)]
pub struct Minted {
    /// The claims of the new refresh token, which become the record.
    pub record: Claims,
    /// The new refresh token.
    pub refresh: String,
    /// The new access token.
    pub access: String,
}

/// The mathematical value of [`Minted`].
pub ghost struct MintedView {
    pub record: ClaimsView,
    pub refresh: Seq<char>,
    pub access: Seq<char>,
}

impl View for Minted {
    type V = MintedView;

    open spec fn view(&self) -> MintedView {
        MintedView { record: self.record@, refresh: self.refresh@, access: self.access@ }
    }
}

/// Where the answer to a refresh request stands.
#[derive(Debug)]
pub enum Rotation {
    /// Nothing was looked at yet.
    Start,
    /// The refresh token verified to these claims; the record of their
    /// subject is awaited.
    Verified(Claims),
    /// New tokens were made; the store's answer to the write is awaited.
    Minted(Minted),
    /// The response is decided.
    Done(Outcome),
}

/// The mathematical value of [`Rotation`].
pub ghost enum RotationView {
    Start,
    Verified(ClaimsView),
    Minted(MintedView),
    Done(Outcome),
}

impl View for Rotation {
    type V = RotationView;

    open spec fn view(&self) -> RotationView {
        match self {
            Rotation::Start => RotationView::Start,
            Rotation::Verified(c) => RotationView::Verified(c@),
            Rotation::Minted(m) => RotationView::Minted(m@),
            Rotation::Done(o) => RotationView::Done(*o),
        }
    }
}

/// The store's answer to a read.
#[derive(Debug)]
pub enum Fetched {
    /// The record of the subject.
    Found(Claims),
    /// The subject has no record.
    Missing,
    /// The store did not answer.
    Unavailable,
}

/// The store's answer to a write.
#[derive(Clone, Copy, Debug, PartialEq, Eq, Structural)]
pub enum Stored {
    /// The record is written.
    Written,
    /// The store did not answer.
    Unavailable,
}

/// What the server reports to the machine.
#[derive(Debug)]
pub enum Event {
    /// The request came, at the time `now`.
    Request { now: usize },
    /// The store answered the read. `now` is the time of the answer and
    /// `token_id` a fresh identifier, for the tokens that may be issued.
    Record { fetched: Fetched, now: usize, token_id: String },
    /// The store answered the write.
    Written(Stored),
    /// The server could not go on: it could not read the clock or draw an
    /// identifier.
    Unable,
}

/// What the machine tells the server to do next.
#[derive(Debug)]
pub enum Action {
    /// Read the record of this subject, and report the answer.
    Fetch(String),
    /// Write this record for this subject, and report the answer.
    Store(String, Claims),
    /// Send the response as the message now has it.
    Respond,
}

/// The mathematical value of [`Action`].
pub ghost enum ActionView {
    Fetch(Seq<char>),
    Store(Seq<char>, ClaimsView),
    Respond,
}

impl View for Action {
    type V = ActionView;

    open spec fn view(&self) -> ActionView {
        match self {
            Action::Fetch(s) => ActionView::Fetch(s@),
            Action::Store(s, c) => ActionView::Store(s@, c@),
            Action::Respond => ActionView::Respond,
        }
    }
}

/// The change that clears the refresh cookie at the given path.
pub open spec fn clearing(path: Seq<char>) -> Change {
    change_of(refresh_cookie(path, Seq::empty(), Some(0nat)))
}

/// Whether `after` is `before` turned into a rejection: the status `401`,
/// an empty body, and the refresh cookie cleared.
pub open spec fn rejected(before: Message, after: Message, path: Seq<char>) -> bool {
    &&& after.method == before.method
    &&& after.path == before.path
    &&& after.authorization == before.authorization
    &&& after.status == 401
    &&& after.body@ == Seq::<char>::empty()
    &&& jar_original(after.cookies) == jar_original(before.cookies)
    &&& jar_changes(after.cookies) == jar_changes(before.cookies).insert(
        "refresh"@,
        clearing(path),
    )
}

/// Whether `after` is `before` turned into the answer to a wrong method:
/// the status `405`, an empty body, the cookies as they were.
pub open spec fn refused(before: Message, after: Message) -> bool {
    &&& after.method == before.method
    &&& after.path == before.path
    &&& after.authorization == before.authorization
    &&& after.status == 405
    &&& after.body@ == Seq::<char>::empty()
    &&& after.cookies == before.cookies
}

/// The body of a successful response: the JSON object whose one member,
/// `access_token`, is the access token.
pub open spec fn access_body(access: Seq<char>) -> Seq<char> {
    json_text(
        Json::Object(Map::<Seq<char>, Json>::empty().insert("access_token"@, Json::Text(access))),
    )
}

/// Whether `after` is `before` turned into a success: the status `200`, the
/// access token in the body, and the refresh cookie set to the new refresh
/// token.
pub open spec fn accepted(before: Message, after: Message, path: Seq<char>, m: MintedView) -> bool {
    &&& after.method == before.method
    &&& after.path == before.path
    &&& after.authorization == before.authorization
    &&& after.status == 200
    &&& after.body@ == access_body(m.access)
    &&& jar_original(after.cookies) == jar_original(before.cookies)
    &&& jar_changes(after.cookies) == jar_changes(before.cookies).insert(
        "refresh"@,
        change_of(refresh_cookie(path, m.refresh, None)),
    )
}

/// Whether the machine ended with the given outcome.
pub open spec fn ended(next: Rotation, action: Action, outcome: Outcome) -> bool {
    next@ == RotationView::Done(outcome) && action@ == ActionView::Respond
}

/// What a rotation makes for verified claims at the time `now` with the
/// fresh identifier `token_id`: a refresh token for the same subject and
/// data with the new identifier, an access token for the same subject and
/// data without identifier, and the record, which is the claims of the new
/// refresh token. `None` where either token cannot be issued.
pub open spec fn minted_spec(
    context: AuthContext,
    claims: ClaimsView,
    now: usize,
    token_id: Seq<char>,
) -> Option<MintedView> {
    let fresh = claims.identified(Some(token_id));
    let refresh = issue_spec(
        context.refresh.keys().private_pem(),
        fresh,
        now,
        context.refresh.lifetime_spec(),
    );
    let access = issue_spec(
        context.access.keys().private_pem(),
        claims.identified(None),
        now,
        context.access.lifetime_spec(),
    );
    if refresh is Ok && access is Ok {
        Some(
            MintedView {
                record: fresh.expiring((now + context.refresh.lifetime_spec()) as nat),
                refresh: refresh->Ok_0,
                access: access->Ok_0,
            },
        )
    } else {
        None
    }
}

/// What follows from the verification of the refresh token. Claims lead
/// on: the record of their subject is to be read, and the message stays as
/// it is. A failure ends in a rejection: as [`Outcome::Unable`] where the
/// clock could not be read, as [`Outcome::VerifyFailed`] for every other
/// failure.
pub open spec fn proceeded(
    context: AuthContext,
    verified: Result<ClaimsView, ErrorKind>,
    before: Message,
    next: Rotation,
    action: Action,
    after: Message,
) -> bool {
    match verified {
        Ok(c) => next@ == RotationView::Verified(c) && action@ == ActionView::Fetch(c.sub) && after
            == before,
        Err(kind) => ended(
            next,
            action,
            if kind == ErrorKind::ClockError {
                Outcome::Unable
            } else {
                Outcome::VerifyFailed
            },
        ) && rejected(before, after, context.refresh.path_spec()),
    }
}

/// The first step. A request with another method than `POST` is refused. A
/// request without refresh cookie, or with one that does not verify, is
/// rejected, and the store is not asked. Otherwise the record of the
/// token's subject is to be read, and the message stays as it is. `clock`
/// says whether the system's clock can be read; without it no token
/// verifies.
pub open spec fn requested(
    context: AuthContext,
    clock: bool,
    now: usize,
    before: Message,
    next: Rotation,
    action: Action,
    after: Message,
) -> bool {
    if before.method != Method::Post {
        ended(next, action, Outcome::MethodNotAllowed) && refused(before, after)
    } else {
        match jar_value(before.cookies, "refresh"@) {
            None => ended(next, action, Outcome::NoCookie) && rejected(
                before,
                after,
                context.refresh.path_spec(),
            ),
            Some(token) => proceeded(
                context,
                verify_by(context.refresh.keys().public_pem(), token, now, clock),
                before,
                next,
                action,
                after,
            ),
        }
    }
}

/// Whether the record allows the claims to rotate: it holds an identifier,
/// and the claims carry the same.
pub open spec fn current(claims: ClaimsView, record: ClaimsView) -> bool {
    record.jti is Some && claims.jti == record.jti
}

/// The second step. Without an answer from the store, without a record, or
/// with a record that does not allow the claims to rotate, the request is
/// rejected. So it is where the identifier that is offered for the new
/// tokens is the one that the claims carry: the record would stay as it is,
/// and the presented token would stay good. Otherwise new tokens are made
/// and the new record is to be written; the message stays as it is, so that
/// no cookie is set before the record is written.
pub open spec fn recorded(
    context: AuthContext,
    claims: ClaimsView,
    fetched: Fetched,
    now: usize,
    token_id: Seq<char>,
    before: Message,
    next: Rotation,
    action: Action,
    after: Message,
) -> bool {
    match fetched {
        Fetched::Unavailable => ended(next, action, Outcome::StoreUnavailable) && rejected(
            before,
            after,
            context.refresh.path_spec(),
        ),
        Fetched::Missing => ended(next, action, Outcome::IdMismatch) && rejected(
            before,
            after,
            context.refresh.path_spec(),
        ),
        Fetched::Found(record) => if !current(claims, record@) {
            ended(next, action, Outcome::IdMismatch) && rejected(
                before,
                after,
                context.refresh.path_spec(),
            )
        } else if claims.jti == Some(token_id) {
            ended(next, action, Outcome::IssueFailed) && rejected(
                before,
                after,
                context.refresh.path_spec(),
            )
        } else {
            match minted_spec(context, claims, now, token_id) {
                None => ended(next, action, Outcome::IssueFailed) && rejected(
                    before,
                    after,
                    context.refresh.path_spec(),
                ),
                Some(m) => next@ == RotationView::Minted(m) && action@ == ActionView::Store(
                    claims.sub,
                    m.record,
                ) && after == before,
            }
        },
    }
}

/// The third step. Once the record is written the response succeeds; if the
/// store did not answer the request is rejected, and the new refresh token
/// is never handed out.
pub open spec fn written(
    context: AuthContext,
    minted: MintedView,
    stored: Stored,
    before: Message,
    next: Rotation,
    action: Action,
    after: Message,
) -> bool {
    match stored {
        Stored::Unavailable => ended(next, action, Outcome::StoreUnavailable) && rejected(
            before,
            after,
            context.refresh.path_spec(),
        ),
        Stored::Written => ended(next, action, Outcome::Rotated) && accepted(
            before,
            after,
            context.refresh.path_spec(),
            minted,
        ),
    }
}

/// Whether the server's report cannot follow what came before, or says
/// that the server could not go on: either ends in a rejection.
pub open spec fn broken_off(
    context: AuthContext,
    event: Event,
    before: Message,
    next: Rotation,
    action: Action,
    after: Message,
) -> bool {
    ended(
        next,
        action,
        if event is Unable {
            Outcome::Unable
        } else {
            Outcome::OutOfTurn
        },
    ) && rejected(before, after, context.refresh.path_spec())
}

/// One step of the machine: from where it stands and what the server
/// reports to where it stands next, what the server is to do, and what
/// becomes of the message. `clock` says whether the system's clock can be
/// read, which counts in the first step alone.
///
/// Before anything else the method of the request is looked at: a request
/// with another method than `POST` is refused, whatever the server
/// reports. Once the response is decided nothing changes any more. A
/// report that cannot follow what came before ends in a rejection, and so
/// does the report that the server could not go on.
pub open spec fn stepped(
    context: AuthContext,
    clock: bool,
    state: Rotation,
    event: Event,
    before: Message,
    next: Rotation,
    action: Action,
    after: Message,
) -> bool {
    match state {
        Rotation::Done(outcome) => ended(next, action, outcome) && after == before,
        Rotation::Start => if before.method != Method::Post {
            ended(next, action, Outcome::MethodNotAllowed) && refused(before, after)
        } else {
            match event {
                Event::Request { now } => requested(
                    context,
                    clock,
                    now,
                    before,
                    next,
                    action,
                    after,
                ),
                _ => broken_off(context, event, before, next, action, after),
            }
        },
        Rotation::Verified(claims) => match event {
            Event::Record { fetched, now, token_id } => recorded(
                context,
                claims@,
                fetched,
                now,
                token_id@,
                before,
                next,
                action,
                after,
            ),
            _ => broken_off(context, event, before, next, action, after),
        },
        Rotation::Minted(minted) => match event {
            Event::Written(stored) => written(context, minted@, stored, before, next, action, after),
            _ => broken_off(context, event, before, next, action, after),
        },
    }
}

/// The time that a report carries; zero for a report without time.
pub open spec fn time_of(event: Event) -> usize {
    match event {
        Event::Request { now } => now,
        Event::Record { now, .. } => now,
        _ => 0,
    }
}

/// Whether two optional strings hold the same characters, or both nothing.
pub fn same_text(a: &Option<String>, b: &Option<String>) -> (r: bool)
    ensures
        r == (text_view(*a) == text_view(*b)),
{
    match a {
        Some(x) => match b {
            Some(y) => *x == *y,
            None => false,
        },
        None => b.is_none(),
    }
}

/// The body of a successful response: see [`access_body`].
pub fn body_of(access: &str) -> (s: String)
    ensures
        s@ == access_body(access@),
{
    let mut all = json::members();
    json::put(&mut all, "access_token", json::text(access));
    let whole = json::object(all);
    proof {
        let members = Map::<Seq<char>, Json>::empty().insert("access_token"@, Json::Text(access@));
        assert forall|k: Seq<char>| #[trigger] members.contains_key(k) implies is_flat(
            members[k],
        ) by {
            assert(k == "access_token"@);
        }
    }
    json::render(&whole)
}

/// Turns the message into a rejection and ends the machine with `outcome`.
pub fn reject(context: &AuthContext, message: &mut Message, outcome: Outcome) -> (r: (
    Rotation,
    Action,
))
    ensures
        ended(r.0, r.1, outcome),
        rejected(*old(message), *final(message), context.refresh.path_spec()),
{
    message.status = 401;
    message.body = String::new();
    context.refresh.reset(message);
    (Rotation::Done(outcome), Action::Respond)
}

/// Whether what a rotation made at the time `now` for the given claims
/// holds together: the new refresh token verifies to the record, and the
/// new access token to the same claims without identifier and with the
/// expiry `now` plus the lifetime of access tokens, each until it expires.
pub open spec fn coherent(context: AuthContext, claims: ClaimsView, now: usize, m: MintedView) -> bool {
    &&& verifies_to(context.refresh.keys().public_pem(), m.refresh, m.record)
    &&& verifies_to(
        context.access.keys().public_pem(),
        m.access,
        claims.identified(None).expiring((now + context.access.lifetime_spec()) as nat),
    )
}

/// Makes the tokens and the record of a rotation: see [`minted_spec`].
///
/// What is made for valid claims with keys that belong together holds
/// together: see [`coherent`].
pub fn mint(context: &AuthContext, claims: &Claims, now: usize, token_id: &str) -> (r: Option<
    Minted,
>)
    ensures
        match r {
            Some(m) => minted_spec(*context, claims@, now, token_id@) == Some(m@),
            None => minted_spec(*context, claims@, now, token_id@) is None,
        },
        r is Some && claims@.valid() && context.paired() ==> coherent(
            *context,
            claims@,
            now,
            r->Some_0@,
        ),
{
    let fresh = Claims {
        sub: claims.sub.clone(),
        exp: claims.exp,
        ajd: AdditionalData { email: claims.ajd.email.clone() },
        jti: Some(token_id.to_owned()),
    };
    let plain = Claims {
        sub: claims.sub.clone(),
        exp: claims.exp,
        ajd: AdditionalData { email: claims.ajd.email.clone() },
        jti: None,
    };
    let exp = match clock::expiry_at(now, context.refresh.lifetime()) {
        Ok(exp) => exp,
        Err(_) => {
            return None;
        },
    };
    let record = Claims {
        sub: claims.sub.clone(),
        exp,
        ajd: AdditionalData { email: claims.ajd.email.clone() },
        jti: Some(token_id.to_owned()),
    };
    let refresh = match context.refresh.issue(fresh, now) {
        Ok(t) => t,
        Err(_) => {
            return None;
        },
    };
    let access = match context.access.issue(plain, now) {
        Ok(t) => t,
        Err(_) => {
            return None;
        },
    };
    let minted = Minted { record, refresh, access };
    proof {
        if claims@.valid() && context.paired() {
            let until = (now + context.access.lifetime_spec()) as nat;
            assert(verifies_to(
                context.access.keys().public_pem(),
                minted@.access,
                claims@.identified(None).expiring(until),
            ));
        }
    }
    Some(minted)
}

/// Turns the message into the answer to a wrong method and ends the
/// machine: see [`refused`].
pub fn refuse(message: &mut Message) -> (r: (Rotation, Action))
    ensures
        ended(r.0, r.1, Outcome::MethodNotAllowed),
        refused(*old(message), *final(message)),
{
    message.status = 405;
    message.body = String::new();
    (Rotation::Done(Outcome::MethodNotAllowed), Action::Respond)
}

/// Goes on from the verification of the refresh token: see [`proceeded`].
pub fn proceed(context: &AuthContext, verified: Result<Claims, Error>, message: &mut Message) -> (r:
    (Rotation, Action))
    ensures
        proceeded(*context, result_claims(verified), *old(message), r.0, r.1, *final(message)),
{
    match verified {
        Ok(claims) => {
            let subject = claims.sub.clone();
            (Rotation::Verified(claims), Action::Fetch(subject))
        },
        Err(e) => match e.kind() {
            ErrorKind::ClockError => reject(context, message, Outcome::Unable),
            _ => reject(context, message, Outcome::VerifyFailed),
        },
    }
}

/// The first step: see [`requested`]. The token is verified with the
/// system's clock at hand or without it, and the step is what [`requested`]
/// gives for the one or for the other.
pub fn begin(context: &AuthContext, now: usize, message: &mut Message) -> (r: (Rotation, Action))
    ensures
        requested(*context, true, now, *old(message), r.0, r.1, *final(message)) || requested(
            *context,
            false,
            now,
            *old(message),
            r.0,
            r.1,
            *final(message),
        ),
{
    match message.method {
        Method::Post => {},
        _ => {
            return refuse(message);
        },
    }
    let token = match RefreshToken::extract(message) {
        Some(t) => t,
        None => {
            return reject(context, message, Outcome::NoCookie);
        },
    };
    let verified = context.refresh.verify_at(token.as_str(), now);
    proceed(context, verified, message)
}

/// The second step: see [`recorded`].
///
/// What is made for valid claims with keys that belong together holds
/// together: see [`coherent`].
pub fn compare(
    context: &AuthContext,
    claims: Claims,
    fetched: Fetched,
    now: usize,
    token_id: String,
    message: &mut Message,
) -> (r: (Rotation, Action))
    ensures
        recorded(
            *context,
            claims@,
            fetched,
            now,
            token_id@,
            *old(message),
            r.0,
            r.1,
            *final(message),
        ),
        r.0 is Minted && claims@.valid() && context.paired() ==> coherent(
            *context,
            claims@,
            now,
            r.0->Minted_0@,
        ),
{
    let record = match fetched {
        Fetched::Found(record) => record,
        Fetched::Missing => {
            return reject(context, message, Outcome::IdMismatch);
        },
        Fetched::Unavailable => {
            return reject(context, message, Outcome::StoreUnavailable);
        },
    };
    if record.jti.is_none() || !same_text(&claims.jti, &record.jti) {
        return reject(context, message, Outcome::IdMismatch);
    }
    let repeated = match &claims.jti {
        Some(carried) => *carried == token_id,
        None => false,
    };
    if repeated {
        return reject(context, message, Outcome::IssueFailed);
    }
    match mint(context, &claims, now, token_id.as_str()) {
        Some(minted) => {
            let subject = claims.sub.clone();
            let record = minted.record.copy();
            (Rotation::Minted(minted), Action::Store(subject, record))
        },
        None => reject(context, message, Outcome::IssueFailed),
    }
}

/// The third step: see [`written`].
pub fn conclude(context: &AuthContext, minted: Minted, stored: Stored, message: &mut Message) -> (r:
    (Rotation, Action))
    ensures
        written(*context, minted@, stored, *old(message), r.0, r.1, *final(message)),
{
    match stored {
        Stored::Unavailable => reject(context, message, Outcome::StoreUnavailable),
        Stored::Written => {
            message.status = 200;
            message.body = body_of(minted.access.as_str());
            context.refresh.bind(minted.refresh.as_str(), message);
            (Rotation::Done(Outcome::Rotated), Action::Respond)
        },
    }
}

/// One step of the machine: see [`stepped`], which the step meets for the
/// system's clock at hand or without it.
///
/// Where the step makes new tokens for valid claims, with keys that belong
/// together, they hold together: see [`coherent`].
pub fn step(context: &AuthContext, state: Rotation, event: Event, message: &mut Message) -> (r: (
    Rotation,
    Action,
))
    ensures
        stepped(*context, true, state, event, *old(message), r.0, r.1, *final(message)) || stepped(
            *context,
            false,
            state,
            event,
            *old(message),
            r.0,
            r.1,
            *final(message),
        ),
        state is Verified && state->Verified_0@.valid() && context.paired() && r.0
            is Minted ==> coherent(
            *context,
            state->Verified_0@,
            time_of(event),
            r.0->Minted_0@,
        ),
{
    match state {
        Rotation::Done(outcome) => (Rotation::Done(outcome), Action::Respond),
        Rotation::Start => match message.method {
            Method::Post => match event {
                Event::Request { now } => begin(context, now, message),
                Event::Unable => reject(context, message, Outcome::Unable),
                _ => reject(context, message, Outcome::OutOfTurn),
            },
            _ => refuse(message),
        },
        Rotation::Verified(claims) => match event {
            Event::Record { fetched, now, token_id } => compare(
                context,
                claims,
                fetched,
                now,
                token_id,
                message,
            ),
            Event::Unable => reject(context, message, Outcome::Unable),
            _ => reject(context, message, Outcome::OutOfTurn),
        },
        Rotation::Minted(minted) => match event {
            Event::Written(stored) => conclude(context, minted, stored, message),
            Event::Unable => reject(context, message, Outcome::Unable),
            _ => reject(context, message, Outcome::OutOfTurn),
        },
    }
}

/// What the server reports when a request has come: the request with the
/// time, or that it cannot go on where the time could not be had.
pub fn arrived(now: Result<usize, Error>) -> (e: Event)
    ensures
        e == (match now {
            Ok(now) => Event::Request { now },
            Err(_) => Event::Unable,
        }),
{
    match now {
        Ok(now) => Event::Request { now },
        Err(_) => Event::Unable,
    }
}

/// What the server reports when the store has answered a read: the answer
/// with the time and a fresh identifier, or that it cannot go on where
/// either could not be had.
pub fn answered(fetched: Fetched, now: Result<usize, Error>, token_id: Result<String, Error>) -> (e:
    Event)
    ensures
        e == (match (now, token_id) {
            (Ok(now), Ok(token_id)) => Event::Record { fetched, now, token_id },
            _ => Event::Unable,
        }),
{
    match now {
        Ok(now) => match token_id {
            Ok(token_id) => Event::Record { fetched, now, token_id },
            Err(_) => Event::Unable,
        },
        Err(_) => Event::Unable,
    }
}

/// The report of a request that has come now, by the system's clock: see
/// [`arrived`].
pub fn arrival() -> (e: Event)
    ensures
        e is Request || e is Unable,
{
    arrived(clock::now())
}

/// The report of an answer of the store to a read, with the time by the
/// system's clock and an identifier from the system's random source: see
/// [`answered`].
pub fn answer(fetched: Fetched) -> (e: Event)
    ensures
        match e {
            Event::Record { fetched: reported, .. } => reported == fetched,
            Event::Unable => true,
            _ => false,
        },
{
    answered(fetched, clock::now(), ident::mint_token_id())
}

/// How a sign-in ends once the store has answered the write of the first
/// record: after the write the access token is handed out and the refresh
/// cookie is set; without it nothing is handed out and the message stays
/// as it is.
pub open spec fn settled(
    context: AuthContext,
    minted: MintedView,
    stored: Stored,
    before: Message,
    after: Message,
    access: Option<Seq<char>>,
) -> bool {
    match stored {
        Stored::Written => access == Some(minted.access) && refresh_set(
            before,
            after,
            context.refresh.path_spec(),
            minted.refresh,
            None,
        ),
        Stored::Unavailable => access is None && after == before,
    }
}

/// Ends a sign-in: see [`settled`].
pub fn sign_in(context: &AuthContext, minted: Minted, stored: Stored, message: &mut Message) -> (r:
    Option<String>)
    ensures
        settled(*context, minted@, stored, *old(message), *final(message), text_view(r)),
{
    match stored {
        Stored::Written => {
            context.refresh.bind(minted.refresh.as_str(), message);
            Some(minted.access)
        },
        Stored::Unavailable => None,
    }
}

} // verus!
