//! What holds of the crate as a whole, proved from the contracts of its
//! functions.
//!
//! Where a law speaks of a step of the rotation, `clock` says whether the
//! system's clock could be read in that step. The laws hold either way.

use crate::auth::authentic;
use crate::auth::refresh_cookie;
use crate::auth::verify_by;
use crate::auth::verify_spec;
use crate::auth::AuthContext;
use crate::auth::Token;
use crate::claims::Claims;
use crate::cookies::jar_changes;
use crate::cookies::jar_value;
use crate::cookies::lines_of;
use crate::cookies::set_cookie_line;
use crate::message::Message;
use crate::message::Method;
use crate::rotation::clearing;
use crate::rotation::rejected;
use crate::rotation::stepped;
use crate::rotation::Action;
use crate::rotation::ActionView;
use crate::rotation::Event;
use crate::rotation::Fetched;
use crate::rotation::Outcome;
use crate::rotation::Rotation;
use crate::rotation::RotationView;
use crate::rotation::Stored;
use vstd::prelude::*;

verus! {

/// Claims that come out of a verification expire after the time of the
/// verification. So a token whose claims expire at that time or before it
/// never verifies, whatever its signature.
pub proof fn law_verified_claims_are_unexpired(public: Seq<char>, token: Seq<char>, now: usize)
    ensures
        verify_spec(public, token, now) matches Ok(c) ==> c.exp > now,
{
}

/// Claims that a verification gives are valid: they name a subject.
pub proof fn law_verified_claims_are_valid(public: Seq<char>, token: Seq<char>, now: usize)
    ensures
        verify_spec(public, token, now) matches Ok(c) ==> c.valid(),
{
}

/// A request whose access token fails for one reason is authenticated no
/// differently from one whose token fails for another: both have no claims,
/// and that is all that is said of them.
pub proof fn law_authentication_hides_the_reason(
    first: Seq<char>,
    clock_first: bool,
    second: Seq<char>,
    clock_second: bool,
    public: Seq<char>,
    now: usize,
)
    requires
        verify_by(public, first, now, clock_first) is Err,
        verify_by(public, second, now, clock_second) is Err,
    ensures
        authentic(Some("Bearer "@ + first), public, now, clock_first) == authentic(
            Some("Bearer "@ + second),
            public,
            now,
            clock_second,
        ),
        authentic(Some("Bearer "@ + first), public, now, clock_first) is None,
{
    reveal_strlit("Bearer ");
    assert(("Bearer "@ + first).subrange(7, ("Bearer "@ + first).len() as int) =~= first);
    assert(("Bearer "@ + second).subrange(7, ("Bearer "@ + second).len() as int) =~= second);
}

/// Two refresh requests whose tokens fail to verify, for whatever reasons,
/// are answered alike: both are rejected, with the same status and body and
/// the same change to the refresh cookie. An expired token is told nothing
/// that a forged one is not.
pub proof fn law_failed_tokens_are_answered_alike(
    context: AuthContext,
    now: usize,
    clock_a: bool,
    before_a: Message,
    next_a: Rotation,
    action_a: Action,
    after_a: Message,
    clock_b: bool,
    before_b: Message,
    next_b: Rotation,
    action_b: Action,
    after_b: Message,
)
    requires
        before_a.method == Method::Post,
        before_b.method == Method::Post,
        jar_value(before_a.cookies, "refresh"@) matches Some(t) && verify_by(
            context.refresh.keys().public_pem(),
            t,
            now,
            clock_a,
        ) is Err,
        jar_value(before_b.cookies, "refresh"@) matches Some(t) && verify_by(
            context.refresh.keys().public_pem(),
            t,
            now,
            clock_b,
        ) is Err,
        jar_changes(before_a.cookies) == jar_changes(before_b.cookies),
        stepped(
            context,
            clock_a,
            Rotation::Start,
            Event::Request { now },
            before_a,
            next_a,
            action_a,
            after_a,
        ),
        stepped(
            context,
            clock_b,
            Rotation::Start,
            Event::Request { now },
            before_b,
            next_b,
            action_b,
            after_b,
        ),
    ensures
        next_a@ is Done && next_a@->Done_0.is_rejection(),
        next_b@ is Done && next_b@->Done_0.is_rejection(),
        clock_a && clock_b ==> next_a@ == RotationView::Done(Outcome::VerifyFailed) && next_a@
            == next_b@,
        action_a@ == action_b@,
        after_a.status == after_b.status,
        after_a.body@ == after_b.body@,
        jar_changes(after_a.cookies) == jar_changes(after_b.cookies),
{
}

/// A refresh token rotates once. After a rotation that wrote a record, the
/// record carries a new identifier, which is not the one of the token that
/// was presented: presenting that token again ends in a rejection for its
/// identifier.
pub proof fn law_rotation_is_single_use(
    context: AuthContext,
    presented: Claims,
    clock: bool,
    found: Claims,
    now: usize,
    token_id: String,
    before: Message,
    next: Rotation,
    action: Action,
    after: Message,
    clock_again: bool,
    found_again: Claims,
    now_again: usize,
    token_id_again: String,
    before_again: Message,
    next_again: Rotation,
    action_again: Action,
    after_again: Message,
)
    requires
        stepped(
            context,
            clock,
            Rotation::Verified(presented),
            Event::Record { fetched: Fetched::Found(found), now, token_id },
            before,
            next,
            action,
            after,
        ),
        action@ is Store,
        found_again@ == action@->Store_1,
        stepped(
            context,
            clock_again,
            Rotation::Verified(presented),
            Event::Record {
                fetched: Fetched::Found(found_again),
                now: now_again,
                token_id: token_id_again,
            },
            before_again,
            next_again,
            action_again,
            after_again,
        ),
    ensures
        found_again@.jti == Some(token_id@),
        found_again@.jti != presented@.jti,
        next_again@ == RotationView::Done(Outcome::IdMismatch),
        action_again@ == ActionView::Respond,
        rejected(before_again, after_again, context.refresh.path_spec()),
{
}

/// A token whose claims are the record rotates: new tokens are made, the
/// record that is to be written carries the identifier that was offered,
/// which is another than the token's, and nothing is answered before the
/// store has answered the write. The one way out is a rejection because
/// the new tokens cannot be issued or the identifier is not new.
pub proof fn law_current_token_rotates(
    context: AuthContext,
    clock: bool,
    presented: Claims,
    found: Claims,
    now: usize,
    token_id: String,
    before: Message,
    next: Rotation,
    action: Action,
    after: Message,
)
    requires
        presented@ == found@,
        found@.jti is Some,
        stepped(
            context,
            clock,
            Rotation::Verified(presented),
            Event::Record { fetched: Fetched::Found(found), now, token_id },
            before,
            next,
            action,
            after,
        ),
    ensures
        next@ is Minted || next@ == RotationView::Done(Outcome::IssueFailed),
        next@ is Minted ==> action@ == ActionView::Store(presented@.sub, next@->Minted_0.record)
            && next@->Minted_0.record.jti == Some(token_id@) && next@->Minted_0.record.jti
            != presented@.jti && next@->Minted_0.record.sub == presented@.sub
            && next@->Minted_0.record.email == presented@.email && after == before,
        next@ is Done ==> rejected(before, after, context.refresh.path_spec()),
{
}

/// Claims without identifier never rotate, whatever is on record. So an
/// access token, which carries none, is of no use at the refresh endpoint,
/// even if it were to verify there.
pub proof fn law_claims_without_identifier_never_rotate(
    context: AuthContext,
    clock: bool,
    presented: Claims,
    fetched: Fetched,
    now: usize,
    token_id: String,
    before: Message,
    next: Rotation,
    action: Action,
    after: Message,
)
    requires
        presented@.jti is None,
        stepped(
            context,
            clock,
            Rotation::Verified(presented),
            Event::Record { fetched, now, token_id },
            before,
            next,
            action,
            after,
        ),
    ensures
        next@ is Done,
        next@->Done_0 == Outcome::IdMismatch || next@->Done_0 == Outcome::StoreUnavailable,
        action@ == ActionView::Respond,
        rejected(before, after, context.refresh.path_spec()),
{
}

/// Every step that ends in a rejection answers `401` and clears the refresh
/// cookie: the response sets it to the empty value with an age of zero
/// seconds, whatever the cookie was before. This holds for a missing
/// cookie, a token that fails, an identifier that does not match, a store
/// that does not answer, be it the read or the write, and a server that
/// cannot go on.
pub proof fn law_rejection_clears_the_cookie(
    context: AuthContext,
    clock: bool,
    state: Rotation,
    event: Event,
    before: Message,
    next: Rotation,
    action: Action,
    after: Message,
    lines: Seq<String>,
)
    requires
        stepped(context, clock, state, event, before, next, action, after),
        !(state is Done),
        next@ is Done,
        next@->Done_0.is_rejection(),
        lines_of(lines, jar_changes(after.cookies)),
    ensures
        after.status == 401,
        after.body@ == Seq::<char>::empty(),
        jar_changes(after.cookies).contains_key("refresh"@),
        jar_changes(after.cookies)["refresh"@] == clearing(context.refresh.path_spec()),
        exists|i: int|
            0 <= i < lines.len() && (#[trigger] lines[i])@ == set_cookie_line(
                refresh_cookie(context.refresh.path_spec(), Seq::empty(), Some(0nat)),
            ),
{
    assert(rejected(before, after, context.refresh.path_spec()));
    assert(jar_changes(after.cookies).contains_key("refresh"@));
}

/// A request without refresh cookie is turned away at once: the first step
/// ends the machine, and the server is never told to read the store.
pub proof fn law_no_cookie_means_no_read(
    context: AuthContext,
    clock: bool,
    now: usize,
    before: Message,
    next: Rotation,
    action: Action,
    after: Message,
)
    requires
        before.method == Method::Post,
        jar_value(before.cookies, "refresh"@) is None,
        stepped(
            context,
            clock,
            Rotation::Start,
            Event::Request { now },
            before,
            next,
            action,
            after,
        ),
    ensures
        next@ == RotationView::Done(Outcome::NoCookie),
        action@ == ActionView::Respond,
        after.status == 401,
{
}

/// Only the step that hears that the record is written sets the refresh
/// cookie to a token. Every other step leaves the changes to the cookies as
/// they were or clears the refresh cookie.
pub proof fn law_a_cookie_is_set_after_the_write_only(
    context: AuthContext,
    clock: bool,
    state: Rotation,
    event: Event,
    before: Message,
    next: Rotation,
    action: Action,
    after: Message,
)
    requires
        stepped(context, clock, state, event, before, next, action, after),
        !(state is Minted && event == Event::Written(Stored::Written)),
    ensures
        jar_changes(after.cookies) == jar_changes(before.cookies) || jar_changes(after.cookies)
            == jar_changes(before.cookies).insert(
            "refresh"@,
            clearing(context.refresh.path_spec()),
        ),
{
}

} // verus!
