//! Properties that hold across the library's functions and calls.

use vstd::prelude::*;
use crate::handlers::{login_verdict, LoginError};
use crate::link::{link_accepts, link_advance, link_begin, LinkAction, LinkError, LinkEvent, LinkState, LinkStep};
use crate::password::bcrypt_verify_outcome;
use crate::text::{bearer_prefix, has_bearer_prefix, is_blank_seq, is_white_space};
use crate::handlers::{profile_problem, ProfileError};
use crate::models::{shows_row, PublicUser, UserRow};
use crate::db::{sqlite_url_of, with_forward_slashes};

verus! {

/// Where the partner-linking exchange stands after `events`, fed one
/// after the other from its first step.
pub open spec fn link_run(my_id: i32, partner_id: i32, events: Seq<LinkEvent>) -> LinkStep
    decreases events.len(),
{
    if events.len() == 0 {
        link_begin(my_id, partner_id)
    } else {
        link_advance(link_run(my_id, partner_id, events.drop_last()).state, events.last())
    }
}

/// Every event of `events` is of the kind the exchange waited for.
pub open spec fn link_well_driven(my_id: i32, partner_id: i32, events: Seq<LinkEvent>) -> bool
    decreases events.len(),
{
    events.len() == 0 || (link_well_driven(my_id, partner_id, events.drop_last()) && link_accepts(
        link_run(my_id, partner_id, events.drop_last()).state,
        events.last(),
    ))
}

/// The read of an active user who has no partner.
pub open spec fn free_user_row() -> LinkEvent {
    LinkEvent::PartnerColumn { read: Ok(Some(None)) }
}

/// The shape of every exchange: it takes at most three events, the state
/// after each is fixed, and it reads the two users in turn.
pub proof fn lemma_link_shape(my_id: i32, partner_id: i32, events: Seq<LinkEvent>)
    requires
        link_well_driven(my_id, partner_id, events),
    ensures
        events.len() <= 3,
        ({
            let st = link_run(my_id, partner_id, events).state;
            &&& events.len() == 0 ==> (st == LinkState::AwaitingOwnRow { my_id, partner_id }
                || st == LinkState::Finished)
            &&& events.len() == 1 ==> (st == LinkState::AwaitingPartnerRow { my_id, partner_id }
                || st == LinkState::Finished)
            &&& events.len() == 2 ==> (st == LinkState::AwaitingWrites { my_id, partner_id }
                || st == LinkState::Finished)
            &&& events.len() == 3 ==> st == LinkState::Finished
        }),
    decreases events.len(),
{
    if events.len() > 0 {
        lemma_link_shape(my_id, partner_id, events.drop_last());
    }
}

/// Two users are written as each other's partners only when they are
/// distinct, and the reads found both active and without a partner; the
/// writes link them both ways. Conversely, such reads always lead to the
/// writes.
pub proof fn lemma_link_writes_only_free_pairs(my_id: i32, partner_id: i32, events: Seq<LinkEvent>)
    requires
        link_well_driven(my_id, partner_id, events),
    ensures
        link_run(my_id, partner_id, events).action is WritePartners <==> (my_id != partner_id
            && events.len() == 2 && events[0] == free_user_row() && events[1] == free_user_row()),
        link_run(my_id, partner_id, events).action is WritePartners ==> link_run(
            my_id,
            partner_id,
            events,
        ).action == (LinkAction::WritePartners { user_id: my_id, partner_id }),
{
    reveal_with_fuel(link_run, 4);
    reveal_with_fuel(link_well_driven, 4);
    lemma_link_shape(my_id, partner_id, events);
    if events.len() >= 1 {
        lemma_link_shape(my_id, partner_id, events.drop_last());
    }
    if events.len() >= 2 {
        lemma_link_shape(my_id, partner_id, events.drop_last().drop_last());
        assert(events.drop_last()[0] == events[0]);
        assert(events.drop_last().last() == events[0]);
    }
}

/// The exchange answers with success only after both writes of a pair of
/// free users succeeded.
pub proof fn lemma_link_success_needs_both_writes(my_id: i32, partner_id: i32, events: Seq<LinkEvent>)
    requires
        link_well_driven(my_id, partner_id, events),
    ensures
        link_run(my_id, partner_id, events).action == (LinkAction::Respond { outcome: Ok(()) })
            <==> (my_id != partner_id && events.len() == 3 && events[0] == free_user_row()
            && events[1] == free_user_row() && events[2] == (LinkEvent::PartnersWritten {
            first_ok: true,
            second_ok: true,
        })),
{
    reveal_with_fuel(link_run, 5);
    reveal_with_fuel(link_well_driven, 5);
    lemma_link_shape(my_id, partner_id, events);
    if events.len() == 3 {
        let e2 = events.drop_last();
        lemma_link_shape(my_id, partner_id, e2);
        lemma_link_writes_only_free_pairs(my_id, partner_id, e2);
        assert(e2[0] == events[0]);
        assert(e2[1] == events[1]);
    }
}

/// A user asking to be linked with themselves is refused before any
/// database work.
pub proof fn lemma_link_self_refused(my_id: i32)
    ensures
        link_begin(my_id, my_id).action == (LinkAction::Respond {
            outcome: Err(LinkError::SelfLink),
        }),
        link_begin(my_id, my_id).state == LinkState::Finished,
{
}

/// A header that the layer accepts is exactly the scheme followed by the
/// token it hands on: one `Bearer ` is removed, nothing more.
pub proof fn lemma_bearer_header_is_scheme_and_token(header: Seq<char>)
    requires
        has_bearer_prefix(header),
    ensures
        bearer_prefix() + header.skip(7) == header,
        header.skip(7).len() + 7 == header.len(),
{
    assert(bearer_prefix() + header.skip(7) =~= header);
}

/// The header a client builds from a token it was given, `Bearer ` and the
/// token, is accepted by the layer and hands on exactly that token.
pub proof fn lemma_bearer_header_of_token(token: Seq<char>)
    ensures
        has_bearer_prefix(bearer_prefix() + token),
        (bearer_prefix() + token).skip(7) == token,
{
    assert((bearer_prefix() + token).take(7) =~= bearer_prefix());
    assert((bearer_prefix() + token).skip(7) =~= token);
}

/// A password that was registered opens a session: the hash stored at
/// registration verifies against it, and a login whose check comes out
/// true belongs to the stored user. Any other check outcome refuses the
/// login as a wrong password.
pub proof fn lemma_registered_password_opens_session(user_id: i32, password: Seq<char>, hash: Seq<char>)
    ensures
        bcrypt_verify_outcome(password, hash) == Some(true) ==> login_verdict(
            user_id,
            bcrypt_verify_outcome(password, hash),
        ) == Ok::<i32, LoginError>(user_id),
        bcrypt_verify_outcome(password, hash) != Some(true) ==> login_verdict(
            user_id,
            bcrypt_verify_outcome(password, hash),
        ) == Err::<i32, LoginError>(LoginError::WrongPassword),
{
}

/// The exchange reads the logged-in user's row first and the other user's
/// row second, and reads nothing after that: the writes are asked for only
/// once `partner_id`'s own row was read.
pub proof fn lemma_link_reads_each_user_in_turn(my_id: i32, partner_id: i32, events: Seq<LinkEvent>)
    requires
        link_well_driven(my_id, partner_id, events),
    ensures
        events.len() == 0 && link_run(my_id, partner_id, events).action is FetchPartnerOf
            ==> link_run(my_id, partner_id, events).action == (LinkAction::FetchPartnerOf {
            user_id: my_id,
        }),
        events.len() == 1 && link_run(my_id, partner_id, events).action is FetchPartnerOf
            ==> link_run(my_id, partner_id, events).action == (LinkAction::FetchPartnerOf {
            user_id: partner_id,
        }),
        events.len() >= 2 ==> !(link_run(my_id, partner_id, events).action is FetchPartnerOf),
        my_id != partner_id ==> link_begin(my_id, partner_id).action == (LinkAction::FetchPartnerOf {
            user_id: my_id,
        }),
        my_id != partner_id ==> link_advance(
            LinkState::AwaitingOwnRow { my_id, partner_id },
            free_user_row(),
        ).action == (LinkAction::FetchPartnerOf { user_id: partner_id }),
{
    reveal_with_fuel(link_run, 4);
    reveal_with_fuel(link_well_driven, 4);
    lemma_link_shape(my_id, partner_id, events);
    if events.len() >= 1 {
        lemma_link_shape(my_id, partner_id, events.drop_last());
    }
    if events.len() >= 2 {
        lemma_link_shape(my_id, partner_id, events.drop_last().drop_last());
    }
}

/// A name is refused as empty exactly when `trim` leaves nothing of it:
/// a string with any character outside the Unicode `White_Space` set is
/// not blank, one made only of white space is, and blankness of a
/// concatenation is blankness of both parts.
pub proof fn lemma_blank_is_only_white_space(s: Seq<char>, t: Seq<char>, i: int)
    ensures
        0 <= i < s.len() && !is_white_space(s[i]) ==> !is_blank_seq(s),
        (forall|j: int| 0 <= j < s.len() ==> is_white_space(#[trigger] s[j])) ==> is_blank_seq(s),
        is_blank_seq(s + t) == (is_blank_seq(s) && is_blank_seq(t)),
        is_blank_seq(Seq::<char>::empty()),
        forall|age: u8, years: u8|
            (#[trigger] profile_problem(s, age, years) == Some(ProfileError::EmptyName)) <==> (
            forall|j: int| 0 <= j < s.len() ==> is_white_space(#[trigger] s[j])),
{
    if is_blank_seq(s) && is_blank_seq(t) {
        assert forall|j: int| 0 <= j < (s + t).len() implies is_white_space(#[trigger] (s + t)[j]) by {
            if j < s.len() {
                assert((s + t)[j] == s[j]);
            } else {
                assert((s + t)[j] == t[j - s.len()]);
            }
        }
    }
    if is_blank_seq(s + t) {
        assert forall|j: int| 0 <= j < s.len() implies is_white_space(#[trigger] s[j]) by {
            assert((s + t)[j] == s[j]);
        }
        assert forall|j: int| 0 <= j < t.len() implies is_white_space(#[trigger] t[j]) by {
            assert((s + t)[j + s.len()] == t[j]);
        }
    }
}

/// Which characters count as white space: the ASCII tab, line feed,
/// vertical tab, form feed, carriage return and space do; no ASCII letter
/// or digit does, nor any character past U+3000 (so names in Cyrillic,
/// Greek, Han and other scripts are never blank).
pub proof fn lemma_white_space_characters(c: char)
    ensures
        c == ' ' || c == '\t' || c == '\n' || c == '\r' || c == '\u{0b}' || c == '\u{0c}' ==> is_white_space(c),
        ('0' <= c <= '9' || 'a' <= c <= 'z' || 'A' <= c <= 'Z') ==> !is_white_space(c),
        (c as u32) > 0x3000 ==> !is_white_space(c),
        (0x0100 <= (c as u32) < 0x1680) ==> !is_white_space(c),
{
}

/// The public view of a row shows the stored name unchanged, and an age or
/// relationship length that fits in a byte unchanged.
pub proof fn lemma_public_view_shows_stored_fields(u: PublicUser, row: UserRow)
    requires
        shows_row(u, row),
    ensures
        u.name@ == row.name@,
        u.name@.len() == row.name@.len(),
        0 <= row.age <= 255 ==> u.age as int == row.age as int,
        0 <= row.relationship_years <= 255 ==> u.relationship_years as int == row.relationship_years as int,
{
}

/// The database URL keeps every character of the path except a backslash,
/// which becomes `/`: the URL is `sqlite:`, then the path character by
/// character, then `?mode=rwc`; a path without backslashes appears as it is.
pub proof fn lemma_sqlite_url_keeps_path(p: Seq<char>)
    ensures
        with_forward_slashes(p).len() == p.len(),
        forall|i: int| 0 <= i < p.len() && p[i] != '\\' ==> #[trigger] with_forward_slashes(p)[i] == p[i],
        forall|i: int| 0 <= i < p.len() && p[i] == '\\' ==> #[trigger] with_forward_slashes(p)[i] == '/',
        sqlite_url_of(p).len() == p.len() + 16,
        sqlite_url_of(p).take(7) == "sqlite:"@,
        sqlite_url_of(p).skip(7 + p.len() as int) == "?mode=rwc"@,
        forall|i: int| 0 <= i < p.len() && p[i] != '\\' ==> #[trigger] sqlite_url_of(p)[7 + i] == p[i],
        (forall|i: int| 0 <= i < p.len() ==> p[i] != '\\') ==> sqlite_url_of(p) == "sqlite:"@ + p
            + "?mode=rwc"@,
{
    reveal_strlit("sqlite:");
    reveal_strlit("?mode=rwc");
    let w = with_forward_slashes(p);
    let u = sqlite_url_of(p);
    assert(u.take(7) =~= "sqlite:"@);
    assert(u.skip(7 + p.len() as int) =~= "?mode=rwc"@);
    assert forall|i: int| 0 <= i < p.len() && p[i] != '\\' implies #[trigger] u[7 + i] == p[i] by {
        assert(u[7 + i] == w[i]);
    }
    if forall|i: int| 0 <= i < p.len() ==> p[i] != '\\' {
        assert(w =~= p);
    }
}

} // verus!
