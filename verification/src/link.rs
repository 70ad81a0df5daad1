//! `POST /link/{partner_id}`: the exchange that links the logged-in user
//! and another as partners. Each step reads what the last database call
//! returned and says what to do next.

use vstd::prelude::*;
use crate::models::{make_reply, reply_says, DbError, Reply, Status};

verus! {

/// Why two users are not linked.
#[derive(PartialEq, Eq, Structural, Clone, Copy, Debug)]
pub enum LinkError {
    /// A user cannot be their own partner.
    SelfLink,
    /// The logged-in user is not an active user.
    UserNotFound,
    /// Reading the logged-in user failed.
    UserLookupFailed,
    /// The logged-in user already has a partner.
    AlreadyLinked,
    /// The other user is not an active user.
    PartnerNotFound,
    /// Reading the other user failed.
    PartnerLookupFailed,
    /// The other user already has a partner.
    PartnerAlreadyLinked,
    /// One of the two writes failed.
    WriteFailed,
}

/// Where the exchange stands.
#[derive(PartialEq, Eq, Clone, Copy, Debug)]
pub enum LinkState {
    /// Waiting for the partner column of the logged-in user.
    AwaitingOwnRow { my_id: i32, partner_id: i32 },
    /// Waiting for the partner column of the other user.
    AwaitingPartnerRow { my_id: i32, partner_id: i32 },
    /// Waiting for the two writes.
    AwaitingWrites { my_id: i32, partner_id: i32 },
    /// The answer is given.
    Finished,
}

/// What to do next.
#[derive(PartialEq, Eq, Clone, Copy, Debug)]
pub enum LinkAction {
    /// Read the partner column of the active user `user_id`.
    FetchPartnerOf { user_id: i32 },
    /// Set the partner of `user_id` to `partner_id`, then the partner of
    /// `partner_id` to `user_id`; both writes run, whatever the first gave.
    WritePartners { user_id: i32, partner_id: i32 },
    /// Answer with this outcome.
    Respond { outcome: Result<(), LinkError> },
}

/// What the last database call returned.
#[derive(PartialEq, Eq, Clone, Copy, Debug)]
pub enum LinkEvent {
    /// The read of a partner column: `Ok(None)` when no active user has
    /// that id, `Ok(Some(None))` when the user has no partner.
    PartnerColumn { read: Result<Option<Option<i32>>, DbError> },
    /// Whether each of the two writes succeeded.
    PartnersWritten { first_ok: bool, second_ok: bool },
}

/// A new state and the action it asks for.
#[derive(PartialEq, Eq, Clone, Copy, Debug)]
pub struct LinkStep {
    pub state: LinkState,
    pub action: LinkAction,
}

/// The step that gives the answer `outcome`.
pub open spec fn finish(outcome: Result<(), LinkError>) -> LinkStep {
    LinkStep { state: LinkState::Finished, action: LinkAction::Respond { outcome } }
}

/// How the exchange opens: a user cannot link with themselves; otherwise
/// their own row is read first.
pub open spec fn link_begin(my_id: i32, partner_id: i32) -> LinkStep {
    if my_id == partner_id {
        finish(Err(LinkError::SelfLink))
    } else {
        LinkStep {
            state: LinkState::AwaitingOwnRow { my_id, partner_id },
            action: LinkAction::FetchPartnerOf { user_id: my_id },
        }
    }
}

/// Whether `state` waits for an event of the kind of `event`.
pub open spec fn link_accepts(state: LinkState, event: LinkEvent) -> bool {
    match state {
        LinkState::AwaitingOwnRow { .. } => event is PartnerColumn,
        LinkState::AwaitingPartnerRow { .. } => event is PartnerColumn,
        LinkState::AwaitingWrites { .. } => event is PartnersWritten,
        LinkState::Finished => false,
    }
}

/// One step of the exchange: each read must find an active user without a
/// partner, or the exchange answers with the matching refusal; the link
/// succeeds exactly when both writes do.
pub open spec fn link_advance(state: LinkState, event: LinkEvent) -> LinkStep
    recommends
        link_accepts(state, event),
{
    match state {
        LinkState::AwaitingOwnRow { my_id, partner_id } => match event {
            LinkEvent::PartnerColumn { read } => match read {
                Err(_) => finish(Err(LinkError::UserLookupFailed)),
                Ok(None) => finish(Err(LinkError::UserNotFound)),
                Ok(Some(Some(_))) => finish(Err(LinkError::AlreadyLinked)),
                Ok(Some(None)) => LinkStep {
                    state: LinkState::AwaitingPartnerRow { my_id, partner_id },
                    action: LinkAction::FetchPartnerOf { user_id: partner_id },
                },
            },
            LinkEvent::PartnersWritten { .. } => finish(Err(LinkError::WriteFailed)),
        },
        LinkState::AwaitingPartnerRow { my_id, partner_id } => match event {
            LinkEvent::PartnerColumn { read } => match read {
                Err(_) => finish(Err(LinkError::PartnerLookupFailed)),
                Ok(None) => finish(Err(LinkError::PartnerNotFound)),
                Ok(Some(Some(_))) => finish(Err(LinkError::PartnerAlreadyLinked)),
                Ok(Some(None)) => LinkStep {
                    state: LinkState::AwaitingWrites { my_id, partner_id },
                    action: LinkAction::WritePartners { user_id: my_id, partner_id },
                },
            },
            LinkEvent::PartnersWritten { .. } => finish(Err(LinkError::WriteFailed)),
        },
        LinkState::AwaitingWrites { .. } => match event {
            LinkEvent::PartnersWritten { first_ok, second_ok } => if first_ok && second_ok {
                finish(Ok(()))
            } else {
                finish(Err(LinkError::WriteFailed))
            },
            LinkEvent::PartnerColumn { .. } => finish(Err(LinkError::WriteFailed)),
        },
        LinkState::Finished => finish(Err(LinkError::WriteFailed)),
    }
}

/// Whether `state` waits for an event of the kind of `event`.
pub fn link_accepts_event(state: LinkState, event: LinkEvent) -> (b: bool)
    ensures
        b == link_accepts(state, event),
{
    match state {
        LinkState::AwaitingOwnRow { .. } => matches!(event, LinkEvent::PartnerColumn { .. }),
        LinkState::AwaitingPartnerRow { .. } => matches!(event, LinkEvent::PartnerColumn { .. }),
        LinkState::AwaitingWrites { .. } => matches!(event, LinkEvent::PartnersWritten { .. }),
        LinkState::Finished => false,
    }
}

/// `POST /link/{partner_id}` by the session of user `my_id`: the first step.
pub fn link_partner(my_id: i32, partner_id: i32) -> (s: LinkStep)
    ensures
        s == link_begin(my_id, partner_id),
{
    if my_id == partner_id {
        LinkStep {
            state: LinkState::Finished,
            action: LinkAction::Respond { outcome: Err(LinkError::SelfLink) },
        }
    } else {
        LinkStep {
            state: LinkState::AwaitingOwnRow { my_id, partner_id },
            action: LinkAction::FetchPartnerOf { user_id: my_id },
        }
    }
}

/// The next step of the exchange, given what the last action returned.
pub fn link_partner_step(state: LinkState, event: LinkEvent) -> (s: LinkStep)
    requires
        link_accepts(state, event),
    ensures
        s == link_advance(state, event),
{
    let done = |outcome: Result<(), LinkError>| -> (s: LinkStep)
        ensures
            s == finish(outcome),
        { LinkStep { state: LinkState::Finished, action: LinkAction::Respond { outcome } } };
    match state {
        LinkState::AwaitingOwnRow { my_id, partner_id } => match event {
            LinkEvent::PartnerColumn { read } => match read {
                Err(_) => done(Err(LinkError::UserLookupFailed)),
                Ok(None) => done(Err(LinkError::UserNotFound)),
                Ok(Some(Some(_))) => done(Err(LinkError::AlreadyLinked)),
                Ok(Some(None)) => LinkStep {
                    state: LinkState::AwaitingPartnerRow { my_id, partner_id },
                    action: LinkAction::FetchPartnerOf { user_id: partner_id },
                },
            },
            LinkEvent::PartnersWritten { .. } => done(Err(LinkError::WriteFailed)),
        },
        LinkState::AwaitingPartnerRow { my_id, partner_id } => match event {
            LinkEvent::PartnerColumn { read } => match read {
                Err(_) => done(Err(LinkError::PartnerLookupFailed)),
                Ok(None) => done(Err(LinkError::PartnerNotFound)),
                Ok(Some(Some(_))) => done(Err(LinkError::PartnerAlreadyLinked)),
                Ok(Some(None)) => LinkStep {
                    state: LinkState::AwaitingWrites { my_id, partner_id },
                    action: LinkAction::WritePartners { user_id: my_id, partner_id },
                },
            },
            LinkEvent::PartnersWritten { .. } => done(Err(LinkError::WriteFailed)),
        },
        LinkState::AwaitingWrites { .. } => match event {
            LinkEvent::PartnersWritten { first_ok, second_ok } => if first_ok && second_ok {
                done(Ok(()))
            } else {
                done(Err(LinkError::WriteFailed))
            },
            LinkEvent::PartnerColumn { .. } => done(Err(LinkError::WriteFailed)),
        },
        LinkState::Finished => done(Err(LinkError::WriteFailed)),
    }
}

/// The status and message of each outcome of the exchange.
pub open spec fn link_answer(outcome: Result<(), LinkError>) -> (Status, Seq<char>) {
    match outcome {
        Ok(()) => (Status::Success, "Usuarios vinculados exitosamente"@),
        Err(LinkError::SelfLink) => (Status::BadRequest, "No podés vincularte con vos mismo"@),
        Err(LinkError::UserNotFound) => (Status::NotFound, "Usuario no encontrado"@),
        Err(LinkError::UserLookupFailed) => (Status::InternalServerError, "Error al buscar usuario"@),
        Err(LinkError::AlreadyLinked) => (Status::BadRequest, "Ya tenés una pareja vinculada"@),
        Err(LinkError::PartnerNotFound) => (Status::NotFound, "El usuario a vincular no existe"@),
        Err(LinkError::PartnerLookupFailed) => (
            Status::InternalServerError,
            "Error al buscar el usuario a vincular"@,
        ),
        Err(LinkError::PartnerAlreadyLinked) => (
            Status::BadRequest,
            "Ese usuario ya tiene una pareja vinculada"@,
        ),
        Err(LinkError::WriteFailed) => (Status::InternalServerError, "Error al vincular usuarios"@),
    }
}

/// The answer that ends the exchange.
pub fn link_reply(outcome: Result<(), LinkError>) -> (r: Reply)
    ensures
        reply_says(r, link_answer(outcome).0, link_answer(outcome).1),
{
    match outcome {
        Ok(()) => make_reply(Status::Success, "Usuarios vinculados exitosamente"),
        Err(LinkError::SelfLink) => make_reply(Status::BadRequest, "No podés vincularte con vos mismo"),
        Err(LinkError::UserNotFound) => make_reply(Status::NotFound, "Usuario no encontrado"),
        Err(LinkError::UserLookupFailed) => make_reply(
            Status::InternalServerError,
            "Error al buscar usuario",
        ),
        Err(LinkError::AlreadyLinked) => make_reply(Status::BadRequest, "Ya tenés una pareja vinculada"),
        Err(LinkError::PartnerNotFound) => make_reply(
            Status::NotFound,
            "El usuario a vincular no existe",
        ),
        Err(LinkError::PartnerLookupFailed) => make_reply(
            Status::InternalServerError,
            "Error al buscar el usuario a vincular",
        ),
        Err(LinkError::PartnerAlreadyLinked) => make_reply(
            Status::BadRequest,
            "Ese usuario ya tiene una pareja vinculada",
        ),
        Err(LinkError::WriteFailed) => make_reply(
            Status::InternalServerError,
            "Error al vincular usuarios",
        ),
    }
}

} // verus!
