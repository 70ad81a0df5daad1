use grugu::link::{link_partner, link_partner_step, link_reply, LinkAction, LinkError, LinkEvent, LinkState};
use grugu::models::{DbError, Status};

fn free() -> LinkEvent {
    LinkEvent::PartnerColumn { read: Ok(Some(None)) }
}

#[test]
fn linking_with_oneself_is_refused_at_once() {
    let s = link_partner(4, 4);
    assert_eq!(s.state, LinkState::Finished);
    assert_eq!(s.action, LinkAction::Respond { outcome: Err(LinkError::SelfLink) });
    let r = link_reply(Err(LinkError::SelfLink));
    assert_eq!(r.status, Status::BadRequest);
    assert!(!r.body.success);
    assert_eq!(r.body.message, "No podés vincularte con vos mismo");
}

#[test]
fn two_free_users_are_linked_both_ways() {
    let s = link_partner(1, 2);
    assert_eq!(s.action, LinkAction::FetchPartnerOf { user_id: 1 });
    let s = link_partner_step(s.state, free());
    assert_eq!(s.action, LinkAction::FetchPartnerOf { user_id: 2 });
    let s = link_partner_step(s.state, free());
    assert_eq!(s.action, LinkAction::WritePartners { user_id: 1, partner_id: 2 });
    let s = link_partner_step(s.state, LinkEvent::PartnersWritten { first_ok: true, second_ok: true });
    assert_eq!(s.state, LinkState::Finished);
    assert_eq!(s.action, LinkAction::Respond { outcome: Ok(()) });
    let r = link_reply(Ok(()));
    assert_eq!(r.status, Status::Success);
    assert!(r.body.success);
    assert_eq!(r.body.message, "Usuarios vinculados exitosamente");
}

#[test]
fn one_failed_write_fails_the_link() {
    let s = link_partner(1, 2);
    let s = link_partner_step(s.state, free());
    let s = link_partner_step(s.state, free());
    let s2 = link_partner_step(s.state, LinkEvent::PartnersWritten { first_ok: true, second_ok: false });
    assert_eq!(s2.action, LinkAction::Respond { outcome: Err(LinkError::WriteFailed) });
    let s3 = link_partner_step(s.state, LinkEvent::PartnersWritten { first_ok: false, second_ok: true });
    assert_eq!(s3.action, LinkAction::Respond { outcome: Err(LinkError::WriteFailed) });
    let r = link_reply(Err(LinkError::WriteFailed));
    assert_eq!(r.status, Status::InternalServerError);
    assert_eq!(r.body.message, "Error al vincular usuarios");
}

#[test]
fn own_row_refusals() {
    let start = link_partner(1, 2).state;
    let cases = [
        (Err(DbError), LinkError::UserLookupFailed, Status::InternalServerError, "Error al buscar usuario"),
        (Ok(None), LinkError::UserNotFound, Status::NotFound, "Usuario no encontrado"),
        (Ok(Some(Some(9))), LinkError::AlreadyLinked, Status::BadRequest, "Ya tenés una pareja vinculada"),
    ];
    for (read, err, status, msg) in cases {
        let s = link_partner_step(start, LinkEvent::PartnerColumn { read });
        assert_eq!(s.state, LinkState::Finished);
        assert_eq!(s.action, LinkAction::Respond { outcome: Err(err) });
        let r = link_reply(Err(err));
        assert_eq!(r.status, status);
        assert!(!r.body.success);
        assert_eq!(r.body.message, msg);
    }
}

#[test]
fn partner_row_refusals() {
    let s = link_partner(1, 2);
    let waiting = link_partner_step(s.state, free()).state;
    assert_eq!(waiting, LinkState::AwaitingPartnerRow { my_id: 1, partner_id: 2 });
    let cases = [
        (Err(DbError), LinkError::PartnerLookupFailed, Status::InternalServerError, "Error al buscar el usuario a vincular"),
        (Ok(None), LinkError::PartnerNotFound, Status::NotFound, "El usuario a vincular no existe"),
        (Ok(Some(Some(1))), LinkError::PartnerAlreadyLinked, Status::BadRequest, "Ese usuario ya tiene una pareja vinculada"),
    ];
    for (read, err, status, msg) in cases {
        let s = link_partner_step(waiting, LinkEvent::PartnerColumn { read });
        assert_eq!(s.action, LinkAction::Respond { outcome: Err(err) });
        let r = link_reply(Err(err));
        assert_eq!(r.status, status);
        assert_eq!(r.body.message, msg);
    }
}
