use grugu::handlers::{
    add_mood, add_mood_reply, authorize, bearer_token, check_profile, delete_user, delete_user_reply,
    get_user, list_users, login, login_outcome, register, register_refusal, register_reply, root,
    update_user, update_user_reply, AuthError, Credentials, Deactivation, LoginError, ProfileError,
    RegisterError, TokenRejected,
};
use grugu::models::{Claims, DbError, LoginRequest, MoodRequest, Reply, Status, User, UserRow};
use grugu::session::{jwt_secret, session_at, session_claims, start_session, timestamp_of_reading};

fn user(name: &str, age: u8, years: u8, password: &str) -> User {
    User { name: name.to_string(), age, relationship_years: years, password: password.to_string() }
}

fn says(r: &Reply, status: Status, message: &str) {
    assert_eq!(r.status, status);
    assert_eq!(r.body.success, status == Status::Success);
    assert_eq!(r.body.message, message);
}

#[test]
fn root_reports_the_service() {
    let s = root();
    assert_eq!(s.name, "Grugu API");
    assert_eq!(s.status, "Running");
    assert_eq!(s.version, "0.1.0");
}

#[test]
fn status_codes() {
    assert_eq!(Status::Success.code(), 200);
    assert_eq!(Status::BadRequest.code(), 400);
    assert_eq!(Status::Unauthorized.code(), 401);
    assert_eq!(Status::Forbidden.code(), 403);
    assert_eq!(Status::NotFound.code(), 404);
    assert_eq!(Status::InternalServerError.code(), 500);
}

#[test]
fn profile_rules_in_order() {
    assert_eq!(check_profile(&user("  ", 0, 200, "p")), Some(ProfileError::EmptyName));
    assert_eq!(check_profile(&user("Ana", 0, 200, "p")), Some(ProfileError::ZeroAge));
    assert_eq!(check_profile(&user("Ana", 30, 101, "p")), Some(ProfileError::InvalidRelationshipYears));
    assert_eq!(check_profile(&user("Ana", 30, 100, "p")), None);
    assert_eq!(check_profile(&user("Ana", 1, 0, "p")), None);
}

#[test]
fn register_refuses_bad_profiles_with_their_messages() {
    assert!(matches!(register(&user("\t", 20, 2, "pw")), Err(RegisterError::Invalid(ProfileError::EmptyName))));
    assert!(matches!(register(&user("Ana", 0, 2, "pw")), Err(RegisterError::Invalid(ProfileError::ZeroAge))));
    assert!(matches!(
        register(&user("Ana", 20, 150, "pw")),
        Err(RegisterError::Invalid(ProfileError::InvalidRelationshipYears))
    ));
    says(&register_refusal(ProfileError::EmptyName), Status::BadRequest, "el nombre no puede estar vacío.");
    says(&register_refusal(ProfileError::ZeroAge), Status::BadRequest, "La edad debe ser mayor a 0");
    says(
        &register_refusal(ProfileError::InvalidRelationshipYears),
        Status::BadRequest,
        "El valor de años en pareja no es válido",
    );
}

#[test]
fn registered_password_opens_a_session() {
    let row = match register(&user("Ana", 30, 5, "secreta")) {
        Ok(row) => row,
        Err(_) => panic!("hashing failed"),
    };
    assert_eq!(row.name, "Ana");
    assert_eq!(row.age, 30);
    assert_eq!(row.relationship_years, 5);
    assert_ne!(row.password_hash, "secreta");
    assert!(row.password_hash.starts_with("$2b$12$"));
    let creds = Ok(Some(Credentials { id: 7, password_hash: row.password_hash.clone() }));
    let good = LoginRequest { name: "Ana".to_string(), password: "secreta".to_string() };
    assert_eq!(login(&good, &creds), Ok(7));
    let bad = LoginRequest { name: "Ana".to_string(), password: "otra".to_string() };
    assert_eq!(login(&bad, &creds), Err(LoginError::WrongPassword));
}

#[test]
fn register_replies() {
    says(&register_reply(Ok(())), Status::Success, "Usuario registrado exitosamente");
    says(&register_reply(Err(DbError)), Status::InternalServerError, "Error al registrar usuario");
}

#[test]
fn listing_keeps_order_and_cuts_integers_to_a_byte() {
    let rows = vec![
        UserRow { name: "Ana".to_string(), age: 30, relationship_years: 5 },
        UserRow { name: "Luis".to_string(), age: 300, relationship_years: -1 },
    ];
    let users = match list_users(Ok(rows)) {
        Ok(u) => u,
        Err(_) => panic!("listing failed"),
    };
    assert_eq!(users.len(), 2);
    assert_eq!(users[0].name, "Ana");
    assert_eq!(users[0].age, 30);
    assert_eq!(users[0].relationship_years, 5);
    assert_eq!(users[1].name, "Luis");
    assert_eq!(users[1].age, 44);
    assert_eq!(users[1].relationship_years, 255);
    assert!(matches!(list_users(Ok(vec![])), Ok(v) if v.is_empty()));
    match list_users(Err(DbError)) {
        Err(r) => says(&r, Status::InternalServerError, "Error al obtener usuarios"),
        Ok(_) => panic!("expected an error"),
    }
}

#[test]
fn get_user_answers() {
    let found = get_user(Ok(Some(UserRow { name: "Ana".to_string(), age: 256, relationship_years: 3 })));
    match found {
        Ok(u) => {
            assert_eq!(u.name, "Ana");
            assert_eq!(u.age, 0);
            assert_eq!(u.relationship_years, 3);
        }
        Err(_) => panic!("expected the user"),
    }
    match get_user(Ok(None)) {
        Err(r) => says(&r, Status::NotFound, "Usuario no encontrado"),
        Ok(_) => panic!("expected 404"),
    }
    match get_user(Err(DbError)) {
        Err(r) => says(&r, Status::InternalServerError, "Error al buscar usuario"),
        Ok(_) => panic!("expected 500"),
    }
}

#[test]
fn only_the_owner_updates_a_profile() {
    match update_user(1, 2, &user("Ana", 30, 5, "")) {
        Err(r) => says(&r, Status::Forbidden, "No tenés permiso para modificar este usuario"),
        Ok(_) => panic!("expected 403"),
    }
    // Ownership is checked before the profile.
    match update_user(1, 2, &user("", 0, 200, "")) {
        Err(r) => says(&r, Status::Forbidden, "No tenés permiso para modificar este usuario"),
        Ok(_) => panic!("expected 403"),
    }
    match update_user(3, 3, &user(" ", 30, 5, "")) {
        Err(r) => says(&r, Status::BadRequest, "El nombre no puede estar vacío"),
        Ok(_) => panic!("expected 400"),
    }
    match update_user(3, 3, &user("Ana", 0, 5, "")) {
        Err(r) => says(&r, Status::BadRequest, "La edad debe ser mayor a 0"),
        Ok(_) => panic!("expected 400"),
    }
    match update_user(3, 3, &user("Ana", 30, 101, "")) {
        Err(r) => says(&r, Status::BadRequest, "El valor de años en pareja no es válido"),
        Ok(_) => panic!("expected 400"),
    }
    match update_user(3, 3, &user("Ana María", 31, 6, "")) {
        Ok(u) => {
            assert_eq!(u.id, 3);
            assert_eq!(u.name, "Ana María");
            assert_eq!(u.age, 31);
            assert_eq!(u.relationship_years, 6);
        }
        Err(_) => panic!("expected an update"),
    }
}

#[test]
fn update_replies() {
    says(&update_user_reply(Ok(0)), Status::NotFound, "Usuario no encontrado");
    says(&update_user_reply(Ok(1)), Status::Success, "Usuario actualizado exitosamente");
    says(&update_user_reply(Err(DbError)), Status::InternalServerError, "Error al actualizar usuario");
}

#[test]
fn only_the_owner_deletes_and_deleting_deactivates() {
    match delete_user(5, 6) {
        Err(r) => says(&r, Status::Forbidden, "No tenés permiso para eliminar este usuario"),
        Ok(_) => panic!("expected 403"),
    }
    assert!(matches!(delete_user(6, 6), Ok(Deactivation { id: 6 })));
    says(&delete_user_reply(Ok(0)), Status::NotFound, "Usuario no encontrado");
    says(&delete_user_reply(Ok(2)), Status::Success, "Usuario eliminado exitosamente");
    says(&delete_user_reply(Err(DbError)), Status::InternalServerError, "Error al eliminar usuario");
}

#[test]
fn login_lookup_outcomes() {
    let req = LoginRequest { name: "Ana".to_string(), password: "x".to_string() };
    assert_eq!(login(&req, &Ok(None)), Err(LoginError::UnknownUser));
    assert_eq!(login(&req, &Err(DbError)), Err(LoginError::LookupFailed));
    let broken = Ok(Some(Credentials { id: 1, password_hash: "no es un hash".to_string() }));
    assert_eq!(login(&req, &broken), Err(LoginError::WrongPassword));
    assert_eq!(login_outcome(9, Some(true)), Ok(9));
    assert_eq!(login_outcome(9, Some(false)), Err(LoginError::WrongPassword));
    assert_eq!(login_outcome(9, None), Err(LoginError::WrongPassword));
    says(&LoginError::UnknownUser.reply(), Status::Unauthorized, "Usuario o contraseña no válida");
    says(&LoginError::LookupFailed.reply(), Status::InternalServerError, "Error al buscar usuario");
    says(&LoginError::WrongPassword.reply(), Status::Unauthorized, "Usuario o contraseña incorrectos");
}

#[test]
fn sessions_last_one_day() {
    let c = session_claims(4, 1_700_000_000);
    assert_eq!(c, Claims { sub: 4, exp: 1_700_086_400 });
    let c = session_claims(4, -86_400);
    assert_eq!(c.exp, 0);
    let c = start_session(12).expect("the clock is in range");
    assert_eq!(c.sub, 12);
    assert!(c.exp > 1_700_086_400);
    assert_eq!(jwt_secret(), "secreto_super_seguro");
}

#[test]
fn bearer_headers() {
    assert_eq!(bearer_token(None), Err(AuthError::MissingToken));
    assert_eq!(bearer_token(Some("Basic abc")), Err(AuthError::MissingToken));
    assert_eq!(bearer_token(Some("bearer abc")), Err(AuthError::MissingToken));
    assert_eq!(bearer_token(Some("Bearer abc.def")), Ok("abc.def".to_string()));
    assert_eq!(bearer_token(Some("Bearer Bearer abc")), Ok("Bearer abc".to_string()));
    assert_eq!(bearer_token(Some("Bearer ")), Ok(String::new()));
}

#[test]
fn decoded_tokens() {
    let c = Claims { sub: 3, exp: 10 };
    assert_eq!(authorize(Ok(c)), Ok(c));
    assert_eq!(authorize(Err(TokenRejected)), Err(AuthError::InvalidToken));
    says(&AuthError::MissingToken.reply(), Status::Unauthorized, "Token no provisto");
    says(&AuthError::InvalidToken.reply(), Status::Unauthorized, "Token inválido o expirado");
}

#[test]
fn mood_entries() {
    let e = add_mood(8, &MoodRequest { text: "cansada".to_string() });
    assert_eq!(e.user_id, 8);
    assert_eq!(e.text, "cansada");
    assert_eq!(e.ai_response_to_user, "Una respuesta de la IA ");
    assert_eq!(e.ai_suggestion_to_partner, "Sugerencia generada por IA");
    says(&add_mood_reply(Ok(()), e), Status::Success, "Una respuesta de la IA ");
    let e = add_mood(8, &MoodRequest { text: String::new() });
    says(&add_mood_reply(Err(DbError), e), Status::InternalServerError, "Error al guardar el registro");
}

#[test]
fn sessions_at_a_given_time() {
    assert_eq!(session_at(5, 1_700_000_000), Some(Claims { sub: 5, exp: 1_700_086_400 }));
    assert_eq!(session_at(5, 8_210_266_876_799 - 86_400), Some(Claims { sub: 5, exp: 8_210_266_876_799 }));
    assert_eq!(session_at(5, 8_210_266_876_799 - 86_399), None);
    assert_eq!(session_at(5, i64::MAX), None);
}

#[test]
fn a_clocked_session_starts_at_its_reading() {
    let (reading, session) = grugu::session::clocked_session(21);
    let now = reading.expect("the clock is readable");
    assert!(now > 1_700_000_000);
    assert_eq!(session, Some(Claims { sub: 21, exp: (now + 86_400) as usize }));
    let t = grugu::session::utc_now_timestamp().expect("the clock is readable");
    assert!(t >= now);
}

#[test]
fn a_token_in_a_bearer_header_is_handed_on() {
    let token = "eyJhbGciOiJIUzI1NiJ9.e30.sig";
    let header = format!("Bearer {}", token);
    assert_eq!(bearer_token(Some(&header)), Ok(token.to_string()));
}

#[test]
fn clock_readings_to_timestamps() {
    assert_eq!(timestamp_of_reading(None), None);
    assert_eq!(timestamp_of_reading(Some((0, 0))), Some(0));
    assert_eq!(timestamp_of_reading(Some((1_700_000_000, 999_999_999))), Some(1_700_000_000));
    assert_eq!(timestamp_of_reading(Some((8_210_266_876_799, 0))), Some(8_210_266_876_799));
    assert_eq!(timestamp_of_reading(Some((8_210_266_876_800, 0))), None);
    assert_eq!(timestamp_of_reading(Some((u64::MAX, 0))), None);
}
