//! What each endpoint decides, on the values that its database work reads
//! and returns.

use vstd::prelude::*;
use vstd::string::StringExecFns;
use crate::models::{
    make_reply, make_reply_owned, public_user, Claims, LoginRequest, MoodRequest, reply_says, shows_row, ApiStatus, DbError, PublicUser, Reply, Status, User,
    UserRow,
};
use crate::password::{bcrypt_verify_outcome, hash_password, password_verified, verify_password};
use crate::text::{
    after_bearer_prefix, has_bearer_prefix, is_blank, is_blank_seq, starts_with_bearer,
};

verus! {

/// `GET /`: the service's name, state and version.
pub fn root() -> (s: ApiStatus)
    ensures
        s.name@ == "Grugu API"@,
        s.status@ == "Running"@,
        s.version@ == "0.1.0"@,
{
    ApiStatus {
        name: String::from_str("Grugu API"),
        status: String::from_str("Running"),
        version: String::from_str("0.1.0"),
    }
}

// ---------------------------------------------------------------------
// Profiles
// ---------------------------------------------------------------------

/// Why a name, age and relationship length are refused.
#[derive(PartialEq, Eq, Structural, Clone, Copy, Debug)]
pub enum ProfileError {
    EmptyName,
    ZeroAge,
    InvalidRelationshipYears,
}

/// The first rule that a profile breaks, checked in this order: the name
/// must hold something besides white space, the age must be positive, a
/// relationship cannot have lasted more than a hundred years.
pub open spec fn profile_problem(name: Seq<char>, age: u8, relationship_years: u8) -> Option<ProfileError> {
    if is_blank_seq(name) {
        Some(ProfileError::EmptyName)
    } else if age == 0 {
        Some(ProfileError::ZeroAge)
    } else if relationship_years > 100 {
        Some(ProfileError::InvalidRelationshipYears)
    } else {
        None
    }
}

/// The first rule that `user`'s profile breaks, if any.
pub fn check_profile(user: &User) -> (r: Option<ProfileError>)
    ensures
        r == profile_problem(user.name@, user.age, user.relationship_years),
{
    if is_blank(user.name.as_str()) {
        Some(ProfileError::EmptyName)
    } else if user.age == 0 {
        Some(ProfileError::ZeroAge)
    } else if user.relationship_years > 100 {
        Some(ProfileError::InvalidRelationshipYears)
    } else {
        None
    }
}

// ---------------------------------------------------------------------
// POST /register
// ---------------------------------------------------------------------

/// Why a registration does not reach the database.
#[derive(PartialEq, Eq, Structural, Clone, Copy, Debug)]
pub enum RegisterError {
    Invalid(ProfileError),
    /// The password could not be hashed (the system's randomness failed).
    HashFailed,
}

/// The row that a registration inserts: the password only as its hash.
pub struct NewUser {
    pub name: String,
    pub age: u8,
    pub relationship_years: u8,
    pub password_hash: String,
}

/// `POST /register`, up to the insert: the profile is checked, then the
/// password is hashed. A row is owed whenever the profile passes and the
/// hashing does not fail; its hash opens with the given password.
pub fn register(user: &User) -> (r: Result<NewUser, RegisterError>)
    ensures
        match profile_problem(user.name@, user.age, user.relationship_years) {
            Some(p) => r == Err::<NewUser, RegisterError>(RegisterError::Invalid(p)),
            None => match r {
                Ok(row) => {
                    &&& row.name@ == user.name@
                    &&& row.age == user.age
                    &&& row.relationship_years == user.relationship_years
                    &&& bcrypt_verify_outcome(user.password@, row.password_hash@) == Some(true)
                    &&& row.password_hash@.len() == 60
                    &&& row.password_hash@.take(7) == "$2b$12$"@
                },
                Err(e) => e == RegisterError::HashFailed,
            },
        },
{
    if let Some(p) = check_profile(user) {
        return Err(RegisterError::Invalid(p));
    }
    match hash_password(user.password.as_str()) {
        Ok(h) => Ok(
            NewUser {
                name: user.name.clone(),
                age: user.age,
                relationship_years: user.relationship_years,
                password_hash: h,
            },
        ),
        Err(_) => Err(RegisterError::HashFailed),
    }
}

/// The message a registration gets for a refused profile.
pub open spec fn register_refusal_message(p: ProfileError) -> Seq<char> {
    match p {
        ProfileError::EmptyName => "el nombre no puede estar vacío."@,
        ProfileError::ZeroAge => "La edad debe ser mayor a 0"@,
        ProfileError::InvalidRelationshipYears => "El valor de años en pareja no es válido"@,
    }
}

/// The answer to a registration whose profile was refused.
pub fn register_refusal(p: ProfileError) -> (r: Reply)
    ensures
        reply_says(r, Status::BadRequest, register_refusal_message(p)),
{
    match p {
        ProfileError::EmptyName => make_reply(Status::BadRequest, "el nombre no puede estar vacío."),
        ProfileError::ZeroAge => make_reply(Status::BadRequest, "La edad debe ser mayor a 0"),
        ProfileError::InvalidRelationshipYears => make_reply(
            Status::BadRequest,
            "El valor de años en pareja no es válido",
        ),
    }
}

/// The answer to a registration once the insert ran.
pub fn register_reply(stored: Result<(), DbError>) -> (r: Reply)
    ensures
        stored is Ok ==> reply_says(r, Status::Success, "Usuario registrado exitosamente"@),
        stored is Err ==> reply_says(r, Status::InternalServerError, "Error al registrar usuario"@),
{
    match stored {
        Ok(()) => make_reply(Status::Success, "Usuario registrado exitosamente"),
        Err(_) => make_reply(Status::InternalServerError, "Error al registrar usuario"),
    }
}

// ---------------------------------------------------------------------
// GET /users and GET /user/{id}
// ---------------------------------------------------------------------

/// `GET /users`: the public view of every active row, in the order read,
/// or an error when the query failed.
pub fn list_users(rows: Result<Vec<UserRow>, DbError>) -> (r: Result<Vec<PublicUser>, Reply>)
    ensures
        match rows {
            Ok(v) => r matches Ok(users) && users.len() == v.len() && forall|i: int|
                0 <= i < v.len() ==> shows_row(#[trigger] users[i], v[i]),
            Err(_) => r matches Err(rep) && reply_says(
                rep,
                Status::InternalServerError,
                "Error al obtener usuarios"@,
            ),
        },
{
    match rows {
        Ok(v) => {
            let mut users: Vec<PublicUser> = Vec::new();
            let n = v.len();
            let mut i: usize = 0;
            while i < n
                invariant
                    n == v.len(),
                    i <= n,
                    users.len() == i,
                    forall|j: int| 0 <= j < i ==> shows_row(#[trigger] users[j], v[j]),
                decreases n - i,
            {
                users.push(public_user(&v[i]));
                i = i + 1;
            }
            Ok(users)
        },
        Err(_) => Err(make_reply(Status::InternalServerError, "Error al obtener usuarios")),
    }
}

/// `GET /user/{id}`: the public view of the active row with that id.
pub fn get_user(row: Result<Option<UserRow>, DbError>) -> (r: Result<PublicUser, Reply>)
    ensures
        match row {
            Ok(Some(found)) => r matches Ok(u) && shows_row(u, found),
            Ok(None) => r matches Err(rep) && reply_says(rep, Status::NotFound, "Usuario no encontrado"@),
            Err(_) => r matches Err(rep) && reply_says(
                rep,
                Status::InternalServerError,
                "Error al buscar usuario"@,
            ),
        },
{
    match row {
        Ok(Some(found)) => Ok(public_user(&found)),
        Ok(None) => Err(make_reply(Status::NotFound, "Usuario no encontrado")),
        Err(_) => Err(make_reply(Status::InternalServerError, "Error al buscar usuario")),
    }
}

// ---------------------------------------------------------------------
// PUT /user/{id}
// ---------------------------------------------------------------------

/// The update that `PUT /user/{id}` writes.
pub struct ProfileUpdate {
    pub id: i32,
    pub name: String,
    pub age: u8,
    pub relationship_years: u8,
}

/// The message an update gets for a refused profile.
pub open spec fn update_refusal_message(p: ProfileError) -> Seq<char> {
    match p {
        ProfileError::EmptyName => "El nombre no puede estar vacío"@,
        ProfileError::ZeroAge => "La edad debe ser mayor a 0"@,
        ProfileError::InvalidRelationshipYears => "El valor de años en pareja no es válido"@,
    }
}

/// `PUT /user/{id}` by the session of user `sub`, up to the write: only
/// the owner may change a profile, and the new profile must pass the
/// checks.
pub fn update_user(sub: i32, id: i32, user: &User) -> (r: Result<ProfileUpdate, Reply>)
    ensures
        sub != id ==> (r matches Err(rep) && reply_says(
            rep,
            Status::Forbidden,
            "No tenés permiso para modificar este usuario"@,
        )),
        sub == id ==> match profile_problem(user.name@, user.age, user.relationship_years) {
            Some(p) => (r matches Err(rep) && reply_says(rep, Status::BadRequest, update_refusal_message(p))),
            None => (r matches Ok(u) && u.id == sub && u.name@ == user.name@ && u.age == user.age
                && u.relationship_years == user.relationship_years),
        },
{
    if sub != id {
        return Err(make_reply(Status::Forbidden, "No tenés permiso para modificar este usuario"));
    }
    match check_profile(user) {
        Some(ProfileError::EmptyName) => Err(
            make_reply(Status::BadRequest, "El nombre no puede estar vacío"),
        ),
        Some(ProfileError::ZeroAge) => Err(
            make_reply(Status::BadRequest, "La edad debe ser mayor a 0"),
        ),
        Some(ProfileError::InvalidRelationshipYears) => Err(
            make_reply(Status::BadRequest, "El valor de años en pareja no es válido"),
        ),
        None => Ok(
            ProfileUpdate {
                id,
                name: user.name.clone(),
                age: user.age,
                relationship_years: user.relationship_years,
            },
        ),
    }
}

/// The answer to an update once the write ran: no row touched means no
/// such user.
pub fn update_user_reply(written: Result<u64, DbError>) -> (r: Reply)
    ensures
        written == Ok::<u64, DbError>(0) ==> reply_says(r, Status::NotFound, "Usuario no encontrado"@),
        written matches Ok(n) && n > 0 ==> reply_says(
            r,
            Status::Success,
            "Usuario actualizado exitosamente"@,
        ),
        written is Err ==> reply_says(r, Status::InternalServerError, "Error al actualizar usuario"@),
{
    match written {
        Ok(0) => make_reply(Status::NotFound, "Usuario no encontrado"),
        Ok(_) => make_reply(Status::Success, "Usuario actualizado exitosamente"),
        Err(_) => make_reply(Status::InternalServerError, "Error al actualizar usuario"),
    }
}

// ---------------------------------------------------------------------
// DELETE /user/{id}
// ---------------------------------------------------------------------

/// The soft delete that `DELETE /user/{id}` writes: the row stays and is
/// marked inactive.
#[derive(PartialEq, Eq, Structural, Clone, Copy, Debug)]
pub struct Deactivation {
    pub id: i32,
}

/// `DELETE /user/{id}` by the session of user `sub`, up to the write: only
/// the owner may delete a profile, and deleting deactivates it.
pub fn delete_user(sub: i32, id: i32) -> (r: Result<Deactivation, Reply>)
    ensures
        sub != id ==> (r matches Err(rep) && reply_says(
            rep,
            Status::Forbidden,
            "No tenés permiso para eliminar este usuario"@,
        )),
        sub == id ==> r == Ok::<Deactivation, Reply>(Deactivation { id: sub }),
{
    if sub != id {
        return Err(make_reply(Status::Forbidden, "No tenés permiso para eliminar este usuario"));
    }
    Ok(Deactivation { id })
}

/// The answer to a delete once the write ran: no row touched means no
/// such user.
pub fn delete_user_reply(written: Result<u64, DbError>) -> (r: Reply)
    ensures
        written == Ok::<u64, DbError>(0) ==> reply_says(r, Status::NotFound, "Usuario no encontrado"@),
        written matches Ok(n) && n > 0 ==> reply_says(
            r,
            Status::Success,
            "Usuario eliminado exitosamente"@,
        ),
        written is Err ==> reply_says(r, Status::InternalServerError, "Error al eliminar usuario"@),
{
    match written {
        Ok(0) => make_reply(Status::NotFound, "Usuario no encontrado"),
        Ok(_) => make_reply(Status::Success, "Usuario eliminado exitosamente"),
        Err(_) => make_reply(Status::InternalServerError, "Error al eliminar usuario"),
    }
}

// ---------------------------------------------------------------------
// POST /login
// ---------------------------------------------------------------------

/// What the login query reads of an active user with the given name.
pub struct Credentials {
    pub id: i32,
    pub password_hash: String,
}

/// Why a login opens no session.
#[derive(PartialEq, Eq, Structural, Clone, Copy, Debug)]
pub enum LoginError {
    /// No active user has that name.
    UnknownUser,
    /// The lookup itself failed.
    LookupFailed,
    /// The password does not open the stored hash, or the hash is malformed.
    WrongPassword,
}

/// What a login decides once the stored hash was checked: the session
/// belongs to `user_id` exactly when the check came out true.
pub open spec fn login_verdict(user_id: i32, outcome: Option<bool>) -> Result<i32, LoginError> {
    if password_verified(outcome) {
        Ok(user_id)
    } else {
        Err(LoginError::WrongPassword)
    }
}

/// The decision of a login for the user `user_id`, given what checking the
/// password against the stored hash returned.
pub fn login_outcome(user_id: i32, outcome: Option<bool>) -> (r: Result<i32, LoginError>)
    ensures
        r == login_verdict(user_id, outcome),
{
    match outcome {
        Some(true) => Ok(user_id),
        _ => Err(LoginError::WrongPassword),
    }
}

/// `POST /login`, up to the token: the user whose session to open, from
/// what the lookup by name read and the password sent.
pub fn login(request: &LoginRequest, lookup: &Result<Option<Credentials>, DbError>) -> (r: Result<
    i32,
    LoginError,
>)
    ensures
        match lookup {
            Err(_) => r == Err::<i32, LoginError>(LoginError::LookupFailed),
            Ok(None) => r == Err::<i32, LoginError>(LoginError::UnknownUser),
            Ok(Some(c)) => r == login_verdict(
                c.id,
                bcrypt_verify_outcome(request.password@, c.password_hash@),
            ),
        },
{
    match lookup {
        Err(_) => Err(LoginError::LookupFailed),
        Ok(None) => Err(LoginError::UnknownUser),
        Ok(Some(c)) => {
            let outcome = match verify_password(request.password.as_str(), c.password_hash.as_str()) {
                Ok(b) => Some(b),
                Err(_) => None,
            };
            login_outcome(c.id, outcome)
        },
    }
}

/// The status and message of a refused login.
pub open spec fn login_refusal(e: LoginError) -> (Status, Seq<char>) {
    match e {
        LoginError::UnknownUser => (Status::Unauthorized, "Usuario o contraseña no válida"@),
        LoginError::LookupFailed => (Status::InternalServerError, "Error al buscar usuario"@),
        LoginError::WrongPassword => (Status::Unauthorized, "Usuario o contraseña incorrectos"@),
    }
}

impl LoginError {
    /// The answer to a refused login.
    pub fn reply(&self) -> (r: Reply)
        ensures
            reply_says(r, login_refusal(*self).0, login_refusal(*self).1),
    {
        match self {
            LoginError::UnknownUser => make_reply(Status::Unauthorized, "Usuario o contraseña no válida"),
            LoginError::LookupFailed => make_reply(Status::InternalServerError, "Error al buscar usuario"),
            LoginError::WrongPassword => make_reply(
                Status::Unauthorized,
                "Usuario o contraseña incorrectos",
            ),
        }
    }
}

// ---------------------------------------------------------------------
// The authentication layer of the protected routes
// ---------------------------------------------------------------------

/// Why a request to a protected route is turned away.
#[derive(PartialEq, Eq, Structural, Clone, Copy, Debug)]
pub enum AuthError {
    /// No `Authorization` header, one that is not text, or one without the
    /// `Bearer ` scheme.
    MissingToken,
    /// The token does not decode, is not signed with the key, or expired.
    InvalidToken,
}

/// The token of an `Authorization` header (`None` when the header is
/// missing or not text), written `Bearer <token>`: the header must start
/// with `Bearer `, and the token is what follows that one prefix.
pub fn bearer_token(header: Option<&str>) -> (r: Result<String, AuthError>)
    ensures
        match header {
            None => r == Err::<String, AuthError>(AuthError::MissingToken),
            Some(h) => if has_bearer_prefix(h@) {
                r matches Ok(t) && t@ == h@.skip(7)
            } else {
                r == Err::<String, AuthError>(AuthError::MissingToken)
            },
        },
{
    match header {
        None => Err(AuthError::MissingToken),
        Some(h) => {
            if starts_with_bearer(h) {
                Ok(after_bearer_prefix(h))
            } else {
                Err(AuthError::MissingToken)
            }
        },
    }
}

/// A token that did not decode into valid claims.
#[derive(PartialEq, Eq, Structural, Clone, Copy, Debug)]
pub struct TokenRejected;

/// What the layer decides once the token was decoded: the request goes on
/// with the claims, or is refused as carrying an invalid token.
pub fn authorize(decoded: Result<Claims, TokenRejected>) -> (r: Result<Claims, AuthError>)
    ensures
        match decoded {
            Ok(c) => r == Ok::<Claims, AuthError>(c),
            Err(_) => r == Err::<Claims, AuthError>(AuthError::InvalidToken),
        },
{
    match decoded {
        Ok(c) => Ok(c),
        Err(_) => Err(AuthError::InvalidToken),
    }
}

/// The message of a refused request.
pub open spec fn auth_refusal_message(e: AuthError) -> Seq<char> {
    match e {
        AuthError::MissingToken => "Token no provisto"@,
        AuthError::InvalidToken => "Token inválido o expirado"@,
    }
}

impl AuthError {
    /// The answer to a refused request: always 401.
    pub fn reply(&self) -> (r: Reply)
        ensures
            reply_says(r, Status::Unauthorized, auth_refusal_message(*self)),
    {
        match self {
            AuthError::MissingToken => make_reply(Status::Unauthorized, "Token no provisto"),
            AuthError::InvalidToken => make_reply(Status::Unauthorized, "Token inválido o expirado"),
        }
    }
}

// ---------------------------------------------------------------------
// POST /mood
// ---------------------------------------------------------------------

/// The row that a mood report inserts.
pub struct MoodEntry {
    pub user_id: i32,
    pub text: String,
    pub ai_response_to_user: String,
    pub ai_suggestion_to_partner: String,
}

/// `POST /mood` by the session of user `sub`, up to the insert: the entry
/// carries the text and the two answers that stand for the assistant's.
pub fn add_mood(sub: i32, mood: &MoodRequest) -> (e: MoodEntry)
    ensures
        e.user_id == sub,
        e.text@ == mood.text@,
        e.ai_response_to_user@ == "Una respuesta de la IA "@,
        e.ai_suggestion_to_partner@ == "Sugerencia generada por IA"@,
{
    MoodEntry {
        user_id: sub,
        text: mood.text.clone(),
        ai_response_to_user: String::from_str("Una respuesta de la IA "),
        ai_suggestion_to_partner: String::from_str("Sugerencia generada por IA"),
    }
}

/// The answer to a mood report once the insert ran: on success, the
/// answer meant for the user.
pub fn add_mood_reply(stored: Result<(), DbError>, entry: MoodEntry) -> (r: Reply)
    ensures
        stored is Ok ==> reply_says(r, Status::Success, entry.ai_response_to_user@),
        stored is Err ==> reply_says(r, Status::InternalServerError, "Error al guardar el registro"@),
{
    match stored {
        Ok(()) => make_reply_owned(Status::Success, entry.ai_response_to_user),
        Err(_) => make_reply(Status::InternalServerError, "Error al guardar el registro"),
    }
}

} // verus!
