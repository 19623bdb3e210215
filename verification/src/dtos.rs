use crate::errors::AppError;
use crate::models::{AIConfig, User, UserRole};
use crate::text::chars_of;
use vstd::prelude::*;
use vstd::string::StringExecFns;

verus! {

/// A change of the provider settings, and whether the caller forces the
/// reset that goes with it.
#[derive(Clone)]
pub struct AdminConfigPayload {
    pub config: AIConfig,
    pub force_reset: bool,
}

/// What is answered when a document was taken in.
#[derive(Clone, Debug)]
pub struct IngestionResponse {
    pub id: String,
    pub status: String,
}

/// A request to create a user.
#[derive(Clone, Debug)]
pub struct CreateUserRequest {
    pub username: String,
    pub password: String,
    pub role: UserRole,
}

/// A text to take in, with what is known about it as JSON text.
#[derive(Clone, Debug)]
pub struct IngestionRequest {
    pub content: String,
    pub metadata: String,
}

/// A user as shown to an administrator: without the password hash.
#[derive(Clone, Debug)]
pub struct UserDto {
    pub id: String,
    pub username: String,
    pub role: String,
}

/// The name and password sent to log in.
#[derive(Clone, Debug)]
pub struct AuthPayload {
    pub username: String,
    pub password: String,
}

/// The parameters of the login page: the error to show, if any.
#[derive(Clone, Debug)]
pub struct LoginParams {
    pub error: Option<String>,
}

/// The fewest characters a user name may have.
pub const MIN_USERNAME_CHARS: usize = 3;

/// The fewest characters a password may have.
pub const MIN_PASSWORD_CHARS: usize = 6;

impl CreateUserRequest {
    /// Checks the lengths of the name and the password, the name first.
    pub fn validate(&self) -> (r: Result<(), AppError>)
        ensures
            match r {
                Ok(_) => self.username@.len() >= MIN_USERNAME_CHARS && self.password@.len()
                    >= MIN_PASSWORD_CHARS,
                Err(AppError::ValidationError(cause)) => if self.username@.len()
                    < MIN_USERNAME_CHARS {
                    cause@ == "Username must be at least 3 chars"@
                } else {
                    self.password@.len() < MIN_PASSWORD_CHARS && cause@
                        == "Password must be at least 6 chars"@
                },
                Err(_) => false,
            },
    {
        let name: Vec<char> = chars_of(self.username.as_str());
        let password: Vec<char> = chars_of(self.password.as_str());
        if name.len() < MIN_USERNAME_CHARS {
            Err(AppError::ValidationError(String::from_str("Username must be at least 3 chars")))
        } else if password.len() < MIN_PASSWORD_CHARS {
            Err(AppError::ValidationError(String::from_str("Password must be at least 6 chars")))
        } else {
            Ok(())
        }
    }
}

/// Whether `dto` shows `user`: its identifier, its name, and the name of
/// its role.
pub open spec fn shows_user(dto: UserDto, user: User) -> bool {
    &&& dto.id@ == user.id@
    &&& dto.username@ == user.username@
    &&& dto.role@ == user.role.label_text()
}

/// A user as shown to an administrator.
pub fn user_dto(user: &User) -> (r: UserDto)
    ensures
        shows_user(r, *user),
{
    UserDto { id: user.id.clone(), username: user.username.clone(), role: user.role.label() }
}

/// The users as shown to an administrator, in order.
pub fn user_dtos(users: &Vec<User>) -> (r: Vec<UserDto>)
    ensures
        r@.len() == users@.len(),
        forall|i: int| 0 <= i < r@.len() ==> shows_user(#[trigger] r@[i], users@[i]),
{
    let mut out: Vec<UserDto> = Vec::new();
    let mut i: usize = 0;
    while i < users.len()
        invariant
            i <= users.len(),
            out@.len() == i,
            forall|j: int| 0 <= j < i ==> shows_user(#[trigger] out@[j], users@[j]),
        decreases users.len() - i,
    {
        out.push(user_dto(&users[i]));
        i = i + 1;
    }
    out
}

/// A new account.
pub fn new_user(id: String, request: CreateUserRequest, password_hash: String) -> (r: User)
    ensures
        r.id == id,
        r.username == request.username,
        r.password_hash == password_hash,
        r.role == request.role,
{
    User { id, username: request.username, password_hash, role: request.role }
}

} // verus!
