use crate::errors::AppError;
use crate::models::{Claims, User, UserRole};
use crate::search::{has_prefix, piece_end, piece_len, starts_with};
use crate::text::{chars_of, copy_range, join3, same_chars, string_of, trim, trimmed, CharClass};
use vstd::prelude::*;
use vstd::string::StringExecFns;

verus! {

/// What `bcrypt::verify` says of a password and a hash: whether they match,
/// or nothing where the hash is malformed.
pub uninterp spec fn bcrypt_verdict(password: Seq<char>, hash: Seq<char>) -> Option<bool>;

/// Calls `bcrypt::verify`. The contract claims no more than that the
/// outcome depends on the password and the hash alone.
#[verifier::external_body]
fn password_verdict(password: &str, hash: &str) -> (r: Option<bool>)
    ensures
        r == bcrypt_verdict(password@, hash@),
{
    bcrypt::verify(password, hash).ok()
}

/// For how many seconds a session lasts.
pub const SESSION_SECONDS: usize = 86400;

/// How a login attempt ends.
#[derive(Clone, Debug)]
pub enum LoginOutcome {
    /// The password matches: a session with these claims begins.
    Granted(Claims),
    /// The user is unknown or the password does not match.
    Denied,
    /// The user store failed.
    SystemError,
}

/// Whether `outcome` is how the login of a known user ends, given the
/// verdict on the password and the present second: a verdict that the
/// password matches grants a session in the user's name and role that lasts
/// for the session's length; any other verdict, and none, denies.
pub open spec fn is_outcome_for(
    outcome: LoginOutcome,
    user: User,
    verdict: Option<bool>,
    now: nat,
) -> bool {
    if verdict == Some(true) {
        &&& outcome matches LoginOutcome::Granted(claims)
        &&& claims.sub == user.username
        &&& claims.role == user.role
        &&& claims.exp == now + SESSION_SECONDS
    } else {
        outcome is Denied
    }
}

/// Whether `outcome` is how a login ends, given what the user store
/// answered for the user's name, the password, and the present second. A
/// failing store is a system error, an unknown user is denied, and a known
/// one is judged by the verdict of the password check on the stored hash.
pub open spec fn is_login_outcome(
    outcome: LoginOutcome,
    lookup: Result<Option<User>, AppError>,
    password: Seq<char>,
    now: nat,
) -> bool {
    match lookup {
        Err(_) => outcome is SystemError,
        Ok(None) => outcome is Denied,
        Ok(Some(user)) => is_outcome_for(
            outcome,
            user,
            bcrypt_verdict(password, user.password_hash@),
            now,
        ),
    }
}

/// Ends the login of a known user on the verdict of the password check.
pub fn login_outcome(user: User, verdict: Option<bool>, now: usize) -> (r: LoginOutcome)
    requires
        now + SESSION_SECONDS <= usize::MAX,
    ensures
        is_outcome_for(r, user, verdict, now as nat),
{
    match verdict {
        Some(true) => LoginOutcome::Granted(
            Claims { sub: user.username, role: user.role, exp: now + SESSION_SECONDS },
        ),
        _ => LoginOutcome::Denied,
    }
}

/// Decides a login. For an unknown user a password check is made all the
/// same, and its verdict dropped, so that the answer takes as long as for a
/// known one.
pub fn decide_login(lookup: Result<Option<User>, AppError>, password: &str, now: usize) -> (r:
    LoginOutcome)
    requires
        now + SESSION_SECONDS <= usize::MAX,
    ensures
        is_login_outcome(r, lookup, password@, now as nat),
{
    match lookup {
        Err(_) => LoginOutcome::SystemError,
        Ok(None) => {
            let _verdict: Option<bool> = password_verdict(
                "dummy_pass",
                "$2y$12$LQv3c1yqBWVHxkd0LHAkCOYz6TtxMQJqhN8/LewdBPj4h..dummy",
            );
            LoginOutcome::Denied
        },
        Ok(Some(user)) => {
            let verdict: Option<bool> = password_verdict(password, user.password_hash.as_str());
            login_outcome(user, verdict, now)
        },
    }
}

/// Where the browser is sent after a login.
pub open spec fn redirect_text(outcome: LoginOutcome) -> Seq<char> {
    match outcome {
        LoginOutcome::Granted(_) => "/dashboard"@,
        LoginOutcome::Denied => "/?error=invalid_credentials"@,
        LoginOutcome::SystemError => "/?error=system_error"@,
    }
}

/// Where the browser is sent after a login.
pub fn login_redirect(outcome: &LoginOutcome) -> (r: String)
    ensures
        r@ == redirect_text(*outcome),
{
    match outcome {
        LoginOutcome::Granted(_) => String::from_str("/dashboard"),
        LoginOutcome::Denied => String::from_str("/?error=invalid_credentials"),
        LoginOutcome::SystemError => String::from_str("/?error=system_error"),
    }
}

/// The name of the session cookie, with the sign that follows it.
pub open spec fn cookie_prefix() -> Seq<char> {
    "lamuralla_jwt="@
}

/// The attributes that the session cookie is set with.
pub open spec fn cookie_attributes() -> Seq<char> {
    "; HttpOnly; SameSite=Strict; Path=/"@
}

/// The header value that sets the session cookie to `token`.
pub fn session_cookie(token: &str) -> (r: String)
    ensures
        r@ == cookie_prefix() + token@ + cookie_attributes(),
{
    join3("lamuralla_jwt=", token, "; HttpOnly; SameSite=Strict; Path=/")
}

/// The pieces of `s` between its characters `c`.
pub open spec fn pieces(s: Seq<char>, c: char) -> Seq<Seq<char>>
    decreases s.len(),
{
    let n = piece_len(s, c);
    if n >= s.len() {
        seq![s]
    } else {
        seq![s.take(n as int)] + pieces(s.skip(n as int + 1), c)
    }
}

/// The value of the first part that, trimmed, begins with `prefix`: what
/// follows the prefix in it.
pub open spec fn first_value(parts: Seq<Seq<char>>, prefix: Seq<char>) -> Option<Seq<char>>
    decreases parts.len(),
{
    if parts.len() == 0 {
        None
    } else {
        let part = trim(parts[0], CharClass::Space);
        if starts_with(part, prefix) {
            Some(part.skip(prefix.len() as int))
        } else {
            first_value(parts.drop_first(), prefix)
        }
    }
}

/// The session token that a `Cookie` header carries: the value of the
/// first of its parts, split at `;` and trimmed, that is the session cookie.
pub open spec fn token_in(header: Seq<char>) -> Option<Seq<char>> {
    first_value(pieces(header, ';'), cookie_prefix())
}

/// Reads the session token from the value of a `Cookie` header.
pub fn session_token(header: &str) -> (r: Option<String>)
    ensures
        match r {
            Some(token) => token_in(header@) == Some(token@),
            None => token_in(header@) is None,
        },
{
    let v: Vec<char> = chars_of(header);
    let prefix: Vec<char> = chars_of("lamuralla_jwt=");
    let mut from: usize = 0;
    assert(v@.skip(0) =~= v@);
    loop
        invariant
            from <= v.len(),
            v@ == header@,
            prefix@ == cookie_prefix(),
            first_value(pieces(v@.skip(from as int), ';'), prefix@) == token_in(v@),
        decreases v.len() - from,
    {
        let end: usize = piece_end(&v, from, ';');
        let ghost rest = v@.skip(from as int);
        let raw: Vec<char> = copy_range(&v, from, end);
        assert(raw@ =~= rest.take(end - from));
        let part: Vec<char> = trimmed(&raw, CharClass::Space);
        let ghost parts = pieces(rest, ';');
        proof {
            if end == v.len() {
                assert(rest.take(rest.len() as int) =~= rest);
                assert(parts =~= seq![rest]);
            } else {
                assert(parts =~= seq![rest.take(end - from)] + pieces(rest.skip(end - from + 1), ';'));
            }
            assert(parts[0] == raw@);
        }
        if has_prefix(&part, &prefix) {
            let n: usize = part.len();
            let value: Vec<char> = copy_range(&part, prefix.len(), n);
            assert(value@ =~= part@.skip(prefix@.len() as int));
            assert(first_value(parts, prefix@) == Some(value@));
            return Some(string_of(&value));
        }
        if end == v.len() {
            proof {
                assert(parts.drop_first() =~= Seq::<Seq<char>>::empty());
                assert(first_value(parts.drop_first(), prefix@) is None);
                assert(first_value(parts, prefix@) is None);
            }
            return None;
        }
        proof {
            assert(parts.drop_first() =~= pieces(rest.skip(end - from + 1), ';'));
            assert(rest.skip(end - from + 1) =~= v@.skip(end + 1));
            assert(first_value(parts, prefix@) == first_value(parts.drop_first(), prefix@));
        }
        from = end + 1;
    }
}

/// What a guard says of a request.
#[derive(Clone, Copy, Debug, PartialEq, Eq, Structural)]
pub enum Gate {
    /// The request goes on.
    Pass,
    /// The request carries no valid session.
    Unauthorized,
    /// The session's role does not allow the request.
    Forbidden,
}

impl Gate {
    /// The HTTP status with which a request is turned away; none where it
    /// goes on.
    pub fn status_code(&self) -> (r: Option<u16>)
        ensures
            r == match *self {
                Gate::Pass => None::<u16>,
                Gate::Unauthorized => Some(401u16),
                Gate::Forbidden => Some(403u16),
            },
    {
        match self {
            Gate::Pass => None,
            Gate::Unauthorized => Some(401),
            Gate::Forbidden => Some(403),
        }
    }
}

/// Guards what only an administrator may do: a request without claims is
/// unauthorized, one with another role is forbidden.
pub fn require_admin(claims: Option<&Claims>) -> (r: Gate)
    ensures
        r == match claims {
            None => Gate::Unauthorized,
            Some(c) => if c.role == UserRole::Admin {
                Gate::Pass
            } else {
                Gate::Forbidden
            },
        },
{
    match claims {
        None => Gate::Unauthorized,
        Some(c) => {
            if c.role == UserRole::Admin {
                Gate::Pass
            } else {
                Gate::Forbidden
            }
        },
    }
}

/// Guards the deletion of a user: the administrator that the system was
/// set up with cannot be deleted.
pub fn guard_delete(username: &str, protected: &str) -> (r: Result<(), AppError>)
    ensures
        username@ == protected@ ==> r matches Err(AppError::SafetyGuardError),
        username@ != protected@ ==> r is Ok,
{
    let a: Vec<char> = chars_of(username);
    let b: Vec<char> = chars_of(protected);
    if same_chars(&a, &b) {
        Err(AppError::SafetyGuardError)
    } else {
        Ok(())
    }
}

/// Guards a change of the provider settings, which resets the database: it
/// is made only where the caller forces it.
pub fn guard_reset(force_reset: bool) -> (r: Result<(), AppError>)
    ensures
        force_reset ==> r is Ok,
        !force_reset ==> r matches Err(AppError::SafetyGuardError),
{
    if force_reset {
        Ok(())
    } else {
        Err(AppError::SafetyGuardError)
    }
}

/// Why a user cannot be created under a name that is taken.
pub open spec fn taken_text() -> Seq<char> {
    "Username already exists"@
}

/// Guards the creation of a user: a name that the store knows is refused.
/// A store that fails to answer refuses nothing.
pub fn guard_create(lookup: &Result<Option<User>, AppError>) -> (r: Result<(), AppError>)
    ensures
        match *lookup {
            Ok(Some(_)) => r matches Err(AppError::ValidationError(cause)) && cause@
                == taken_text(),
            _ => r is Ok,
        },
{
    match lookup {
        Ok(Some(_)) => Err(AppError::ValidationError(String::from_str("Username already exists"))),
        _ => Ok(()),
    }
}

} // verus!
