use vstd::prelude::*;
use vstd::string::*;
use crate::error::ApiError;

verus! {

/// A stored account. `password` holds a bcrypt hash, never the password.
#[derive(Debug)]
pub struct User {
    pub id: u128,
    pub name: String,
    pub email: String,
    pub password: String,
    pub image: Option<String>,
}

/// The identity a request acts as, once the bearer gate admitted it.
#[derive(Clone, Copy, Debug, PartialEq, Eq, Structural)]
pub struct UserId {
    pub id: u128,
}

/// What the client may see of an account: no password, hashed or not.
#[derive(Debug)]
pub struct UserInfo {
    pub name: String,
    pub email: String,
    pub image: Option<String>,
}

#[derive(Debug)]
pub struct LoginUser {
    pub email: String,
    pub password: String,
}

#[derive(Debug)]
pub struct CreateUser {
    pub name: String,
    pub email: String,
    pub password: String,
    pub image: Option<String>,
}

pub const MIN_NAME_LEN: usize = 8;
pub const MIN_EMAIL_LEN: usize = 10;
pub const MIN_PASSWORD_LEN: usize = 8;

/// Whether bcrypt accepts `password` against the stored `hash`.
pub uninterp spec fn bcrypt_verifies(password: Seq<char>, hash: Seq<char>) -> bool;

/// Relies on `bcrypt::hash` with the default cost: a fresh random salt, so
/// only what holds of every outcome is stated; it fails only when the system
/// gives no randomness.
#[verifier::external_body]
fn hash_password(password: &str) -> (r: Option<String>)
    ensures
        r matches Some(h) ==> bcrypt_verifies(password@, h@),
{
    bcrypt::hash(password, bcrypt::DEFAULT_COST).ok()
}

/// Relies on `bcrypt::verify`; a hash it cannot read verifies nothing.
#[verifier::external_body]
pub(crate) fn password_matches(password: &str, hash: &str) -> (r: bool)
    ensures
        r == bcrypt_verifies(password@, hash@),
{
    bcrypt::verify(password, hash).unwrap_or(false)
}

pub open spec fn opt_view(o: Option<String>) -> Option<Seq<char>> {
    match o {
        Some(s) => Some(s@),
        None => None,
    }
}

/// A copy of an optional text.
pub fn copy_opt(o: &Option<String>) -> (r: Option<String>)
    ensures
        opt_view(r) == opt_view(*o),
{
    match o {
        Some(s) => Some(s.clone()),
        None => None,
    }
}

/// The public part of a stored account.
pub fn user_info(user: &User) -> (r: UserInfo)
    ensures
        r.name@ == user.name@,
        r.email@ == user.email@,
        opt_view(r.image) == opt_view(user.image),
{
    UserInfo { name: user.name.clone(), email: user.email.clone(), image: copy_opt(&user.image) }
}

pub open spec fn same_account(a: CreateUser, b: CreateUser) -> bool {
    &&& a.name@ == b.name@
    &&& a.email@ == b.email@
    &&& a.password@ == b.password@
    &&& opt_view(a.image) == opt_view(b.image)
}

/// The message for the first field of a registration that is too short, in
/// characters: name under 8, email under 10, password under 8, in that order.
pub open spec fn validation_message(c: CreateUser) -> Option<Seq<char>> {
    if c.name@.len() < MIN_NAME_LEN {
        Some("The name must contains more than 8 letters."@)
    } else if c.email@.len() < MIN_EMAIL_LEN {
        Some("The email must contains more than 10 letters."@)
    } else if c.password@.len() < MIN_PASSWORD_LEN {
        Some("The password must contains more than 8 letters."@)
    } else {
        None
    }
}

impl CreateUser {
    /// Checks the lengths of a registration, in characters: name at least 8,
    /// email at least 10, password at least 8, tested in that order; the first
    /// that is short gives its message.
    pub fn validate(&self) -> (r: Result<CreateUser, String>)
        ensures
            match validation_message(*self) {
                Some(m) => r matches Err(e) && e@ == m,
                None => r matches Ok(u) && same_account(u, *self),
            },
    {
        proof {
            reveal_strlit("The name must contains more than 8 letters.");
            reveal_strlit("The email must contains more than 10 letters.");
            reveal_strlit("The password must contains more than 8 letters.");
        }
        if self.name.as_str().unicode_len() < MIN_NAME_LEN {
            return Err(String::from_str("The name must contains more than 8 letters."));
        }
        if self.email.as_str().unicode_len() < MIN_EMAIL_LEN {
            return Err(String::from_str("The email must contains more than 10 letters."));
        }
        if self.password.as_str().unicode_len() < MIN_PASSWORD_LEN {
            return Err(String::from_str("The password must contains more than 8 letters."));
        }
        Ok(
            CreateUser {
                name: self.name.clone(),
                email: self.email.clone(),
                password: self.password.clone(),
                image: copy_opt(&self.image),
            },
        )
    }
}

/// The row to store for an account whose password has been hashed: the
/// account as given, with the hash in place of the password; no hash is an
/// internal server error.
pub fn account_row(account: CreateUser, hashed: Option<String>) -> (r: Result<CreateUser, ApiError>)
    ensures
        match hashed {
            Some(h) => r matches Ok(u) && u.name == account.name && u.email == account.email
                && u.image == account.image && u.password == h,
            None => r matches Err(ApiError::InternalServerError(None)),
        },
{
    match hashed {
        Some(h) => Ok(CreateUser { name: account.name, email: account.email, password: h, image: account.image }),
        None => Err(ApiError::InternalServerError(None)),
    }
}

/// Registration: a valid account is returned as the row to insert, with its
/// password replaced by a bcrypt hash of it; an invalid one is refused with
/// the validation message, as an unprocessable entity.
pub fn register(body: &CreateUser) -> (r: Result<CreateUser, ApiError>)
    ensures
        validation_message(*body) matches Some(m) ==> (r matches Err(ApiError::UnprocessableEntity(Some(e)))
            && e@ == m),
        validation_message(*body) is None ==> match r {
            Ok(u) => u.name@ == body.name@ && u.email@ == body.email@ && opt_view(u.image) == opt_view(body.image)
                && bcrypt_verifies(body.password@, u.password@),
            Err(e) => e matches ApiError::InternalServerError(None),
        },
{
    let account = match body.validate() {
        Ok(a) => a,
        Err(m) => return Err(ApiError::UnprocessableEntity(Some(m))),
    };
    let hashed = hash_password(account.password.as_str());
    account_row(account, hashed)
}

/// A profile update: the account as given, its password hashed.
pub fn update_user(body: &CreateUser) -> (r: Result<CreateUser, ApiError>)
    ensures
        match r {
            Ok(u) => u.name@ == body.name@ && u.email@ == body.email@ && opt_view(u.image) == opt_view(body.image)
                && bcrypt_verifies(body.password@, u.password@),
            Err(e) => e matches ApiError::InternalServerError(None),
        },
{
    let account = CreateUser {
        name: body.name.clone(),
        email: body.email.clone(),
        password: body.password.clone(),
        image: copy_opt(&body.image),
    };
    let hashed = hash_password(body.password.as_str());
    account_row(account, hashed)
}

} // verus!
