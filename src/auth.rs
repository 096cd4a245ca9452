use vstd::prelude::*;
use vstd::string::*;
use crate::error::{ApiError, StoreError};
use crate::ids::{parse_uuid, uuid_parse_of, uuid_text, uuid_text_of};
use crate::user::{bcrypt_verifies, opt_view, password_matches, user_info, LoginUser, User, UserId, UserInfo};

verus! {

/// The signed payload of a bearer token: the subject's id as text, and the
/// Unix second at which the token stops being accepted.
#[derive(Debug)]
pub struct Claims {
    pub sub: String,
    pub exp: u64,
}

/// How long an issued token lives: 120 minutes.
pub const TOKEN_TTL_SECONDS: i64 = 7200;

/// A successful login: what the client may see of the account, the claims of
/// its token, and the signed token.
#[derive(Debug)]
pub struct LoginGrant {
    pub user: UserInfo,
    pub claims: Claims,
    pub token: String,
}

/// What the signature check made of a request's bearer token.
#[derive(Debug)]
pub enum BearerCheck {
    /// The request carried no bearer token.
    Missing,
    /// The token is malformed or its signature does not verify.
    Invalid,
    /// The token is signed by this server and carries these claims.
    Signed(Claims),
}

/// The first Unix second that `chrono` can represent: the start of year -262143.
pub const MIN_UNIX_SECOND: i64 = -8_334_601_315_200;

/// The last Unix second that `chrono` can represent: the end of year 262142.
pub const MAX_UNIX_SECOND: i64 = 8_210_266_876_799;

/// Relies on `chrono::Utc::now`: the current Unix second, which is never
/// before the epoch (chrono panics on such a clock) and never past chrono's
/// last representable second.
#[verifier::external_body]
fn unix_now() -> (r: i64)
    ensures
        0 <= r <= MAX_UNIX_SECOND,
{
    chrono::Utc::now().timestamp()
}

/// The compact HS256 JSON Web Token that signs the claims `{sub, exp}` with
/// `secret`.
pub uninterp spec fn jwt_of(sub: Seq<char>, exp: u64, secret: Seq<char>) -> Seq<char>;

/// Relies on `jsonwebtoken::encode` with the default HS256 header and an HMAC
/// key: on a JSON object of claims it cannot fail, and the token depends on
/// the claims and the secret alone.
#[verifier::external_body]
fn sign_token(sub: &str, exp: u64, secret: &str) -> (r: String)
    ensures
        r@ == jwt_of(sub@, exp, secret@),
{
    let mut claims = serde_json::Map::new();
    claims.insert("sub".to_string(), serde_json::Value::from(sub));
    claims.insert("exp".to_string(), serde_json::Value::from(exp));
    let key = jsonwebtoken::EncodingKey::from_secret(secret.as_bytes());
    jsonwebtoken::encode(&jsonwebtoken::Header::default(), &claims, &key).unwrap_or_default()
}

/// Whether a token issued at `now` has an expiry that fits its field.
pub open spec fn expiry_fits(now: int) -> bool {
    0 <= now + TOKEN_TTL_SECONDS <= i64::MAX
}

/// Whether `c` is what `issue_claims` returns for `subject` at `at`: the
/// subject's id as UUID text, which reads back as that id, and the expiry
/// `at` plus the token lifetime.
pub open spec fn issued_for(c: Claims, subject: UserId, at: int) -> bool {
    &&& c.sub@ == uuid_text_of(subject.id)
    &&& uuid_parse_of(c.sub@) == Some(subject.id)
    &&& c.exp == at + TOKEN_TTL_SECONDS
}

/// The claims for `subject`, issued at Unix second `now`; none where the
/// expiry would not be a Unix second that fits an `i64`.
pub fn issue_claims(subject: UserId, now: i64) -> (r: Option<Claims>)
    ensures
        expiry_fits(now as int) <==> r is Some,
        r matches Some(c) ==> issued_for(c, subject, now as int),
{
    if now < -TOKEN_TTL_SECONDS || now > i64::MAX - TOKEN_TTL_SECONDS {
        return None;
    }
    Some(Claims { sub: uuid_text(subject.id), exp: (now + TOKEN_TTL_SECONDS) as u64 })
}

/// The one refusal of a login, whether the email or the password was wrong.
pub open spec fn rejected_login(r: Result<LoginGrant, ApiError>) -> bool {
    r matches Err(ApiError::Forbidden(Some(m))) && m@ == "Incorrect email or password!"@
}

/// The grant for a user whose password was accepted, at Unix second `now`,
/// with its token signed by `secret`.
pub fn grant_login(user: &User, now: i64, secret: &str) -> (r: Result<LoginGrant, ApiError>)
    ensures
        expiry_fits(now as int) ==> (r matches Ok(g) && g.user.name@ == user.name@ && g.user.email@ == user.email@
            && opt_view(g.user.image) == opt_view(user.image) && issued_for(g.claims, UserId { id: user.id }, now as int)
            && g.token@ == jwt_of(g.claims.sub@, g.claims.exp, secret@)),
        !expiry_fits(now as int) ==> r matches Err(ApiError::InternalServerError(None)),
{
    match issue_claims(UserId { id: user.id }, now) {
        Some(claims) => {
            let token = sign_token(claims.sub.as_str(), claims.exp, secret);
            Ok(LoginGrant { user: user_info(user), claims, token })
        },
        None => Err(ApiError::InternalServerError(None)),
    }
}

/// Login against the account found under the given email, if any: no account
/// and a wrong password are refused alike, so the reply never tells whether
/// the email is known; otherwise the grant is issued for the current time,
/// its token signed by `secret`.
pub fn login(body: &LoginUser, found: Option<User>, secret: &str) -> (r: Result<LoginGrant, ApiError>)
    ensures
        match found {
            None => rejected_login(r),
            Some(u) => if !bcrypt_verifies(body.password@, u.password@) {
                rejected_login(r)
            } else {
                r matches Ok(g) && g.user.name@ == u.name@ && g.user.email@ == u.email@
                    && opt_view(g.user.image) == opt_view(u.image)
                    && (exists|at: int| 0 <= at <= MAX_UNIX_SECOND && issued_for(g.claims, UserId { id: u.id }, at))
                    && g.token@ == jwt_of(g.claims.sub@, g.claims.exp, secret@)
            },
        },
{
    proof {
        reveal_strlit("Incorrect email or password!");
    }
    let user = match found {
        Some(u) => u,
        None => return Err(ApiError::Forbidden(Some(String::from_str("Incorrect email or password!")))),
    };
    if !password_matches(body.password.as_str(), user.password.as_str()) {
        return Err(ApiError::Forbidden(Some(String::from_str("Incorrect email or password!"))));
    }
    grant_login(&user, unix_now(), secret)
}

/// The subject a bearer token stands for at Unix second `now`: a signed,
/// unexpired token whose subject is a UUID.
pub open spec fn subject_spec(check: BearerCheck, now: int) -> Option<u128> {
    match check {
        BearerCheck::Signed(c) => if now < c.exp {
            uuid_parse_of(c.sub@)
        } else {
            None
        },
        _ => None,
    }
}

/// The bearer gate's first half, at Unix second `now`: a missing, unsigned,
/// malformed or expired token, or one whose subject is no UUID, is refused as
/// unauthorized; otherwise the subject is the identity to look up.
pub fn subject_of(check: &BearerCheck, now: i64) -> (r: Result<UserId, ApiError>)
    ensures
        match subject_spec(*check, now as int) {
            Some(id) => r == Ok::<UserId, ApiError>(UserId { id }),
            None => r matches Err(ApiError::Unauthorized(Some(_))),
        },
        check is Missing ==> (r matches Err(ApiError::Unauthorized(Some(m))) && m@ == "Bearer token missing!"@),
        check is Invalid ==> (r matches Err(ApiError::Unauthorized(Some(m))) && m@ == "Bearer token not valid!"@),
        (check matches BearerCheck::Signed(c) && now >= c.exp) ==> (r matches Err(ApiError::Unauthorized(Some(m)))
            && m@ == "Bearer token not valid!"@),
        (check matches BearerCheck::Signed(c) && now < c.exp && uuid_parse_of(c.sub@) is None) ==> (
        r matches Err(ApiError::Unauthorized(Some(m))) && m@ == "Not processable token!"@),
{
    proof {
        reveal_strlit("Bearer token missing!");
        reveal_strlit("Bearer token not valid!");
        reveal_strlit("Not processable token!");
    }
    let claims = match check {
        BearerCheck::Missing => {
            return Err(ApiError::Unauthorized(Some(String::from_str("Bearer token missing!"))));
        },
        BearerCheck::Invalid => {
            return Err(ApiError::Unauthorized(Some(String::from_str("Bearer token not valid!"))));
        },
        BearerCheck::Signed(c) => c,
    };
    if now >= 0 && now as u64 >= claims.exp {
        return Err(ApiError::Unauthorized(Some(String::from_str("Bearer token not valid!"))));
    }
    match parse_uuid(claims.sub.as_str()) {
        Some(id) => Ok(UserId { id }),
        None => Err(ApiError::Unauthorized(Some(String::from_str("Not processable token!")))),
    }
}

/// The bearer gate's first half, at the current time.
pub fn admit_bearer(check: &BearerCheck) -> (r: Result<UserId, ApiError>)
    ensures
        exists|now: int|
            0 <= now <= MAX_UNIX_SECOND && match #[trigger] subject_spec(*check, now) {
                Some(id) => r == Ok::<UserId, ApiError>(UserId { id }),
                None => r matches Err(ApiError::Unauthorized(Some(_))),
            },
        check matches BearerCheck::Signed(c) ==> (c.exp > MAX_UNIX_SECOND && uuid_parse_of(c.sub@) is Some ==> r
            == Ok::<UserId, ApiError>(UserId { id: uuid_parse_of(c.sub@)->0 })),
        !(check is Signed) ==> r matches Err(ApiError::Unauthorized(Some(_))),
        (check matches BearerCheck::Signed(c) && uuid_parse_of(c.sub@) is None) ==> r matches Err(
            ApiError::Unauthorized(Some(_)),
        ),
{
    let now = unix_now();
    let r = subject_of(check, now);
    proof {
        // `now` is the witness of the first clause.
        let _ = subject_spec(*check, now as int);
    }
    r
}

/// Whether the store's answer to the subject lookup is that subject's row.
pub open spec fn resolves(subject: UserId, found: Result<Option<UserId>, StoreError>) -> bool {
    found matches Ok(Some(u)) && u == subject
}

/// The bearer gate's second half: the subject must still have an account.
/// A lookup that finds none is unauthorized; any failed lookup is an internal
/// database error, never taken for an unauthorized request.
pub fn resolve_subject(subject: UserId, found: Result<Option<UserId>, StoreError>) -> (r: Result<UserId, ApiError>)
    ensures
        resolves(subject, found) <==> r == Ok::<UserId, ApiError>(subject),
        found matches Ok(f) && !resolves(subject, found) ==> (r matches Err(ApiError::Unauthorized(Some(m)))
            && m@ == "User doesn't exist anymore!"@),
        found is Err ==> r matches Err(ApiError::InternalDatabaseError(None)),
{
    proof {
        reveal_strlit("User doesn't exist anymore!");
    }
    match found {
        Ok(Some(u)) => if u == subject {
            Ok(u)
        } else {
            Err(ApiError::Unauthorized(Some(String::from_str("User doesn't exist anymore!"))))
        },
        Ok(None) => Err(ApiError::Unauthorized(Some(String::from_str("User doesn't exist anymore!")))),
        Err(_) => Err(ApiError::InternalDatabaseError(None)),
    }
}

/// Whether the whole gate admits `check` at `now` as `id`, given the store's
/// answer to the lookup of the token's subject.
pub open spec fn admits(check: BearerCheck, now: int, found: Result<Option<UserId>, StoreError>, id: u128) -> bool {
    subject_spec(check, now) == Some(id) && resolves(UserId { id }, found)
}

/// A token issued for `subject` at `issued_at` is admitted at `now` as that
/// subject exactly when the subject still has an account and `now` is before
/// the token's expiry; once the account is gone, the token is refused even
/// though it has not expired.
pub proof fn lemma_issued_token_admitted(
    subject: UserId,
    issued_at: i64,
    claims: Claims,
    now: int,
    found: Result<Option<UserId>, StoreError>,
)
    requires
        issued_for(claims, subject, issued_at as int),
    ensures
        admits(BearerCheck::Signed(claims), now, found, subject.id) <==> (resolves(subject, found) && now
            < issued_at + TOKEN_TTL_SECONDS),
        forall|id: u128| admits(BearerCheck::Signed(claims), now, found, id) ==> id == subject.id,
{
}

/// A token that is missing, unsigned or malformed, expired, or whose subject
/// is no UUID is never admitted, whatever the store holds: such a request is
/// refused, never served as anonymous.
pub proof fn lemma_bad_token_refused(
    check: BearerCheck,
    now: int,
    found: Result<Option<UserId>, StoreError>,
    id: u128,
)
    requires
        match check {
            BearerCheck::Signed(c) => now >= c.exp || uuid_parse_of(c.sub@) is None,
            _ => true,
        },
    ensures
        !admits(check, now, found, id),
        subject_spec(check, now) is None,
{
}

} // verus!
