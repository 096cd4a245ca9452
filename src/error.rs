use vstd::prelude::*;
use vstd::string::*;

verus! {

/// Every failure a request can end in; each carries an optional message for
/// the client.
#[derive(Debug)]
pub enum ApiError {
    InternalDatabaseError(Option<String>),
    InternalServerError(Option<String>),
    Unauthorized(Option<String>),
    Forbidden(Option<String>),
    BadRequest(Option<String>),
    UnprocessableEntity(Option<String>),
    Conflict(Option<String>),
}

/// A failed store operation, as the storage adapter reports it: a database
/// error with its SQLSTATE code and detail line, or any other failure.
#[derive(Debug)]
pub enum StoreError {
    Database { code: String, detail: Option<String> },
    Other,
}

/// The SQLSTATE code of a unique-constraint violation.
pub const UNIQUE_VIOLATION: &'static str = "23505";

pub open spec fn status_of(e: ApiError) -> u16 {
    match e {
        ApiError::InternalDatabaseError(_) => 500,
        ApiError::InternalServerError(_) => 500,
        ApiError::Unauthorized(_) => 401,
        ApiError::Forbidden(_) => 403,
        ApiError::BadRequest(_) => 400,
        ApiError::UnprocessableEntity(_) => 422,
        ApiError::Conflict(_) => 409,
    }
}

pub open spec fn title_of(e: ApiError) -> Seq<char> {
    match e {
        ApiError::InternalDatabaseError(_) => "Internal database error!"@,
        ApiError::InternalServerError(_) => "Internal server error!"@,
        ApiError::Unauthorized(_) => "Unauthorized request!"@,
        ApiError::Forbidden(_) => "Forbidden resource!"@,
        ApiError::BadRequest(_) => "Bad request!"@,
        ApiError::UnprocessableEntity(_) => "Unprocessable entity!"@,
        ApiError::Conflict(_) => "Conflicting resource!"@,
    }
}

pub open spec fn detail_of(e: ApiError) -> Option<String> {
    match e {
        ApiError::InternalDatabaseError(m) => m,
        ApiError::InternalServerError(m) => m,
        ApiError::Unauthorized(m) => m,
        ApiError::Forbidden(m) => m,
        ApiError::BadRequest(m) => m,
        ApiError::UnprocessableEntity(m) => m,
        ApiError::Conflict(m) => m,
    }
}

/// The message the client sees: the error's own message, or its title.
pub open spec fn message_of(e: ApiError) -> Seq<char> {
    match detail_of(e) {
        Some(m) => m@,
        None => title_of(e),
    }
}

/// The text after the first `(` of `s`, if there is one.
pub open spec fn after_open(s: Seq<char>) -> Option<Seq<char>>
    decreases s.len(),
{
    if s.len() == 0 {
        None
    } else if s[0] == '(' {
        Some(s.drop_first())
    } else {
        after_open(s.drop_first())
    }
}

/// The leading run of `s` before any `)` or `(`.
pub open spec fn group_of(s: Seq<char>) -> Seq<char>
    decreases s.len(),
{
    if s.len() == 0 || s[0] == ')' || s[0] == '(' {
        Seq::empty()
    } else {
        seq![s[0]] + group_of(s.drop_first())
    }
}

/// The first two parenthesised groups of a unique-violation detail such as
/// `Key (email)=(a@b.io) already exists.`: the column and the value.
pub open spec fn unique_fields(detail: Seq<char>) -> Option<(Seq<char>, Seq<char>)> {
    match after_open(detail) {
        Some(r1) => match after_open(r1) {
            Some(r2) => Some((group_of(r1), group_of(r2))),
            None => None,
        },
        None => None,
    }
}

pub open spec fn conflict_message(field: Seq<char>, value: Seq<char>) -> Seq<char> {
    "The "@ + field + " "@ + value + " already exists."@
}

/// A store error that names a duplicated unique key the client can be told of.
pub open spec fn unique_violation(e: StoreError) -> Option<(Seq<char>, Seq<char>)> {
    match e {
        StoreError::Database { code, detail: Some(d) } => if code@ == UNIQUE_VIOLATION@ {
            unique_fields(d@)
        } else {
            None
        },
        _ => None,
    }
}

impl ApiError {
    /// The HTTP status of the error.
    pub fn status_code(&self) -> (r: u16)
        ensures
            r == status_of(*self),
    {
        match self {
            ApiError::InternalDatabaseError(_) => 500,
            ApiError::InternalServerError(_) => 500,
            ApiError::Unauthorized(_) => 401,
            ApiError::Forbidden(_) => 403,
            ApiError::BadRequest(_) => 400,
            ApiError::UnprocessableEntity(_) => 422,
            ApiError::Conflict(_) => 409,
        }
    }

    /// The generic title of the error's kind.
    pub fn title(&self) -> (r: String)
        ensures
            r@ == title_of(*self),
    {
        proof {
            reveal_strlit("Internal database error!");
            reveal_strlit("Internal server error!");
            reveal_strlit("Unauthorized request!");
            reveal_strlit("Forbidden resource!");
            reveal_strlit("Bad request!");
            reveal_strlit("Unprocessable entity!");
            reveal_strlit("Conflicting resource!");
        }
        let t: &str = match self {
            ApiError::InternalDatabaseError(_) => "Internal database error!",
            ApiError::InternalServerError(_) => "Internal server error!",
            ApiError::Unauthorized(_) => "Unauthorized request!",
            ApiError::Forbidden(_) => "Forbidden resource!",
            ApiError::BadRequest(_) => "Bad request!",
            ApiError::UnprocessableEntity(_) => "Unprocessable entity!",
            ApiError::Conflict(_) => "Conflicting resource!",
        };
        String::from_str(t)
    }

    /// The message of the error body: the carried message, else the title.
    pub fn message(&self) -> (r: String)
        ensures
            r@ == message_of(*self),
    {
        let m = match self {
            ApiError::InternalDatabaseError(m) => m,
            ApiError::InternalServerError(m) => m,
            ApiError::Unauthorized(m) => m,
            ApiError::Forbidden(m) => m,
            ApiError::BadRequest(m) => m,
            ApiError::UnprocessableEntity(m) => m,
            ApiError::Conflict(m) => m,
        };
        match m {
            Some(m) => m.clone(),
            None => self.title(),
        }
    }
}

/// Index of the first `(` at or after `from`, if any.
fn find_open(s: &str, from: usize) -> (r: Option<usize>)
    requires
        from <= s@.len(),
    ensures
        match r {
            Some(i) => from <= i < s@.len() && after_open(s@.subrange(from as int, s@.len() as int))
                == Some(s@.subrange(i + 1, s@.len() as int)),
            None => after_open(s@.subrange(from as int, s@.len() as int)) is None,
        },
{
    let n = s.unicode_len();
    let mut i: usize = from;
    while i < n
        invariant
            n == s@.len(),
            from <= i <= n,
            after_open(s@.subrange(from as int, n as int)) == after_open(s@.subrange(i as int, n as int)),
        decreases n - i,
    {
        assert(s@.subrange(i as int, n as int).drop_first() =~= s@.subrange(i + 1, n as int));
        if s.get_char(i) == '(' {
            return Some(i);
        }
        i = i + 1;
    }
    None
}

/// End of the group that starts at `from`: the first `)` or `(`, or the end.
fn group_end(s: &str, from: usize) -> (r: usize)
    requires
        from <= s@.len(),
    ensures
        from <= r <= s@.len(),
        group_of(s@.subrange(from as int, s@.len() as int)) == s@.subrange(from as int, r as int),
{
    let n = s.unicode_len();
    let mut i: usize = from;
    while i < n
        invariant
            n == s@.len(),
            from <= i <= n,
            group_of(s@.subrange(from as int, n as int)) == s@.subrange(from as int, i as int) + group_of(
                s@.subrange(i as int, n as int),
            ),
        decreases n - i,
    {
        let c = s.get_char(i);
        if c == ')' || c == '(' {
            assert(group_of(s@.subrange(i as int, n as int)) =~= Seq::<char>::empty());
            assert(s@.subrange(from as int, i as int) + Seq::<char>::empty() =~= s@.subrange(from as int, i as int));
            return i;
        }
        assert(s@.subrange(i as int, n as int).drop_first() =~= s@.subrange(i + 1, n as int));
        assert(s@.subrange(from as int, i as int) + seq![c] =~= s@.subrange(from as int, i + 1));
        i = i + 1;
    }
    assert(group_of(s@.subrange(n as int, n as int)) =~= Seq::<char>::empty());
    assert(s@.subrange(from as int, n as int) + Seq::<char>::empty() =~= s@.subrange(from as int, n as int));
    n
}

/// The column and the value named by a unique-violation detail, if it names both.
pub fn unique_detail_fields(detail: &str) -> (r: Option<(String, String)>)
    ensures
        match unique_fields(detail@) {
            Some((f, v)) => r matches Some((rf, rv)) && rf@ == f && rv@ == v,
            None => r is None,
        },
{
    let n = detail.unicode_len();
    assert(detail@.subrange(0, n as int) =~= detail@);
    let o1 = match find_open(detail, 0) {
        Some(i) => i + 1,
        None => return None,
    };
    let o2 = match find_open(detail, o1) {
        Some(i) => i + 1,
        None => return None,
    };
    let e1 = group_end(detail, o1);
    let e2 = group_end(detail, o2);
    let field = String::from_str(detail.substring_char(o1, e1));
    let value = String::from_str(detail.substring_char(o2, e2));
    Some((field, value))
}

/// The client message for a duplicated unique key, built from the store's
/// detail line: `The <column> <value> already exists.`
pub fn format_detail_from_unique(detail: String) -> (r: String)
    requires
        unique_fields(detail@) is Some,
    ensures
        unique_fields(detail@) matches Some((f, v)) && r@ == conflict_message(f, v),
{
    let (field, value) = unique_detail_fields(detail.as_str()).unwrap();
    proof {
        reveal_strlit("The ");
        reveal_strlit(" ");
        reveal_strlit(" already exists.");
    }
    let mut r = String::from_str("The ");
    r.append(field.as_str());
    r.append(" ");
    r.append(value.as_str());
    r.append(" already exists.");
    r
}

/// Translates a store failure for the client: a unique-key violation whose
/// detail names the key becomes a `Conflict` that names it; anything else is
/// an internal database error whose details stay hidden.
pub fn from_store_error(e: &StoreError) -> (r: ApiError)
    ensures
        match unique_violation(*e) {
            Some((f, v)) => r matches ApiError::Conflict(Some(m)) && m@ == conflict_message(f, v),
            None => r matches ApiError::InternalDatabaseError(None),
        },
{
    match e {
        StoreError::Database { code, detail: Some(d) } => {
            let unique = String::from_str(UNIQUE_VIOLATION);
            if *code == unique && unique_detail_fields(d.as_str()).is_some() {
                ApiError::Conflict(Some(format_detail_from_unique(d.clone())))
            } else {
                ApiError::InternalDatabaseError(None)
            }
        },
        _ => ApiError::InternalDatabaseError(None),
    }
}

/// Passes a stored row on, or translates the store's failure.
pub fn finish<T>(r: Result<T, StoreError>) -> (out: Result<T, ApiError>)
    ensures
        match r {
            Ok(t) => out == Ok::<T, ApiError>(t),
            Err(e) => match unique_violation(e) {
                Some((f, v)) => out matches Err(ApiError::Conflict(Some(m))) && m@ == conflict_message(f, v),
                None => out matches Err(ApiError::InternalDatabaseError(None)),
            },
        },
{
    match r {
        Ok(t) => Ok(t),
        Err(e) => Err(from_store_error(&e)),
    }
}

/// Whether `s` holds no parenthesis.
pub open spec fn no_parens(s: Seq<char>) -> bool {
    forall|i: int| 0 <= i < s.len() ==> s[i] != '(' && s[i] != ')'
}

/// The detail line a store gives for a duplicated unique key:
/// `Key (<field>)=(<value>) already exists.`
pub open spec fn duplicate_detail(field: Seq<char>, value: Seq<char>) -> Seq<char> {
    "Key "@ + seq!['('] + field + seq![')', '=', '('] + value + seq![')'] + " already exists."@
}

proof fn lemma_after_open_skips(p: Seq<char>, rest: Seq<char>)
    requires
        forall|i: int| 0 <= i < p.len() ==> p[i] != '(',
    ensures
        after_open(p + seq!['('] + rest) == Some(rest),
    decreases p.len(),
{
    let s = p + seq!['('] + rest;
    if p.len() == 0 {
        assert(s.drop_first() =~= rest);
    } else {
        assert(s[0] == p[0]);
        assert(s.drop_first() =~= p.drop_first() + seq!['('] + rest);
        lemma_after_open_skips(p.drop_first(), rest);
    }
}

proof fn lemma_group_stops(g: Seq<char>, rest: Seq<char>)
    requires
        no_parens(g),
        rest.len() > 0,
        rest[0] == ')',
    ensures
        group_of(g + rest) == g,
    decreases g.len(),
{
    let s = g + rest;
    if g.len() == 0 {
        assert(s[0] == ')');
        assert(s =~= rest);
    } else {
        assert(s[0] == g[0]);
        assert(s.drop_first() =~= g.drop_first() + rest);
        lemma_group_stops(g.drop_first(), rest);
        assert(seq![g[0]] + g.drop_first() =~= g);
    }
}

/// A store's report of a duplicated unique key turns into a conflict that
/// names the key's column and value, for any column and value without
/// parentheses: a second registration with a taken email is told
/// `The email <value> already exists.`
pub proof fn lemma_duplicate_key_conflict(code: String, field: Seq<char>, value: Seq<char>, detail: String)
    requires
        code@ == UNIQUE_VIOLATION@,
        detail@ == duplicate_detail(field, value),
        no_parens(field),
        no_parens(value),
    ensures
        unique_violation(StoreError::Database { code, detail: Some(detail) }) == Some((field, value)),
{
    reveal_strlit("Key ");
    let tail = " already exists."@;
    let r1 = field + seq![')', '=', '('] + value + seq![')'] + tail;
    assert(detail@ =~= "Key "@ + seq!['('] + r1);
    lemma_after_open_skips("Key "@, r1);
    let r2 = value + seq![')'] + tail;
    let p2 = field + seq![')', '='];
    assert(r1 =~= p2 + seq!['('] + r2);
    assert forall|i: int| 0 <= i < p2.len() implies p2[i] != '(' by {
        if i < field.len() {
            assert(p2[i] == field[i]);
        }
    }
    lemma_after_open_skips(p2, r2);
    assert(r1 =~= field + (seq![')', '=', '('] + value + seq![')'] + tail));
    lemma_group_stops(field, seq![')', '=', '('] + value + seq![')'] + tail);
    assert(r2 =~= value + (seq![')'] + tail));
    lemma_group_stops(value, seq![')'] + tail);
}

} // verus!
