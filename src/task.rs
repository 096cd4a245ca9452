use vstd::prelude::*;
use vstd::string::*;
use crate::error::{finish, unique_violation, ApiError, StoreError};
use crate::ids::{parse_uuid, uuid_parse_of};
use crate::user::UserId;
use crate::auth::{MAX_UNIX_SECOND, MIN_UNIX_SECOND};

verus! {

/// A point in time: seconds since the Unix epoch and the nanoseconds past it.
#[derive(Clone, Copy, Debug, PartialEq, Eq, Structural)]
pub struct Timestamp {
    pub seconds: i64,
    pub nanos: u32,
}

impl Timestamp {
    /// Whether the point can be a date of a task: within the seconds a date can
    /// have, and with the nanoseconds below one second, or below two on a
    /// leap second (a second that ends a minute).
    pub open spec fn valid(self) -> bool {
        &&& MIN_UNIX_SECOND <= self.seconds <= MAX_UNIX_SECOND
        &&& (self.nanos < 1_000_000_000 || (self.nanos < 2_000_000_000 && self.seconds % 60 == 59))
    }

    pub fn is_valid(&self) -> (r: bool)
        ensures
            r == self.valid(),
    {
        if self.seconds < MIN_UNIX_SECOND || self.seconds > MAX_UNIX_SECOND {
            return false;
        }
        // The first second is a whole number of minutes, so the offset from it
        // has the same remainder.
        let offset: u64 = (self.seconds - MIN_UNIX_SECOND) as u64;
        assert(MIN_UNIX_SECOND % 60 == 0);
        assert(offset % 60 == self.seconds % 60) by (nonlinear_arith)
            requires
                offset == self.seconds - MIN_UNIX_SECOND,
                MIN_UNIX_SECOND % 60 == 0,
                MIN_UNIX_SECOND < 0,
        ;
        self.nanos < 1_000_000_000 || (self.nanos < 2_000_000_000 && offset % 60 == 59)
    }
}

/// Whether a task's optional date is absent or valid.
pub open spec fn date_ok(date: Option<Timestamp>) -> bool {
    date matches Some(t) ==> t.valid()
}

fn check_date(date: &Option<Timestamp>) -> (r: Result<(), ApiError>)
    ensures
        date_ok(*date) <==> r is Ok,
        !date_ok(*date) ==> (r matches Err(ApiError::BadRequest(Some(m))) && m@ == "Invalid task date!"@),
{
    proof {
        reveal_strlit("Invalid task date!");
    }
    match date {
        Some(t) => if t.is_valid() {
            Ok(())
        } else {
            Err(ApiError::BadRequest(Some(String::from_str("Invalid task date!"))))
        },
        None => Ok(()),
    }
}

/// A stored task; `user_id` is its owner and never changes.
#[derive(Debug)]
pub struct Task {
    pub id: u128,
    pub name: String,
    pub description: Option<String>,
    pub tag: String,
    pub date: Option<Timestamp>,
    pub user_id: u128,
}

/// The fields an owner may change on a task, and the task's id.
#[derive(Debug)]
pub struct UpdateTask {
    pub id: u128,
    pub name: String,
    pub description: Option<String>,
    pub tag: String,
    pub date: Option<Timestamp>,
}

/// The stored owner of a task.
#[derive(Clone, Copy, Debug, PartialEq, Eq, Structural)]
pub struct UserIdTask {
    pub user_id: u128,
}

/// A task as a client asks for it to be created.
#[derive(Debug)]
pub struct CreateTask {
    pub name: String,
    pub description: Option<String>,
    pub tag: String,
    pub date: Option<Timestamp>,
}

/// The row to insert for a new task: the request's fields and its owner.
#[derive(Debug)]
pub struct NewTask {
    pub name: String,
    pub description: Option<String>,
    pub tag: String,
    pub date: Option<Timestamp>,
    pub user_id: u128,
}

/// The tasks of `rows` that `owner` owns, in their order.
pub open spec fn owned_by(rows: Seq<Task>, owner: u128) -> Seq<Task>
    decreases rows.len(),
{
    if rows.len() == 0 {
        Seq::empty()
    } else {
        let before = owned_by(rows.drop_last(), owner);
        if rows.last().user_id == owner {
            before.push(rows.last())
        } else {
            before
        }
    }
}

/// The row to insert for `body`, owned by the caller; the other fields are
/// taken as given. A date that no calendar date can be is a bad request.
pub fn create_task(body: CreateTask, user: &UserId) -> (r: Result<NewTask, ApiError>)
    ensures
        date_ok(body.date) ==> (r matches Ok(t) && t.name == body.name && t.description == body.description && t.tag
            == body.tag && t.date == body.date && t.user_id == user.id),
        !date_ok(body.date) ==> (r matches Err(ApiError::BadRequest(Some(m))) && m@ == "Invalid task date!"@),
{
    check_date(&body.date)?;
    Ok(NewTask { name: body.name, description: body.description, tag: body.tag, date: body.date, user_id: user.id })
}

/// The task list of the caller: of the rows the store returned, those the
/// caller owns, in their order; a failed read is translated.
pub fn get_task_by_user(user: &UserId, rows: Result<Vec<Task>, StoreError>) -> (r: Result<Vec<Task>, ApiError>)
    ensures
        match rows {
            Ok(v) => r matches Ok(out) && out@ == owned_by(v@, user.id),
            Err(e) => match unique_violation(e) {
                Some(_) => r matches Err(ApiError::Conflict(_)),
                None => r matches Err(ApiError::InternalDatabaseError(None)),
            },
        },
{
    let mut rows = finish(rows)?;
    let ghost all = rows@;
    let n = rows.len();
    let mut reversed: Vec<Task> = Vec::new();
    while rows.len() > 0
        invariant
            rows@ == all.take(rows.len() as int),
            rows.len() + reversed.len() == n,
            n == all.len(),
            forall|j: int| 0 <= j < reversed.len() ==> reversed@[j] == all[n - 1 - j],
        decreases rows.len(),
    {
        let t = rows.pop().unwrap();
        reversed.push(t);
        assert(rows@ =~= all.take(rows.len() as int));
    }
    let ghost rev = reversed@;
    let mut out: Vec<Task> = Vec::new();
    while reversed.len() > 0
        invariant
            reversed@ == rev.take(reversed.len() as int),
            reversed.len() <= n,
            rev.len() == n,
            n == all.len(),
            forall|j: int| 0 <= j < n ==> rev[j] == all[n - 1 - j],
            out@ == owned_by(all.take(n - reversed.len()), user.id),
        decreases reversed.len(),
    {
        let ghost k = n - reversed.len();
        let t = reversed.pop().unwrap();
        assert(reversed@ =~= rev.take(reversed.len() as int));
        assert(all.take(k + 1).drop_last() =~= all.take(k));
        if t.user_id == user.id {
            out.push(t);
        }
    }
    assert(all.take(n as int) =~= all);
    Ok(out)
}

/// Whether the caller may change a task, from the store's answer to the
/// lookup of its owner: a failed lookup is translated, a missing task is
/// not found, and a task of someone else is forbidden.
pub open spec fn owner_check_ok(user: UserId, owner: Result<Option<UserIdTask>, StoreError>) -> bool {
    owner matches Ok(Some(o)) && o.user_id == user.id
}

fn check_owner(user: &UserId, owner: Result<Option<UserIdTask>, StoreError>, refusal: &str) -> (r: Result<
    (),
    ApiError,
>)
    ensures
        owner_check_ok(*user, owner) <==> r is Ok,
        owner matches Ok(None) ==> (r matches Err(ApiError::UnprocessableEntity(Some(m))) && m@ == "Task not found!"@),
        (owner matches Ok(Some(o)) && o.user_id != user.id) ==> (r matches Err(ApiError::Forbidden(Some(m))) && m@
            == refusal@),
        owner matches Err(e) ==> match unique_violation(e) {
            Some(_) => r matches Err(ApiError::Conflict(_)),
            None => r matches Err(ApiError::InternalDatabaseError(None)),
        },
{
    proof {
        reveal_strlit("Task not found!");
    }
    match finish(owner) {
        Ok(Some(o)) => if o.user_id == user.id {
            Ok(())
        } else {
            Err(ApiError::Forbidden(Some(String::from_str(refusal))))
        },
        Ok(None) => Err(ApiError::UnprocessableEntity(Some(String::from_str("Task not found!")))),
        Err(e) => Err(e),
    }
}

/// An update of `body`, given the store's answer to the lookup of its owner:
/// allowed only to the owner, as the fields to write; the owner stays as it
/// was, whatever the body says. The owner's update with a date that no
/// calendar date can be is a bad request.
pub fn update_task(user: &UserId, body: Task, owner: Result<Option<UserIdTask>, StoreError>) -> (r: Result<
    UpdateTask,
    ApiError,
>)
    ensures
        owner_check_ok(*user, owner) && !date_ok(body.date) ==> (r matches Err(ApiError::BadRequest(Some(m))) && m@
            == "Invalid task date!"@),
        owner_check_ok(*user, owner) && date_ok(body.date) ==> (r matches Ok(u) && u.id == body.id && u.name == body.name && u.description
            == body.description && u.tag == body.tag && u.date == body.date),
        owner matches Ok(None) ==> (r matches Err(ApiError::UnprocessableEntity(Some(m))) && m@ == "Task not found!"@),
        (owner matches Ok(Some(o)) && o.user_id != user.id) ==> (r matches Err(ApiError::Forbidden(Some(m))) && m@
            == "No permission to update the task!"@),
        owner matches Err(e) ==> match unique_violation(e) {
            Some(_) => r matches Err(ApiError::Conflict(_)),
            None => r matches Err(ApiError::InternalDatabaseError(None)),
        },
{
    proof {
        reveal_strlit("No permission to update the task!");
    }
    check_owner(user, owner, "No permission to update the task!")?;
    check_date(&body.date)?;
    Ok(UpdateTask { id: body.id, name: body.name, description: body.description, tag: body.tag, date: body.date })
}

/// The id of a task named in a request path; one that is no UUID is refused.
pub fn parse_task_id(path: &str) -> (r: Result<u128, ApiError>)
    ensures
        match uuid_parse_of(path@) {
            Some(id) => r == Ok::<u128, ApiError>(id),
            None => r matches Err(ApiError::Forbidden(Some(m))) && m@ == "Invalid task id"@,
        },
{
    proof {
        reveal_strlit("Invalid task id");
    }
    match parse_uuid(path) {
        Some(id) => Ok(id),
        None => Err(ApiError::Forbidden(Some(String::from_str("Invalid task id")))),
    }
}

/// A deletion of task `task_id`, given the store's answer to the lookup of
/// its owner: allowed only to the owner, as the id to delete.
pub fn delete_task(user: &UserId, task_id: u128, owner: Result<Option<UserIdTask>, StoreError>) -> (r: Result<
    u128,
    ApiError,
>)
    ensures
        owner_check_ok(*user, owner) ==> r == Ok::<u128, ApiError>(task_id),
        owner matches Ok(None) ==> (r matches Err(ApiError::UnprocessableEntity(Some(m))) && m@ == "Task not found!"@),
        (owner matches Ok(Some(o)) && o.user_id != user.id) ==> (r matches Err(ApiError::Forbidden(Some(m))) && m@
            == "No permission to delete the task!"@),
        owner matches Err(e) ==> match unique_violation(e) {
            Some(_) => r matches Err(ApiError::Conflict(_)),
            None => r matches Err(ApiError::InternalDatabaseError(None)),
        },
{
    proof {
        reveal_strlit("No permission to delete the task!");
    }
    check_owner(user, owner, "No permission to delete the task!")?;
    Ok(task_id)
}

/// A list for one user holds no task of another: every task that
/// `owned_by` keeps for `a` is owned by `a`, hence by no `b` other than `a`,
/// and comes from the rows.
pub proof fn lemma_list_isolated(rows: Seq<Task>, a: u128, b: u128)
    requires
        a != b,
    ensures
        forall|i: int|
            #![trigger owned_by(rows, a)[i]]
            0 <= i < owned_by(rows, a).len() ==> owned_by(rows, a)[i].user_id == a
            && owned_by(rows, a)[i].user_id != b && rows.contains(owned_by(rows, a)[i]),
    decreases rows.len(),
{
    if rows.len() > 0 {
        lemma_list_isolated(rows.drop_last(), a, b);
        let before = owned_by(rows.drop_last(), a);
        assert forall|i: int| 0 <= i < before.len() implies rows.contains(#[trigger] before[i]) by {
            let j = choose|j: int| 0 <= j < rows.drop_last().len() && rows.drop_last()[j] == before[i];
            assert(rows[j] == before[i]);
        }
        assert(rows[rows.len() - 1] == rows.last());
    }
}

/// How many of `rows` carry the id `id`.
pub open spec fn count_id(rows: Seq<Task>, id: u128) -> nat
    decreases rows.len(),
{
    if rows.len() == 0 {
        0
    } else {
        count_id(rows.drop_last(), id) + if rows.last().id == id {
            1nat
        } else {
            0nat
        }
    }
}

/// Whether `t` is the row `row` as the store keeps it under the id `id`.
pub open spec fn stored_as(t: Task, row: NewTask, id: u128) -> bool {
    &&& t.id == id
    &&& t.name == row.name
    &&& t.description == row.description
    &&& t.tag == row.tag
    &&& t.date == row.date
    &&& t.user_id == row.user_id
}

proof fn lemma_owned_count_le(rows: Seq<Task>, owner: u128, id: u128)
    ensures
        count_id(owned_by(rows, owner), id) <= count_id(rows, id),
    decreases rows.len(),
{
    if rows.len() > 0 {
        lemma_owned_count_le(rows.drop_last(), owner, id);
        let before = owned_by(rows.drop_last(), owner);
        assert(before.push(rows.last()).drop_last() =~= before);
    }
}

proof fn lemma_owned_keeps(rows: Seq<Task>, owner: u128, id: u128, k: int)
    requires
        0 <= k < rows.len(),
        rows[k].id == id,
        rows[k].user_id == owner,
    ensures
        count_id(owned_by(rows, owner), id) >= 1,
        owned_by(rows, owner).contains(rows[k]),
    decreases rows.len(),
{
    let before = owned_by(rows.drop_last(), owner);
    assert(before.push(rows.last()).drop_last() =~= before);
    if k == rows.len() - 1 {
        assert(owned_by(rows, owner)[before.len() as int] == rows[k]);
    } else {
        assert(rows.drop_last()[k] == rows[k]);
        lemma_owned_keeps(rows.drop_last(), owner, id, k);
        let j = choose|j: int| 0 <= j < before.len() && before[j] == rows[k];
        if rows.last().user_id == owner {
            assert(owned_by(rows, owner)[j] == rows[k]);
        }
    }
}

/// A created task comes back in its owner's list exactly once, as created:
/// where the store holds the row that `create_task` asked for under a fresh
/// id (one no other row carries), the owner's list has exactly one task with
/// that id, and it is that row.
pub proof fn lemma_created_task_listed(rows: Seq<Task>, row: NewTask, id: u128, k: int)
    requires
        0 <= k < rows.len(),
        stored_as(rows[k], row, id),
        count_id(rows, id) == 1,
    ensures
        count_id(owned_by(rows, row.user_id), id) == 1,
        owned_by(rows, row.user_id).contains(rows[k]),
{
    lemma_owned_count_le(rows, row.user_id, id);
    lemma_owned_keeps(rows, row.user_id, id, k);
}

} // verus!
