//! The JSON endpoints mounted under `/api/v1`.
use vstd::prelude::*;
use vstd::string::StringExecFns;

use crate::api::{DbError, Status, due_of, new_task, task_from_form, user_of};
use crate::db::{DbOp, OpModel, filter_of_owner, owner_filter};
use crate::ids::is_task_id;
use crate::models::{Task, opt_view};
use crate::server::{AddTaskResponse, TaskOptions};

verus! {

broadcast use vstd::string::group_string_axioms;

/// Lists all tasks of the caller.
pub fn get_tasks(uuid_cookie: Option<&str>) -> (r: Result<DbOp, Status>)
    ensures
        match uuid_cookie {
            Some(c) => r matches Ok(op) && op@ == (OpModel::Find { filter: owner_filter(c@) }),
            None => r is Err && r->Err_0 == Status::Unauthorized,
        },
{
    let user_id = match user_of(uuid_cookie) {
        Ok(u) => u,
        Err(e) => {
            return Err(e);
        },
    };
    Ok(crate::db::fetch_tasks(filter_of_owner(user_id.as_str())))
}

/// The owner recorded for a task added without the `uuid` cookie.
pub open spec fn anonymous_user() -> Seq<char> {
    "error"@
}

/// Builds the task that the form describes, owned by the caller or, without
/// the cookie, by `error`; fails where the due date is not a date.
pub fn add_task(uuid_cookie: Option<&str>, opt: &TaskOptions) -> (r: Result<Task, Status>)
    ensures
        match due_of(opt_view(opt.due)) {
            Some(d) => r matches Ok(t) && is_task_id(t.id@) && t@ == task_from_form(
                match uuid_cookie {
                    Some(c) => c@,
                    None => anonymous_user(),
                },
                t.id@,
                *opt,
                d,
            ),
            None => r is Err && r->Err_0 == Status::InternalServerError,
        },
{
    let user_id = match user_of(uuid_cookie) {
        Ok(u) => u,
        Err(_) => "error".to_owned(),
    };
    new_task(user_id.as_str(), opt)
}

/// The message of a task that was stored.
pub open spec fn success_message() -> Seq<char> {
    "Successfully added task"@
}

/// The JSON answer once the database has replied to storing the task
/// `task_id`: success with a fixed message, or failure with the database's
/// message after `Error: `.
pub fn add_task_response(task_id: String, inserted: Result<(), DbError>) -> (resp:
    AddTaskResponse)
    ensures
        resp.task_id@ == task_id@,
        match inserted {
            Ok(_) => resp.success && resp.message@ == success_message(),
            Err(e) => !resp.success && resp.message@ == "Error: "@ + e.message@,
        },
{
    let (success, message) = match inserted {
        Ok(_) => (true, "Successfully added task".to_owned()),
        Err(e) => {
            let mut m = "Error: ".to_owned();
            m.append(e.message.as_str());
            (false, m)
        },
    };
    AddTaskResponse { success, message, task_id }
}

} // verus!
