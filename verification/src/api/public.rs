//! The endpoints mounted under `/tasks`; each needs the `uuid` cookie.
use vstd::prelude::*;

use crate::api::{Status, due_of, new_task, task_from_form, user_of};
use crate::db::{
    DbOp,
    FilterModel,
    OpModel,
    UpdateModel,
    filter_of_owner,
    owner_filter,
    task_filter,
};
use crate::ids::is_task_id;
use crate::models::{ModifyTaskState, Task, TaskPriority, opt_view};
use crate::server::TaskOptions;
use crate::text::{copy_str, str_eq};

verus! {

broadcast use vstd::string::group_string_axioms;

/// An HTTP method.
#[derive(Clone, Copy, Debug, PartialEq, Eq, Structural)]
pub enum Method {
    Get,
    Post,
}

/// One of the task endpoints.
#[derive(Clone, Copy, Debug, PartialEq, Eq, Structural)]
pub enum PublicRoute {
    GetTasks,
    AddTask,
    RemoveTask,
    CompleteTask,
    ModifyTask,
    FetchTasksCompleteFiltering,
    SearchTasks,
}

impl PublicRoute {
    /// The method the endpoint answers.
    pub open spec fn spec_method(self) -> Method {
        match self {
            PublicRoute::GetTasks => Method::Get,
            PublicRoute::FetchTasksCompleteFiltering => Method::Get,
            PublicRoute::SearchTasks => Method::Get,
            _ => Method::Post,
        }
    }

    /// The path pattern of the endpoint, below the mount point.
    pub open spec fn spec_uri(self) -> Seq<char> {
        match self {
            PublicRoute::GetTasks => "/get"@,
            PublicRoute::AddTask => "/add"@,
            PublicRoute::RemoveTask => "/remove/<id>"@,
            PublicRoute::CompleteTask => "/complete/<id>"@,
            PublicRoute::ModifyTask => "/modify/<id>/<param>"@,
            PublicRoute::FetchTasksCompleteFiltering => "/list?<status>"@,
            PublicRoute::SearchTasks => "/search?<project>&<opt..>"@,
        }
    }

    /// The method the endpoint answers.
    pub fn method(&self) -> (m: Method)
        ensures
            m == self.spec_method(),
    {
        match self {
            PublicRoute::GetTasks => Method::Get,
            PublicRoute::FetchTasksCompleteFiltering => Method::Get,
            PublicRoute::SearchTasks => Method::Get,
            _ => Method::Post,
        }
    }

    /// The path pattern of the endpoint, below the mount point.
    pub fn uri(&self) -> (s: &'static str)
        ensures
            s@ == self.spec_uri(),
    {
        match self {
            PublicRoute::GetTasks => "/get",
            PublicRoute::AddTask => "/add",
            PublicRoute::RemoveTask => "/remove/<id>",
            PublicRoute::CompleteTask => "/complete/<id>",
            PublicRoute::ModifyTask => "/modify/<id>/<param>",
            PublicRoute::FetchTasksCompleteFiltering => "/list?<status>",
            PublicRoute::SearchTasks => "/search?<project>&<opt..>",
        }
    }
}

/// The task endpoints, in the order in which they are mounted.
pub open spec fn all_routes() -> Seq<PublicRoute> {
    seq![
        PublicRoute::GetTasks,
        PublicRoute::AddTask,
        PublicRoute::RemoveTask,
        PublicRoute::CompleteTask,
        PublicRoute::ModifyTask,
        PublicRoute::FetchTasksCompleteFiltering,
        PublicRoute::SearchTasks,
    ]
}

/// The task endpoints to mount.
pub fn routes() -> (r: Vec<PublicRoute>)
    ensures
        r@ == all_routes(),
{
    let r = vec![
        PublicRoute::GetTasks,
        PublicRoute::AddTask,
        PublicRoute::RemoveTask,
        PublicRoute::CompleteTask,
        PublicRoute::ModifyTask,
        PublicRoute::FetchTasksCompleteFiltering,
        PublicRoute::SearchTasks,
    ];
    assert(r@ == all_routes());
    r
}

/// Lists all tasks of the caller.
pub fn get_tasks(uuid_cookie: Option<&str>) -> (r: Result<DbOp, Status>)
    ensures
        match uuid_cookie {
            Some(c) => r matches Ok(op) && op@ == (OpModel::Find { filter: owner_filter(c@) }),
            None => r is Err && r->Err_0 == Status::Unauthorized,
        },
{
    let user_id = match user_of(uuid_cookie) {
        Ok(u) => u,
        Err(e) => {
            return Err(e);
        },
    };
    Ok(crate::db::fetch_tasks(filter_of_owner(user_id.as_str())))
}

/// The query of a task search.
pub struct TaskSearchOptions {
    /// The due date to match; empty matches any.
    pub due: String,
    pub priority: Option<TaskPriority>,
}

/// The filter of a search by `user`: each criterion that is given (a
/// project or due date that is not empty, a priority) must hold.
pub open spec fn search_filter(
    user: Seq<char>,
    project: Seq<char>,
    due: Seq<char>,
    priority: Option<TaskPriority>,
) -> FilterModel {
    FilterModel {
        due: if due.len() == 0 {
            None
        } else {
            Some(due)
        },
        project: if project.len() == 0 {
            None
        } else {
            Some(project)
        },
        priority: priority,
        ..owner_filter(user)
    }
}

/// Searches the caller's tasks by project, due date and priority.
pub fn search_tasks(uuid_cookie: Option<&str>, project: &str, opt: &TaskSearchOptions) -> (r:
    Result<DbOp, Status>)
    ensures
        match uuid_cookie {
            Some(c) => r matches Ok(op) && op@ == (OpModel::Find {
                filter: search_filter(c@, project@, opt.due@, opt.priority),
            }),
            None => r is Err && r->Err_0 == Status::Unauthorized,
        },
{
    let user_id = match user_of(uuid_cookie) {
        Ok(u) => u,
        Err(e) => {
            return Err(e);
        },
    };
    let mut filter = filter_of_owner(user_id.as_str());
    if !opt.due.as_str().is_empty() {
        filter.due = Some(opt.due.clone());
    }
    if !project.is_empty() {
        filter.project = Some(copy_str(project));
    }
    match opt.priority {
        Some(p) => {
            filter.priority = Some(p);
        },
        None => {},
    }
    Ok(crate::db::fetch_tasks(filter))
}

/// Builds the task that the form describes for the caller, to be stored.
/// Fails without the cookie, and where the due date is not a date.
pub fn add_task(uuid_cookie: Option<&str>, opt: &TaskOptions) -> (r: Result<Task, Status>)
    ensures
        match uuid_cookie {
            Some(c) => match due_of(opt_view(opt.due)) {
                Some(d) => r matches Ok(t) && is_task_id(t.id@) && t@ == task_from_form(
                    c@,
                    t.id@,
                    *opt,
                    d,
                ),
                None => r is Err && r->Err_0 == Status::InternalServerError,
            },
            None => r is Err && r->Err_0 == Status::Unauthorized,
        },
{
    let user_id = match user_of(uuid_cookie) {
        Ok(u) => u,
        Err(e) => {
            return Err(e);
        },
    };
    new_task(user_id.as_str(), opt)
}

/// Removes the caller's task `id`.
pub fn remove_task(id: &str, uuid_cookie: Option<&str>) -> (r: Result<DbOp, Status>)
    ensures
        match uuid_cookie {
            Some(c) => r matches Ok(op) && op@ == (OpModel::DeleteOne {
                filter: task_filter(c@, id@),
            }),
            None => r is Err && r->Err_0 == Status::Unauthorized,
        },
{
    let user_id = match user_of(uuid_cookie) {
        Ok(u) => u,
        Err(e) => {
            return Err(e);
        },
    };
    Ok(crate::db::delete_task(user_id.as_str(), id))
}

/// Flips the completion of the caller's task `id`.
pub fn complete_task(id: &str, uuid_cookie: Option<&str>) -> (r: Result<DbOp, Status>)
    ensures
        match uuid_cookie {
            Some(c) => r matches Ok(op) && op@ == (OpModel::FindOneAndUpdate {
                filter: task_filter(c@, id@),
                update: UpdateModel::ToggleCompleted,
                return_updated: true,
            }),
            None => r is Err && r->Err_0 == Status::Unauthorized,
        },
{
    let user_id = match user_of(uuid_cookie) {
        Ok(u) => u,
        Err(e) => {
            return Err(e);
        },
    };
    Ok(crate::db::toggle_completed_state(user_id.as_str(), id))
}

/// The value that a change form gives the field `param`: its entry, or the
/// empty text where it has none.
pub open spec fn field_value(state: Map<Seq<char>, Seq<char>>, param: Seq<char>) -> Seq<char> {
    if state.contains_key(param) {
        state[param]
    } else {
        Seq::<char>::empty()
    }
}

/// Sets the field `param` of the caller's task `id` to the form's value
/// for it.
pub fn modify_task(id: &str, uuid_cookie: Option<&str>, param: &str, state: &ModifyTaskState) -> (r:
    Result<DbOp, Status>)
    ensures
        match uuid_cookie {
            Some(c) => r matches Ok(op) && op@ == (OpModel::FindOneAndUpdate {
                filter: task_filter(c@, id@),
                update: UpdateModel::SetField { field: param@, value: field_value(state@, param@) },
                return_updated: true,
            }),
            None => r is Err && r->Err_0 == Status::Unauthorized,
        },
{
    let user_id = match user_of(uuid_cookie) {
        Ok(u) => u,
        Err(e) => {
            return Err(e);
        },
    };
    let val = match state.get(param) {
        Some(v) => v.clone(),
        None => String::new(),
    };
    Ok(crate::db::modify_task(user_id.as_str(), id, param, val))
}

/// The characters of `completed`.
pub open spec fn completed_text() -> Seq<char> {
    seq!['c', 'o', 'm', 'p', 'l', 'e', 't', 'e', 'd']
}

/// The filter of the task list of `user`: the completed tasks where the
/// status is `completed`, the open tasks otherwise.
pub open spec fn status_filter(user: Seq<char>, status: Option<Seq<char>>) -> FilterModel {
    FilterModel { completed: Some(status == Some(completed_text())), ..owner_filter(user) }
}

/// Lists the caller's completed or open tasks.
pub fn fetch_tasks_complete_filtering(status: Option<&str>, uuid_cookie: Option<&str>) -> (r:
    Result<DbOp, Status>)
    ensures
        match uuid_cookie {
            Some(c) => r matches Ok(op) && op@ == (OpModel::Find {
                filter: status_filter(
                    c@,
                    match status {
                        Some(s) => Some(s@),
                        None => None,
                    },
                ),
            }),
            None => r is Err && r->Err_0 == Status::Unauthorized,
        },
{
    let user_id = match user_of(uuid_cookie) {
        Ok(u) => u,
        Err(e) => {
            return Err(e);
        },
    };
    proof {
        reveal_strlit("completed");
    }
    let completed = match status {
        Some(s) => str_eq(s, "completed"),
        None => false,
    };
    assert("completed"@ == completed_text());
    let mut filter = filter_of_owner(user_id.as_str());
    filter.completed = Some(completed);
    Ok(crate::db::fetch_tasks(filter))
}

} // verus!
