//! The task endpoints: what each decides from the request, and how it
//! answers once the database has replied.
use vstd::prelude::*;

use crate::ids::{is_task_id, new_task_id, parse_ymd_date, ymd_date};
use crate::models::{Task, TaskModel, copy_opt, opt_view};
use crate::server::TaskOptions;
use crate::text::{copy_str, parse_tags, tags_of};

pub mod private;
pub mod public;

verus! {

broadcast use vstd::string::group_string_axioms;

/// An HTTP error status that an endpoint answers with.
#[derive(Clone, Copy, Debug, PartialEq, Eq, Structural)]
pub enum Status {
    Unauthorized,
    InternalServerError,
}

impl Status {
    /// The numeric HTTP code.
    pub fn code(&self) -> (c: u16)
        ensures
            c == match self {
                Status::Unauthorized => 401u16,
                Status::InternalServerError => 500u16,
            },
    {
        match self {
            Status::Unauthorized => 401,
            Status::InternalServerError => 500,
        }
    }
}

/// A failed database operation, with the database's description of it.
pub struct DbError {
    pub message: String,
}

/// The user of a request: the value of its `uuid` cookie.
pub fn user_of(uuid_cookie: Option<&str>) -> (r: Result<String, Status>)
    ensures
        match uuid_cookie {
            Some(c) => r matches Ok(u) && u@ == c@,
            None => r == Err::<String, Status>(Status::Unauthorized),
        },
{
    match uuid_cookie {
        Some(c) => Ok(copy_str(c)),
        None => Err(Status::Unauthorized),
    }
}

/// What becomes of the due date typed in a form: `Some(None)` for no date
/// (absent or empty), `Some(Some(d))` for a date that parses, `d` its
/// canonical text, and `None` for text that is not a date.
pub open spec fn due_of(due: Option<Seq<char>>) -> Option<Option<Seq<char>>> {
    match due {
        None => Some(None),
        Some(d) => if d.len() == 0 {
            Some(None)
        } else {
            match ymd_date(d) {
                Some(t) => Some(Some(t)),
                None => None,
            }
        },
    }
}

/// Reads the due date of a form. Text that is not a date makes the request
/// fail with an internal server error.
pub fn parse_due(due: &Option<String>) -> (r: Result<Option<String>, Status>)
    ensures
        match due_of(opt_view(*due)) {
            Some(d) => r matches Ok(v) && opt_view(v) == d,
            None => r == Err::<Option<String>, Status>(Status::InternalServerError),
        },
{
    match due {
        None => Ok(None),
        Some(d) => {
            if d.as_str().is_empty() {
                Ok(None)
            } else {
                match parse_ymd_date(d.as_str()) {
                    Some(t) => Ok(Some(t)),
                    None => Err(Status::InternalServerError),
                }
            }
        },
    }
}

/// The task that the form `opt` describes, for `user` under the id `id`,
/// with the due date `due` already read.
pub open spec fn task_from_form(
    user: Seq<char>,
    id: Seq<char>,
    opt: TaskOptions,
    due: Option<Seq<char>>,
) -> TaskModel {
    TaskModel {
        user_id: user,
        id: id,
        name: opt.name@,
        description: opt_view(opt.description),
        due: due,
        project: opt.project@,
        section: opt_view(opt.section),
        tags: tags_of(
            match opt.tags {
                Some(t) => t@,
                None => Seq::<char>::empty(),
            },
        ),
        completed: match opt.completed {
            Some(c) => c,
            None => false,
        },
        priority: opt.priority,
    }
}

/// Builds the task that the form describes.
pub fn build_task(user_id: &str, task_id: String, opt: &TaskOptions, due: Option<String>) -> (t:
    Task)
    ensures
        t@ == task_from_form(user_id@, task_id@, *opt, opt_view(due)),
{
    let tags = match &opt.tags {
        Some(t) => parse_tags(t.as_str()),
        None => parse_tags(""),
    };
    proof {
        reveal_strlit("");
    }
    Task {
        user_id: copy_str(user_id),
        id: task_id,
        name: opt.name.clone(),
        description: copy_opt(&opt.description),
        due,
        project: opt.project.clone(),
        section: copy_opt(&opt.section),
        tags,
        completed: match opt.completed {
            Some(c) => c,
            None => false,
        },
        priority: opt.priority,
    }
}

/// Builds the task that the form describes for `user_id`, under a fresh
/// id; fails where the due date is not a date.
pub fn new_task(user_id: &str, opt: &TaskOptions) -> (r: Result<Task, Status>)
    ensures
        match due_of(opt_view(opt.due)) {
            Some(d) => r matches Ok(t) && is_task_id(t.id@) && t@ == task_from_form(
                user_id@,
                t.id@,
                *opt,
                d,
            ),
            None => r == Err::<Task, Status>(Status::InternalServerError),
        },
{
    let task_id = new_task_id();
    let due = match parse_due(&opt.due) {
        Ok(d) => d,
        Err(e) => {
            return Err(e);
        },
    };
    Ok(build_task(user_id, task_id, opt, due))
}

/// The answer to a database reply: its result where it succeeded, an
/// internal server error where it failed.
pub fn db_reply<T>(r: Result<T, DbError>) -> (out: Result<T, Status>)
    ensures
        match r {
            Ok(v) => out == Ok::<T, Status>(v),
            Err(_) => out == Err::<T, Status>(Status::InternalServerError),
        },
{
    match r {
        Ok(v) => Ok(v),
        Err(_) => Err(Status::InternalServerError),
    }
}

/// The project list shown beside the tasks: the distinct projects that the
/// database returned, or no projects where the query failed.
pub fn projects_reply<T>(r: Result<Vec<T>, DbError>) -> (out: Vec<T>)
    ensures
        match r {
            Ok(v) => out@ == v@,
            Err(_) => out@.len() == 0,
        },
{
    match r {
        Ok(v) => v,
        Err(_) => Vec::new(),
    }
}

/// The empty answer of an endpoint that only acts: the empty body where the
/// database succeeded, an internal server error where it failed.
pub fn empty_reply<T>(r: Result<T, DbError>) -> (out: Result<&'static str, Status>)
    ensures
        match r {
            Ok(_) => out matches Ok(s) && s@ == Seq::<char>::empty(),
            Err(_) => out == Err::<&'static str, Status>(Status::InternalServerError),
        },
{
    proof {
        reveal_strlit("");
    }
    match r {
        Ok(_) => Ok(""),
        Err(_) => Err(Status::InternalServerError),
    }
}

} // verus!
