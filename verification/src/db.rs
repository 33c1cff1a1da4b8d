//! The operations that the endpoints ask of the task collection, and what
//! their filters and updates mean for a stored task.
use vstd::prelude::*;

use crate::models::{Task, TaskModel, TaskPriority, opt_view};

verus! {

broadcast use vstd::string::group_string_axioms;

/// The characters of `user_tasks`.
pub open spec fn coll_name() -> Seq<char> {
    seq!['u', 's', 'e', 'r', '_', 't', 'a', 's', 'k', 's']
}

/// The characters of `project`.
pub open spec fn project_field() -> Seq<char> {
    seq!['p', 'r', 'o', 'j', 'e', 'c', 't']
}

/// The name of the collection that holds the tasks.
pub fn coll() -> (s: &'static str)
    ensures
        s@ == coll_name(),
{
    proof {
        reveal_strlit("user_tasks");
    }
    "user_tasks"
}

/// A query on tasks: the owner is always fixed; each other field, where
/// given, must equal the task's.
pub struct TaskFilter {
    pub user_id: String,
    pub id: Option<String>,
    pub completed: Option<bool>,
    pub due: Option<String>,
    pub project: Option<String>,
    pub priority: Option<TaskPriority>,
}

/// A filter, its text fields taken as character sequences.
pub struct FilterModel {
    pub user_id: Seq<char>,
    pub id: Option<Seq<char>>,
    pub completed: Option<bool>,
    pub due: Option<Seq<char>>,
    pub project: Option<Seq<char>>,
    pub priority: Option<TaskPriority>,
}

impl View for TaskFilter {
    type V = FilterModel;

    open spec fn view(&self) -> FilterModel {
        FilterModel {
            user_id: self.user_id@,
            id: opt_view(self.id),
            completed: self.completed,
            due: opt_view(self.due),
            project: opt_view(self.project),
            priority: self.priority,
        }
    }
}

impl FilterModel {
    /// Whether the stored task `t` satisfies every condition of the filter.
    pub open spec fn matches(self, t: TaskModel) -> bool {
        &&& t.user_id == self.user_id
        &&& (self.id matches Some(i) ==> t.id == i)
        &&& (self.completed matches Some(c) ==> t.completed == c)
        &&& (self.due matches Some(d) ==> t.due == Some(d))
        &&& (self.project matches Some(p) ==> t.project == p)
        &&& (self.priority matches Some(p) ==> t.priority == Some(p))
    }
}

/// The filter that selects every task of `user`.
pub open spec fn owner_filter(user: Seq<char>) -> FilterModel {
    FilterModel {
        user_id: user,
        id: None,
        completed: None,
        due: None,
        project: None,
        priority: None,
    }
}

/// The filter that selects the task `id` of `user`.
pub open spec fn task_filter(user: Seq<char>, id: Seq<char>) -> FilterModel {
    FilterModel { id: Some(id), ..owner_filter(user) }
}

/// A filter on the owner alone.
pub fn filter_of_owner(user_id: &str) -> (f: TaskFilter)
    ensures
        f@ == owner_filter(user_id@),
{
    TaskFilter {
        user_id: user_id.to_owned(),
        id: None,
        completed: None,
        due: None,
        project: None,
        priority: None,
    }
}

/// A filter on the owner and the task id.
pub fn filter_of_task(user_id: &str, task_id: &str) -> (f: TaskFilter)
    ensures
        f@ == task_filter(user_id@, task_id@),
{
    TaskFilter { id: Some(task_id.to_owned()), ..filter_of_owner(user_id) }
}

/// A change to the task that a filter selects.
pub enum TaskUpdate {
    /// Set the field named `field` to the text `value`.
    SetField { field: String, value: String },
    /// Replace `completed` by its negation.
    ToggleCompleted,
}

/// An update, its text taken as character sequences.
pub enum UpdateModel {
    SetField { field: Seq<char>, value: Seq<char> },
    ToggleCompleted,
}

impl View for TaskUpdate {
    type V = UpdateModel;

    open spec fn view(&self) -> UpdateModel {
        match self {
            TaskUpdate::SetField { field, value } => UpdateModel::SetField { field: field@, value: value@ },
            TaskUpdate::ToggleCompleted => UpdateModel::ToggleCompleted,
        }
    }
}

/// The task `t` with `completed` negated, as the toggle update leaves it.
pub open spec fn toggled(t: TaskModel) -> TaskModel {
    TaskModel { completed: !t.completed, ..t }
}

/// Whether two optional strings hold the same characters.
fn opt_str_eq(a: &Option<String>, b: &Option<String>) -> (r: bool)
    ensures
        r == (opt_view(*a) == opt_view(*b)),
{
    match (a, b) {
        (Some(x), Some(y)) => crate::text::str_eq(x.as_str(), y.as_str()),
        (None, None) => true,
        _ => false,
    }
}

impl TaskFilter {
    /// Whether the stored task `t` satisfies every condition of the filter.
    pub fn matches(&self, t: &Task) -> (b: bool)
        ensures
            b == self@.matches(t@),
    {
        if !(self.user_id == t.user_id) {
            return false;
        }
        match &self.id {
            Some(i) => {
                if !(*i == t.id) {
                    return false;
                }
            },
            None => {},
        }
        match self.completed {
            Some(c) => {
                if c != t.completed {
                    return false;
                }
            },
            None => {},
        }
        match &self.due {
            Some(d) => {
                let want = Some(d.clone());
                if !opt_str_eq(&want, &t.due) {
                    return false;
                }
            },
            None => {},
        }
        match &self.project {
            Some(p) => {
                if !(*p == t.project) {
                    return false;
                }
            },
            None => {},
        }
        match self.priority {
            Some(p) => {
                match t.priority {
                    Some(q) => {
                        if p != q {
                            return false;
                        }
                    },
                    None => {
                        return false;
                    },
                }
            },
            None => {},
        }
        true
    }
}

/// Applies the toggle update to a task.
pub fn toggle_completed(t: &mut Task)
    ensures
        final(t)@ == toggled(old(t)@),
{
    t.completed = !t.completed;
}

/// An operation on the task collection.
pub enum DbOp {
    /// All tasks that the filter matches.
    Find { filter: TaskFilter },
    /// The first task that the filter matches, if any.
    FindOne { filter: TaskFilter },
    /// Store a new task.
    InsertOne { task: Task },
    /// Remove the first task that the filter matches.
    DeleteOne { filter: TaskFilter },
    /// Change the first task that the filter matches; `return_updated`
    /// asks for the task as it is after the change.
    FindOneAndUpdate { filter: TaskFilter, update: TaskUpdate, return_updated: bool },
    /// The distinct values of `field` among the tasks that the filter matches.
    Distinct { field: String, filter: TaskFilter },
}

/// An operation, taken by the views of its parts.
pub enum OpModel {
    Find { filter: FilterModel },
    FindOne { filter: FilterModel },
    InsertOne { task: TaskModel },
    DeleteOne { filter: FilterModel },
    FindOneAndUpdate { filter: FilterModel, update: UpdateModel, return_updated: bool },
    Distinct { field: Seq<char>, filter: FilterModel },
}

impl View for DbOp {
    type V = OpModel;

    open spec fn view(&self) -> OpModel {
        match self {
            DbOp::Find { filter } => OpModel::Find { filter: filter@ },
            DbOp::FindOne { filter } => OpModel::FindOne { filter: filter@ },
            DbOp::InsertOne { task } => OpModel::InsertOne { task: task@ },
            DbOp::DeleteOne { filter } => OpModel::DeleteOne { filter: filter@ },
            DbOp::FindOneAndUpdate { filter, update, return_updated } => OpModel::FindOneAndUpdate {
                filter: filter@,
                update: update@,
                return_updated: *return_updated,
            },
            DbOp::Distinct { field, filter } => OpModel::Distinct {
                field: field@,
                filter: filter@,
            },
        }
    }
}

/// Every task that `predicate` matches.
pub fn fetch_tasks(predicate: TaskFilter) -> (op: DbOp)
    ensures
        op@ == (OpModel::Find { filter: predicate@ }),
{
    DbOp::Find { filter: predicate }
}

/// The first task that `predicate` matches.
pub fn fetch_task(predicate: TaskFilter) -> (op: DbOp)
    ensures
        op@ == (OpModel::FindOne { filter: predicate@ }),
{
    DbOp::FindOne { filter: predicate }
}

/// Stores `task`.
pub fn insert_task(task: Task) -> (op: DbOp)
    ensures
        op@ == (OpModel::InsertOne { task: task@ }),
{
    DbOp::InsertOne { task }
}

/// Removes the task `task_id` of `user_id`.
pub fn delete_task(user_id: &str, task_id: &str) -> (op: DbOp)
    ensures
        op@ == (OpModel::DeleteOne { filter: task_filter(user_id@, task_id@) }),
{
    DbOp::DeleteOne { filter: filter_of_task(user_id, task_id) }
}

/// Sets the field `parameter` of the task `task_id` of `user_id` to
/// `new_state`, asking for the task as it is afterwards.
pub fn modify_task(user_id: &str, task_id: &str, parameter: &str, new_state: String) -> (op:
    DbOp)
    ensures
        op@ == (OpModel::FindOneAndUpdate {
            filter: task_filter(user_id@, task_id@),
            update: UpdateModel::SetField { field: parameter@, value: new_state@ },
            return_updated: true,
        }),
{
    DbOp::FindOneAndUpdate {
        filter: filter_of_task(user_id, task_id),
        update: TaskUpdate::SetField { field: parameter.to_owned(), value: new_state },
        return_updated: true,
    }
}

/// The distinct projects among the tasks of `user_id`.
pub fn get_unique_projects(user_id: &str) -> (op: DbOp)
    ensures
        op@ == (OpModel::Distinct { field: project_field(), filter: owner_filter(user_id@) }),
{
    proof {
        reveal_strlit("project");
    }
    let field = "project".to_owned();
    assert(field@ == project_field());
    DbOp::Distinct { field, filter: filter_of_owner(user_id) }
}

/// Negates `completed` of the task `task_id` of `user_id`, asking for the
/// task as it is afterwards.
pub fn toggle_completed_state(user_id: &str, task_id: &str) -> (op: DbOp)
    ensures
        op@ == (OpModel::FindOneAndUpdate {
            filter: task_filter(user_id@, task_id@),
            update: UpdateModel::ToggleCompleted,
            return_updated: true,
        }),
{
    DbOp::FindOneAndUpdate {
        filter: filter_of_task(user_id, task_id),
        update: TaskUpdate::ToggleCompleted,
        return_updated: true,
    }
}

} // verus!
