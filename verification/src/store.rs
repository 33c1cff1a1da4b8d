//! How a task is kept as a stored document, how it reads back, and what
//! the change operations that the endpoints issue do to a stored document.
use vstd::prelude::*;

use crate::db::{TaskUpdate, UpdateModel, toggled};
use crate::models::{Task, TaskModel, TaskPriority};
use crate::text::{chars_of, has_char, str_eq};

verus! {

broadcast use vstd::string::group_string_axioms;

/// The field that holds a document's own key.
pub open spec fn key_field() -> Seq<char> {
    seq!['_', 'i', 'd']
}

/// The owner field.
pub open spec fn user_id_field() -> Seq<char> {
    seq!['u', 's', 'e', 'r', '_', 'i', 'd']
}

/// The task id field.
pub open spec fn id_field() -> Seq<char> {
    seq!['i', 'd']
}

/// The name field.
pub open spec fn name_field() -> Seq<char> {
    seq!['n', 'a', 'm', 'e']
}

/// The description field.
pub open spec fn description_field() -> Seq<char> {
    seq!['d', 'e', 's', 'c', 'r', 'i', 'p', 't', 'i', 'o', 'n']
}

/// The due date field.
pub open spec fn due_field() -> Seq<char> {
    seq!['d', 'u', 'e']
}

/// The project field.
pub open spec fn project_key() -> Seq<char> {
    seq!['p', 'r', 'o', 'j', 'e', 'c', 't']
}

/// The section field.
pub open spec fn section_field() -> Seq<char> {
    seq!['s', 'e', 'c', 't', 'i', 'o', 'n']
}

/// The tags field.
pub open spec fn tags_field() -> Seq<char> {
    seq!['t', 'a', 'g', 's']
}

/// The completion field.
pub open spec fn completed_field() -> Seq<char> {
    seq!['c', 'o', 'm', 'p', 'l', 'e', 't', 'e', 'd']
}

/// The priority field.
pub open spec fn priority_field() -> Seq<char> {
    seq!['p', 'r', 'i', 'o', 'r', 'i', 't', 'y']
}

/// A value held in a field of a stored document.
pub enum FieldValue {
    Text(Seq<char>),
    Flag(bool),
    Null,
    TextList(Seq<Seq<char>>),
    /// The document's own key, which the database assigns.
    Key,
}

/// The value under which an optional text is stored.
pub open spec fn opt_text(o: Option<Seq<char>>) -> FieldValue {
    match o {
        Some(s) => FieldValue::Text(s),
        None => FieldValue::Null,
    }
}

/// The document in which a task is stored: each field of the task under
/// its name (an absent optional value as null, the priority by its name),
/// and the document's key.
pub open spec fn task_doc(t: TaskModel) -> Map<Seq<char>, FieldValue> {
    Map::empty().insert(key_field(), FieldValue::Key).insert(
        user_id_field(),
        FieldValue::Text(t.user_id),
    ).insert(id_field(), FieldValue::Text(t.id)).insert(name_field(), FieldValue::Text(t.name)).insert(
        description_field(),
        opt_text(t.description),
    ).insert(due_field(), opt_text(t.due)).insert(project_key(), FieldValue::Text(t.project)).insert(
        section_field(),
        opt_text(t.section),
    ).insert(tags_field(), FieldValue::TextList(t.tags)).insert(
        completed_field(),
        FieldValue::Flag(t.completed),
    ).insert(
        priority_field(),
        match t.priority {
            Some(p) => FieldValue::Text(p.name()),
            None => FieldValue::Null,
        },
    )
}

/// The text that a required text field holds, if it holds one.
pub open spec fn text_at(d: Map<Seq<char>, FieldValue>, k: Seq<char>) -> Option<Seq<char>> {
    if d.contains_key(k) {
        match d[k] {
            FieldValue::Text(s) => Some(s),
            _ => None,
        }
    } else {
        None
    }
}

/// What an optional text field reads as: `Some(None)` where it is absent
/// or null, `Some(Some(s))` where it holds text, `None` otherwise.
pub open spec fn opt_text_at(d: Map<Seq<char>, FieldValue>, k: Seq<char>) -> Option<
    Option<Seq<char>>,
> {
    if d.contains_key(k) {
        match d[k] {
            FieldValue::Text(s) => Some(Some(s)),
            FieldValue::Null => Some(None),
            _ => None,
        }
    } else {
        Some(None)
    }
}

/// The list that the tags field holds, if it holds one.
pub open spec fn list_at(d: Map<Seq<char>, FieldValue>, k: Seq<char>) -> Option<Seq<Seq<char>>> {
    if d.contains_key(k) {
        match d[k] {
            FieldValue::TextList(l) => Some(l),
            _ => None,
        }
    } else {
        None
    }
}

/// The flag that the completion field holds, if it holds one.
pub open spec fn flag_at(d: Map<Seq<char>, FieldValue>, k: Seq<char>) -> Option<bool> {
    if d.contains_key(k) {
        match d[k] {
            FieldValue::Flag(b) => Some(b),
            _ => None,
        }
    } else {
        None
    }
}

/// What the priority field reads as: `Some(None)` where it is absent or
/// null, `Some(Some(p))` where it holds the name of `p`, `None` otherwise.
pub open spec fn priority_at(d: Map<Seq<char>, FieldValue>, k: Seq<char>) -> Option<
    Option<TaskPriority>,
> {
    match opt_text_at(d, k) {
        Some(Some(n)) => match TaskPriority::named(n) {
            Some(p) => Some(Some(p)),
            None => None,
        },
        Some(None) => Some(None),
        None => None,
    }
}

/// The task that a stored document reads back as; `None` where a field
/// of the task is missing or holds a value of the wrong kind. Other fields
/// of the document are not read.
pub open spec fn read_task(d: Map<Seq<char>, FieldValue>) -> Option<TaskModel> {
    if text_at(d, user_id_field()) is Some && text_at(d, id_field()) is Some && text_at(
        d,
        name_field(),
    ) is Some && opt_text_at(d, description_field()) is Some && opt_text_at(d, due_field()) is Some
        && text_at(d, project_key()) is Some && opt_text_at(d, section_field()) is Some && list_at(
        d,
        tags_field(),
    ) is Some && flag_at(d, completed_field()) is Some && priority_at(d, priority_field()) is Some {
        Some(
            TaskModel {
                user_id: text_at(d, user_id_field())->Some_0,
                id: text_at(d, id_field())->Some_0,
                name: text_at(d, name_field())->Some_0,
                description: opt_text_at(d, description_field())->Some_0,
                due: opt_text_at(d, due_field())->Some_0,
                project: text_at(d, project_key())->Some_0,
                section: opt_text_at(d, section_field())->Some_0,
                tags: list_at(d, tags_field())->Some_0,
                completed: flag_at(d, completed_field())->Some_0,
                priority: priority_at(d, priority_field())->Some_0,
            },
        )
    } else {
        None
    }
}

/// Whether a field name is one that the database reads as a path into
/// the document or as an operator, or refuses outright: empty, holding a
/// `.`, or starting with `$`.
pub open spec fn is_path_like(field: Seq<char>) -> bool {
    field.len() == 0 || field.contains('.') || field[0] == '$'
}

/// What a change does to one stored document.
pub enum ChangeModel {
    /// The document is stored as given.
    Stored(Map<Seq<char>, FieldValue>),
    /// The database refuses the change; the document stays as it was.
    Refused,
    /// A change that this model does not describe: a field name that the
    /// database reads as a path or an operator, or a toggle of a field that
    /// holds no flag.
    NotDescribed,
}

/// What an update does to the stored document `d`. Setting a plain field
/// stores the text under that name, replacing what was there or adding
/// the field; the document's key cannot be changed. Toggling negates the
/// flag in the completion field.
pub open spec fn change_doc(u: UpdateModel, d: Map<Seq<char>, FieldValue>) -> ChangeModel {
    match u {
        UpdateModel::SetField { field, value } => if is_path_like(field) {
            ChangeModel::NotDescribed
        } else if field == key_field() {
            ChangeModel::Refused
        } else {
            ChangeModel::Stored(d.insert(field, FieldValue::Text(value)))
        },
        UpdateModel::ToggleCompleted => match flag_at(d, completed_field()) {
            Some(b) => ChangeModel::Stored(d.insert(completed_field(), FieldValue::Flag(!b))),
            None => ChangeModel::NotDescribed,
        },
    }
}

/// What a change does to a stored task, as seen by reading it back.
pub enum TaskChangeModel {
    /// The change is kept, and the task then reads as this one.
    ReadsBack(TaskModel),
    /// The document is stored but no longer reads back as a task.
    Unreadable,
    /// The database refuses the change; the task stays as it was.
    Refused,
    /// A change that this model does not describe.
    NotDescribed,
}

/// What the update `u` does to the stored task `t`.
pub open spec fn change_task(u: UpdateModel, t: TaskModel) -> TaskChangeModel {
    match change_doc(u, task_doc(t)) {
        ChangeModel::Stored(d) => match read_task(d) {
            Some(t2) => TaskChangeModel::ReadsBack(t2),
            None => TaskChangeModel::Unreadable,
        },
        ChangeModel::Refused => TaskChangeModel::Refused,
        ChangeModel::NotDescribed => TaskChangeModel::NotDescribed,
    }
}

/// The outcome of setting the field `field` of the task `t` to `value`,
/// field by field: a text field takes the value (an optional one as
/// `Some`), the priority takes the priority of that exact name or makes the
/// task unreadable, `completed` and `tags` make it unreadable, the key is
/// refused, and any other plain name is stored beside the task, which
/// reads back unchanged.
pub open spec fn set_task_field(t: TaskModel, field: Seq<char>, value: Seq<char>) -> TaskChangeModel {
    if is_path_like(field) {
        TaskChangeModel::NotDescribed
    } else if field == key_field() {
        TaskChangeModel::Refused
    } else if field == user_id_field() {
        TaskChangeModel::ReadsBack(TaskModel { user_id: value, ..t })
    } else if field == id_field() {
        TaskChangeModel::ReadsBack(TaskModel { id: value, ..t })
    } else if field == name_field() {
        TaskChangeModel::ReadsBack(TaskModel { name: value, ..t })
    } else if field == description_field() {
        TaskChangeModel::ReadsBack(TaskModel { description: Some(value), ..t })
    } else if field == due_field() {
        TaskChangeModel::ReadsBack(TaskModel { due: Some(value), ..t })
    } else if field == project_key() {
        TaskChangeModel::ReadsBack(TaskModel { project: value, ..t })
    } else if field == section_field() {
        TaskChangeModel::ReadsBack(TaskModel { section: Some(value), ..t })
    } else if field == tags_field() || field == completed_field() {
        TaskChangeModel::Unreadable
    } else if field == priority_field() {
        match TaskPriority::named(value) {
            Some(p) => TaskChangeModel::ReadsBack(TaskModel { priority: Some(p), ..t }),
            None => TaskChangeModel::Unreadable,
        }
    } else {
        TaskChangeModel::ReadsBack(t)
    }
}

proof fn lemma_fields_distinct()
    ensures
        key_field() != user_id_field(),
        key_field() != id_field(),
        key_field() != name_field(),
        key_field() != description_field(),
        key_field() != due_field(),
        key_field() != project_key(),
        key_field() != section_field(),
        key_field() != tags_field(),
        key_field() != completed_field(),
        key_field() != priority_field(),
        user_id_field() != id_field(),
        user_id_field() != name_field(),
        user_id_field() != description_field(),
        user_id_field() != due_field(),
        user_id_field() != project_key(),
        user_id_field() != section_field(),
        user_id_field() != tags_field(),
        user_id_field() != completed_field(),
        user_id_field() != priority_field(),
        id_field() != name_field(),
        id_field() != description_field(),
        id_field() != due_field(),
        id_field() != project_key(),
        id_field() != section_field(),
        id_field() != tags_field(),
        id_field() != completed_field(),
        id_field() != priority_field(),
        name_field() != description_field(),
        name_field() != due_field(),
        name_field() != project_key(),
        name_field() != section_field(),
        name_field() != tags_field(),
        name_field() != completed_field(),
        name_field() != priority_field(),
        description_field() != due_field(),
        description_field() != project_key(),
        description_field() != section_field(),
        description_field() != tags_field(),
        description_field() != completed_field(),
        description_field() != priority_field(),
        due_field() != project_key(),
        due_field() != section_field(),
        due_field() != tags_field(),
        due_field() != completed_field(),
        due_field() != priority_field(),
        project_key() != section_field(),
        project_key() != tags_field(),
        project_key() != completed_field(),
        project_key() != priority_field(),
        section_field() != tags_field(),
        section_field() != completed_field(),
        section_field() != priority_field(),
        tags_field() != completed_field(),
        tags_field() != priority_field(),
        completed_field() != priority_field(),
{
    assert(key_field()[0] != due_field()[0]);
    assert(user_id_field()[0] != project_key()[0]);
    assert(user_id_field()[0] != section_field()[0]);
    assert(project_key()[0] != section_field()[0]);
    assert(name_field()[0] != tags_field()[0]);
}

proof fn lemma_priority_names()
    ensures
        forall|p: TaskPriority| TaskPriority::named(#[trigger] p.name()) == Some(p),
{
    assert(crate::models::low_text() != crate::models::medium_text());
    assert(crate::models::low_text() != crate::models::high_text());
    assert(crate::models::medium_text() != crate::models::high_text());
}

/// A stored task reads back as itself.
pub proof fn lemma_task_doc_reads_back(t: TaskModel)
    ensures
        read_task(task_doc(t)) == Some(t),
{
    lemma_fields_distinct();
    lemma_priority_names();
    assert(read_task(task_doc(t)) =~= Some(t));
}

/// Setting a field of a stored task has the outcome `set_task_field` gives.
pub proof fn lemma_set_task_field(t: TaskModel, field: Seq<char>, value: Seq<char>)
    ensures
        change_task(UpdateModel::SetField { field, value }, t) == set_task_field(t, field, value),
{
    lemma_fields_distinct();
    lemma_priority_names();
    lemma_task_doc_reads_back(t);
    let d = task_doc(t);
    if !is_path_like(field) && field != key_field() {
        let d2 = d.insert(field, FieldValue::Text(value));
        if field == user_id_field() {
            assert(read_task(d2) == Some(TaskModel { user_id: value, ..t }));
        } else if field == id_field() {
            assert(read_task(d2) == Some(TaskModel { id: value, ..t }));
        } else if field == name_field() {
            assert(read_task(d2) == Some(TaskModel { name: value, ..t }));
        } else if field == description_field() {
            assert(read_task(d2) == Some(TaskModel { description: Some(value), ..t }));
        } else if field == due_field() {
            assert(read_task(d2) == Some(TaskModel { due: Some(value), ..t }));
        } else if field == project_key() {
            assert(read_task(d2) == Some(TaskModel { project: value, ..t }));
        } else if field == section_field() {
            assert(read_task(d2) == Some(TaskModel { section: Some(value), ..t }));
        } else if field == tags_field() {
            assert(read_task(d2) is None);
        } else if field == completed_field() {
            assert(read_task(d2) is None);
        } else if field == priority_field() {
            match TaskPriority::named(value) {
                Some(p) => {
                    assert(read_task(d2) == Some(TaskModel { priority: Some(p), ..t }));
                },
                None => {
                    assert(read_task(d2) is None);
                },
            }
        } else {
            assert(read_task(d2) == read_task(d));
        }
    }
}

/// Toggling a stored task reads back as the task with its completion
/// negated.
pub proof fn lemma_toggle_task(t: TaskModel)
    ensures
        change_task(UpdateModel::ToggleCompleted, t) == TaskChangeModel::ReadsBack(toggled(t)),
{
    lemma_fields_distinct();
    lemma_priority_names();
    lemma_task_doc_reads_back(t);
    let d2 = task_doc(t).insert(completed_field(), FieldValue::Flag(!t.completed));
    assert(read_task(d2) == Some(toggled(t)));
}

/// The outcome of a change to a task.
pub enum TaskChange {
    ReadsBack(Task),
    Unreadable,
    Refused,
    NotDescribed,
}

impl View for TaskChange {
    type V = TaskChangeModel;

    open spec fn view(&self) -> TaskChangeModel {
        match self {
            TaskChange::ReadsBack(t) => TaskChangeModel::ReadsBack(t@),
            TaskChange::Unreadable => TaskChangeModel::Unreadable,
            TaskChange::Refused => TaskChangeModel::Refused,
            TaskChange::NotDescribed => TaskChangeModel::NotDescribed,
        }
    }
}

/// Whether `f` is the field name of which `s` is the text.
fn is_field(f: &str, s: &str, Ghost(name): Ghost<Seq<char>>) -> (r: bool)
    requires
        s@ == name,
    ensures
        r == (f@ == name),
{
    str_eq(f, s)
}

/// Applies an update to a stored task: the outcome as seen by reading the
/// task back.
pub fn apply_update(update: &TaskUpdate, t: Task) -> (r: TaskChange)
    ensures
        r@ == change_task(update@, t@),
{
    let mut t = t;
    match update {
        TaskUpdate::ToggleCompleted => {
            proof {
                lemma_toggle_task(t@);
            }
            crate::db::toggle_completed(&mut t);
            TaskChange::ReadsBack(t)
        },
        TaskUpdate::SetField { field, value } => {
            proof {
                lemma_set_task_field(t@, field@, value@);
            }
            let f = field.as_str();
            if f.is_empty() || has_char(f, '.') || chars_of(f)[0] == '$' {
                return TaskChange::NotDescribed;
            }
            assert("_id"@ == key_field()) by {
                reveal_strlit("_id");
            }
            assert("user_id"@ == user_id_field()) by {
                reveal_strlit("user_id");
            }
            assert("id"@ == id_field()) by {
                reveal_strlit("id");
            }
            assert("name"@ == name_field()) by {
                reveal_strlit("name");
            }
            assert("description"@ == description_field()) by {
                reveal_strlit("description");
            }
            assert("due"@ == due_field()) by {
                reveal_strlit("due");
            }
            assert("project"@ == project_key()) by {
                reveal_strlit("project");
            }
            assert("section"@ == section_field()) by {
                reveal_strlit("section");
            }
            assert("tags"@ == tags_field()) by {
                reveal_strlit("tags");
            }
            assert("completed"@ == completed_field()) by {
                reveal_strlit("completed");
            }
            assert("priority"@ == priority_field()) by {
                reveal_strlit("priority");
            }
            if is_field(f, "_id", Ghost(key_field())) {
                TaskChange::Refused
            } else if is_field(f, "user_id", Ghost(user_id_field())) {
                t.user_id = value.clone();
                TaskChange::ReadsBack(t)
            } else if is_field(f, "id", Ghost(id_field())) {
                t.id = value.clone();
                TaskChange::ReadsBack(t)
            } else if is_field(f, "name", Ghost(name_field())) {
                t.name = value.clone();
                TaskChange::ReadsBack(t)
            } else if is_field(f, "description", Ghost(description_field())) {
                t.description = Some(value.clone());
                TaskChange::ReadsBack(t)
            } else if is_field(f, "due", Ghost(due_field())) {
                t.due = Some(value.clone());
                TaskChange::ReadsBack(t)
            } else if is_field(f, "project", Ghost(project_key())) {
                t.project = value.clone();
                TaskChange::ReadsBack(t)
            } else if is_field(f, "section", Ghost(section_field())) {
                t.section = Some(value.clone());
                TaskChange::ReadsBack(t)
            } else if is_field(f, "tags", Ghost(tags_field())) || is_field(
                f,
                "completed",
                Ghost(completed_field()),
            ) {
                TaskChange::Unreadable
            } else if is_field(f, "priority", Ghost(priority_field())) {
                match TaskPriority::from_name(value.as_str()) {
                    Some(p) => {
                        t.priority = Some(p);
                        TaskChange::ReadsBack(t)
                    },
                    None => TaskChange::Unreadable,
                }
            } else {
                TaskChange::ReadsBack(t)
            }
        },
    }
}

} // verus!
