//! Properties that hold across the endpoints: whose tasks a request can
//! reach, that an added task is listed, that toggling twice changes
//! nothing, and what a parsed tag looks like.
use vstd::prelude::*;

use crate::api::public::{completed_text, search_filter, status_filter};
use crate::api::task_from_form;
use crate::db::{UpdateModel, owner_filter, task_filter, toggled};
use crate::store::{
    ChangeModel,
    FieldValue,
    TaskChangeModel,
    change_doc,
    change_task,
    completed_field,
    description_field,
    due_field,
    id_field,
    is_path_like,
    key_field,
    lemma_set_task_field,
    lemma_task_doc_reads_back,
    lemma_toggle_task,
    name_field,
    priority_field,
    project_key,
    read_task,
    section_field,
    tags_field,
    task_doc,
    user_id_field,
};
use crate::models::{TaskModel, TaskPriority};
use crate::server::{TaskOptions, open_tasks_filter};
use crate::text::{split_on, spec_is_whitespace, tags_of, trim, trim_end, trim_start, trimmed_nonempty};

verus! {

/// Every filter that an endpoint builds for the user `user` matches only
/// tasks that `user` owns, whatever the other criteria: the task list, the
/// search, the completed/open lists, the main page, and the single-task
/// filter of removing, completing and changing a task.
pub proof fn law_filters_stay_with_caller(
    user: Seq<char>,
    id: Seq<char>,
    project: Seq<char>,
    due: Seq<char>,
    priority: Option<TaskPriority>,
    status: Option<Seq<char>>,
    t: TaskModel,
)
    ensures
        owner_filter(user).matches(t) ==> t.user_id == user,
        task_filter(user, id).matches(t) ==> t.user_id == user,
        search_filter(user, project, due, priority).matches(t) ==> t.user_id == user,
        status_filter(user, status).matches(t) ==> t.user_id == user,
        open_tasks_filter(user).matches(t) ==> t.user_id == user,
{
}

/// The filter by which a task is removed, completed or changed matches
/// exactly the task with that id owned by the caller.
pub proof fn law_task_filter_selects_the_task(user: Seq<char>, id: Seq<char>, t: TaskModel)
    ensures
        task_filter(user, id).matches(t) <==> (t.user_id == user && t.id == id),
{
}

/// A task added by `user` is listed for `user`: by the task list, by its
/// own id, by the completed or the open list according to its completion,
/// by the main page exactly when it is open, and by a search for its
/// project and priority, with or without its due date.
pub proof fn law_added_task_is_listed(
    user: Seq<char>,
    id: Seq<char>,
    opt: TaskOptions,
    due: Option<Seq<char>>,
    status: Option<Seq<char>>,
)
    ensures
        owner_filter(user).matches(task_from_form(user, id, opt, due)),
        task_filter(user, id).matches(task_from_form(user, id, opt, due)),
        status_filter(user, status).matches(task_from_form(user, id, opt, due)) <==> (task_from_form(
            user,
            id,
            opt,
            due,
        ).completed == (status == Some(completed_text()))),
        open_tasks_filter(user).matches(task_from_form(user, id, opt, due)) <==> !task_from_form(
            user,
            id,
            opt,
            due,
        ).completed,
        search_filter(user, opt.project@, Seq::<char>::empty(), opt.priority).matches(
            task_from_form(user, id, opt, due),
        ),
        due matches Some(d) ==> search_filter(user, opt.project@, d, opt.priority).matches(
            task_from_form(user, id, opt, due),
        ),
{
}

/// A search without criteria lists what the task list lists, and a list
/// whose status is not `completed` shows what the main page shows.
pub proof fn law_default_queries_agree(user: Seq<char>, status: Option<Seq<char>>)
    ensures
        search_filter(user, Seq::<char>::empty(), Seq::<char>::empty(), None) == owner_filter(
            user,
        ),
        status != Some(completed_text()) ==> status_filter(user, status) == open_tasks_filter(
            user,
        ),
{
}

/// Completing a task twice leaves it as it was; once, it changes only its
/// completion.
pub proof fn law_toggle_twice_is_identity(t: TaskModel)
    ensures
        toggled(toggled(t)) == t,
        toggled(t).completed != t.completed,
        toggled(t) == (TaskModel { completed: !t.completed, ..t }),
{
}

/// A stored task reads back as itself.
pub proof fn law_stored_task_reads_back(t: TaskModel)
    ensures
        read_task(task_doc(t)) == Some(t),
{
    lemma_task_doc_reads_back(t);
}

/// Setting a field of a stored task: a text field reads back as the value
/// set and nothing else changes; the priority takes the priority of that
/// exact name, and any other text leaves the task unreadable; `tags` and
/// `completed` leave it unreadable; the key is refused; any other plain
/// name is stored beside the task, which reads back unchanged.
pub proof fn law_changed_field_reads_back(t: TaskModel, field: Seq<char>, value: Seq<char>)
    ensures
        change_task(UpdateModel::SetField { field: name_field(), value }, t)
            == TaskChangeModel::ReadsBack(TaskModel { name: value, ..t }),
        change_task(UpdateModel::SetField { field: project_key(), value }, t)
            == TaskChangeModel::ReadsBack(TaskModel { project: value, ..t }),
        change_task(UpdateModel::SetField { field: description_field(), value }, t)
            == TaskChangeModel::ReadsBack(TaskModel { description: Some(value), ..t }),
        change_task(UpdateModel::SetField { field: section_field(), value }, t)
            == TaskChangeModel::ReadsBack(TaskModel { section: Some(value), ..t }),
        change_task(UpdateModel::SetField { field: due_field(), value }, t)
            == TaskChangeModel::ReadsBack(TaskModel { due: Some(value), ..t }),
        change_task(UpdateModel::SetField { field: id_field(), value }, t)
            == TaskChangeModel::ReadsBack(TaskModel { id: value, ..t }),
        change_task(UpdateModel::SetField { field: user_id_field(), value }, t)
            == TaskChangeModel::ReadsBack(TaskModel { user_id: value, ..t }),
        change_task(UpdateModel::SetField { field: priority_field(), value }, t) == match TaskPriority::named(value) {
            Some(p) => TaskChangeModel::ReadsBack(TaskModel { priority: Some(p), ..t }),
            None => TaskChangeModel::Unreadable,
        },
        change_task(UpdateModel::SetField { field: tags_field(), value }, t)
            == TaskChangeModel::Unreadable,
        change_task(UpdateModel::SetField { field: completed_field(), value }, t)
            == TaskChangeModel::Unreadable,
        change_task(UpdateModel::SetField { field: key_field(), value }, t)
            == TaskChangeModel::Refused,
        !is_path_like(field) && field != key_field() && field != user_id_field() && field
            != id_field() && field != name_field() && field != description_field() && field
            != due_field() && field != project_key() && field != section_field() && field
            != tags_field() && field != completed_field() && field != priority_field() ==> change_task(
            UpdateModel::SetField { field, value },
            t,
        ) == TaskChangeModel::ReadsBack(t),
{
    assert(!is_path_like(name_field()));
    assert(!is_path_like(project_key()));
    assert(!is_path_like(description_field()));
    assert(!is_path_like(section_field()));
    assert(!is_path_like(due_field()));
    assert(!is_path_like(id_field()));
    assert(!is_path_like(user_id_field()));
    assert(!is_path_like(priority_field()));
    assert(!is_path_like(tags_field()));
    assert(!is_path_like(completed_field()));
    assert(!is_path_like(key_field()));
    lemma_set_task_field(t, name_field(), value);
    lemma_set_task_field(t, project_key(), value);
    lemma_set_task_field(t, description_field(), value);
    lemma_set_task_field(t, section_field(), value);
    lemma_set_task_field(t, due_field(), value);
    lemma_set_task_field(t, id_field(), value);
    lemma_set_task_field(t, user_id_field(), value);
    lemma_set_task_field(t, priority_field(), value);
    lemma_set_task_field(t, tags_field(), value);
    lemma_set_task_field(t, completed_field(), value);
    lemma_set_task_field(t, key_field(), value);
    lemma_set_task_field(t, field, value);
}

/// A change of a field touches that field alone: where it is stored, the
/// document holds the same fields as before plus that one, the field holds
/// the value, and every other field keeps its value; where it is refused,
/// the document stays as it was.
pub proof fn law_change_is_local(d: Map<Seq<char>, FieldValue>, field: Seq<char>, value: Seq<char>)
    ensures
        change_doc(UpdateModel::SetField { field, value }, d) matches ChangeModel::Stored(d2) ==> {
            &&& d2.dom() == d.dom().insert(field)
            &&& d2[field] == FieldValue::Text(value)
            &&& forall|g: Seq<char>| #[trigger] d.contains_key(g) && g != field ==> d2[g] == d[g]
        },
        change_doc(UpdateModel::SetField { field, value }, d) is Refused ==> field == key_field(),
{
}

/// Changing a field twice to the same value stores the same document as
/// changing it once; a refused change is refused again, the document being
/// unchanged. Unless the field is the owner or the id, a task that the
/// change's filter selected is still selected once changed, so a second
/// change of the same request meets the same task.
pub proof fn law_change_twice_is_once(
    user: Seq<char>,
    id: Seq<char>,
    d: Map<Seq<char>, FieldValue>,
    t: TaskModel,
    field: Seq<char>,
    value: Seq<char>,
)
    ensures
        change_doc(UpdateModel::SetField { field, value }, d) matches ChangeModel::Stored(d2)
            ==> change_doc(UpdateModel::SetField { field, value }, d2) == ChangeModel::Stored(d2),
        change_doc(UpdateModel::SetField { field, value }, d) is Refused ==> change_doc(
            UpdateModel::SetField { field, value },
            d,
        ) is Refused,
        (task_filter(user, id).matches(t) && field != id_field() && field != user_id_field()
            && change_task(UpdateModel::SetField { field, value }, t) is ReadsBack)
            ==> task_filter(user, id).matches(
            change_task(UpdateModel::SetField { field, value }, t)->ReadsBack_0,
        ),
{
    match change_doc(UpdateModel::SetField { field, value }, d) {
        ChangeModel::Stored(d2) => {
            assert(d2.insert(field, FieldValue::Text(value)) =~= d2);
        },
        _ => {},
    }
    lemma_set_task_field(t, field, value);
}

/// Completing a task through the toggle update negates its completion and
/// nothing else; toggling a stored document twice gives it back as it was.
pub proof fn law_toggle_update(t: TaskModel, d: Map<Seq<char>, FieldValue>)
    ensures
        change_task(UpdateModel::ToggleCompleted, t) == TaskChangeModel::ReadsBack(toggled(t)),
        change_doc(UpdateModel::ToggleCompleted, d) matches ChangeModel::Stored(d2)
            ==> change_doc(UpdateModel::ToggleCompleted, d2) == ChangeModel::Stored(d),
{
    lemma_toggle_task(t);
    match change_doc(UpdateModel::ToggleCompleted, d) {
        ChangeModel::Stored(d2) => {
            assert(d2.insert(completed_field(), d[completed_field()]) =~= d);
        },
        _ => {},
    }
}

/// Whether no character of `s` is `c`.
pub open spec fn free_of(s: Seq<char>, c: char) -> bool {
    forall|k: int| 0 <= k < s.len() ==> s[k] != c
}

/// Whether `t` is a well-formed tag: not empty, without white space at
/// either end, and without a comma.
pub open spec fn clean_tag(t: Seq<char>) -> bool {
    &&& t.len() > 0
    &&& !spec_is_whitespace(t[0])
    &&& !spec_is_whitespace(t.last())
    &&& free_of(t, ',')
}

proof fn lemma_split_nonempty(s: Seq<char>, sep: char)
    ensures
        split_on(s, sep).len() >= 1,
    decreases s.len(),
{
    if s.len() > 0 {
        lemma_split_nonempty(s.drop_last(), sep);
    }
}

proof fn lemma_split_pieces_free(s: Seq<char>, sep: char)
    ensures
        forall|i: int|
            0 <= i < split_on(s, sep).len() ==> free_of(#[trigger] split_on(s, sep)[i], sep),
    decreases s.len(),
{
    if s.len() > 0 {
        lemma_split_pieces_free(s.drop_last(), sep);
        lemma_split_nonempty(s.drop_last(), sep);
        let p = split_on(s.drop_last(), sep);
        let r = split_on(s, sep);
        if s.last() != sep {
            assert(p.len() > 0);
            let q = p.last().push(s.last());
            assert(free_of(p[p.len() - 1], sep));
            assert forall|k: int| 0 <= k < q.len() implies q[k] != sep by {
                if k < q.len() - 1 {
                    assert(q[k] == p[p.len() - 1][k]);
                }
            }
            assert forall|i: int| 0 <= i < r.len() implies free_of(#[trigger] r[i], sep) by {
                if i < r.len() - 1 {
                    assert(r[i] == p[i]);
                }
            }
        } else {
            assert forall|i: int| 0 <= i < r.len() implies free_of(#[trigger] r[i], sep) by {
                if i < r.len() - 1 {
                    assert(r[i] == p[i]);
                }
            }
        }
    }
}

proof fn lemma_trim_start(s: Seq<char>)
    ensures
        trim_start(s).len() <= s.len(),
        forall|k: int|
            0 <= k < trim_start(s).len() ==> #[trigger] trim_start(s)[k] == s[k + s.len()
                - trim_start(s).len()],
        trim_start(s).len() > 0 ==> !spec_is_whitespace(trim_start(s)[0]),
    decreases s.len(),
{
    if s.len() > 0 && spec_is_whitespace(s[0]) {
        lemma_trim_start(s.drop_first());
    }
}

proof fn lemma_trim_end(s: Seq<char>)
    ensures
        trim_end(s).len() <= s.len(),
        forall|k: int| 0 <= k < trim_end(s).len() ==> #[trigger] trim_end(s)[k] == s[k],
        trim_end(s).len() > 0 ==> !spec_is_whitespace(trim_end(s).last()),
    decreases s.len(),
{
    if s.len() > 0 && spec_is_whitespace(s.last()) {
        lemma_trim_end(s.drop_last());
    }
}

proof fn lemma_trim_clean(s: Seq<char>)
    requires
        free_of(s, ','),
        trim(s).len() > 0,
    ensures
        clean_tag(trim(s)),
{
    lemma_trim_start(s);
    lemma_trim_end(trim_start(s));
    let a = trim_start(s);
    assert(trim(s)[0] == a[0]);
    assert forall|k: int| 0 <= k < trim(s).len() implies trim(s)[k] != ',' by {
        assert(trim(s)[k] == a[k]);
        assert(a[k] == s[k + s.len() - a.len()]);
    }
}

proof fn lemma_trimmed_nonempty_clean(pieces: Seq<Seq<char>>)
    requires
        forall|i: int| 0 <= i < pieces.len() ==> free_of(#[trigger] pieces[i], ','),
    ensures
        forall|i: int|
            0 <= i < trimmed_nonempty(pieces).len() ==> clean_tag(
                #[trigger] trimmed_nonempty(pieces)[i],
            ),
    decreases pieces.len(),
{
    if pieces.len() > 0 {
        let rest = pieces.drop_last();
        assert forall|i: int| 0 <= i < rest.len() implies free_of(#[trigger] rest[i], ',') by {
            assert(rest[i] == pieces[i]);
        }
        lemma_trimmed_nonempty_clean(rest);
        let last = pieces[pieces.len() - 1];
        let r = trimmed_nonempty(rest);
        let out = trimmed_nonempty(pieces);
        if trim(last).len() > 0 {
            lemma_trim_clean(last);
            assert(out == r.push(trim(last)));
            assert forall|i: int| 0 <= i < out.len() implies clean_tag(#[trigger] out[i]) by {
                if i < r.len() {
                    assert(out[i] == r[i]);
                }
            }
        } else {
            assert(out == r);
        }
    }
}

/// Every tag read from a comma-separated list is well formed: not empty,
/// without white space at either end, and without a comma.
pub proof fn law_tags_are_clean(s: Seq<char>)
    ensures
        forall|i: int| 0 <= i < tags_of(s).len() ==> clean_tag(#[trigger] tags_of(s)[i]),
{
    lemma_split_pieces_free(s, ',');
    lemma_trimmed_nonempty_clean(split_on(s, ','));
}

} // verus!
