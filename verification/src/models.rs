//! The stored task, its priority, and the form state of a task change.
use vstd::prelude::*;

use crate::text::{eq_ignore_ascii_case, spec_eq_ignore_ascii_case, str_eq};

verus! {

broadcast use vstd::string::group_string_axioms;

/// How urgent a task is.
#[derive(Clone, Copy, Debug, PartialEq, Eq, Structural)]
pub enum TaskPriority {
    Low,
    Medium,
    High,
}

/// The characters of `low`.
pub open spec fn low_text() -> Seq<char> {
    seq!['l', 'o', 'w']
}

/// The characters of `medium`.
pub open spec fn medium_text() -> Seq<char> {
    seq!['m', 'e', 'd', 'i', 'u', 'm']
}

/// The characters of `high`.
pub open spec fn high_text() -> Seq<char> {
    seq!['h', 'i', 'g', 'h']
}

impl TaskPriority {
    /// The lowercase name under which a priority is stored and sent.
    pub open spec fn name(self) -> Seq<char> {
        match self {
            TaskPriority::Low => low_text(),
            TaskPriority::Medium => medium_text(),
            TaskPriority::High => high_text(),
        }
    }

    /// The priority that a form value names, its letters compared without
    /// regard to ASCII case; `None` for any other value.
    pub open spec fn from_form(v: Seq<char>) -> Option<TaskPriority> {
        if spec_eq_ignore_ascii_case(v, low_text()) {
            Some(TaskPriority::Low)
        } else if spec_eq_ignore_ascii_case(v, medium_text()) {
            Some(TaskPriority::Medium)
        } else if spec_eq_ignore_ascii_case(v, high_text()) {
            Some(TaskPriority::High)
        } else {
            None
        }
    }

    /// The priority whose stored name is exactly `v`; `None` for any other
    /// text.
    pub open spec fn named(v: Seq<char>) -> Option<TaskPriority> {
        if v == low_text() {
            Some(TaskPriority::Low)
        } else if v == medium_text() {
            Some(TaskPriority::Medium)
        } else if v == high_text() {
            Some(TaskPriority::High)
        } else {
            None
        }
    }

    /// Reads a priority from its stored name.
    pub fn from_name(v: &str) -> (p: Option<TaskPriority>)
        ensures
            p == TaskPriority::named(v@),
    {
        proof {
            reveal_strlit("low");
            reveal_strlit("medium");
            reveal_strlit("high");
        }
        assert("low"@ == low_text());
        assert("medium"@ == medium_text());
        assert("high"@ == high_text());
        if str_eq(v, "low") {
            Some(TaskPriority::Low)
        } else if str_eq(v, "medium") {
            Some(TaskPriority::Medium)
        } else if str_eq(v, "high") {
            Some(TaskPriority::High)
        } else {
            None
        }
    }

    /// The lowercase name of the priority.
    pub fn as_str(&self) -> (s: &'static str)
        ensures
            s@ == self.name(),
    {
        proof {
            reveal_strlit("low");
            reveal_strlit("medium");
            reveal_strlit("high");
        }
        match self {
            TaskPriority::Low => "low",
            TaskPriority::Medium => "medium",
            TaskPriority::High => "high",
        }
    }

    /// Reads a priority from a form value.
    pub fn from_form_value(v: &str) -> (p: Option<TaskPriority>)
        ensures
            p == TaskPriority::from_form(v@),
    {
        proof {
            reveal_strlit("low");
            reveal_strlit("medium");
            reveal_strlit("high");
        }
        if eq_ignore_ascii_case(v, "low") {
            Some(TaskPriority::Low)
        } else if eq_ignore_ascii_case(v, "medium") {
            Some(TaskPriority::Medium)
        } else if eq_ignore_ascii_case(v, "high") {
            Some(TaskPriority::High)
        } else {
            None
        }
    }
}

/// The characters of an optional string.
pub open spec fn opt_view(o: Option<String>) -> Option<Seq<char>> {
    match o {
        Some(s) => Some(s@),
        None => None,
    }
}

/// A copy of an optional string.
pub fn copy_opt(o: &Option<String>) -> (r: Option<String>)
    ensures
        opt_view(r) == opt_view(*o),
{
    match o {
        Some(s) => Some(s.clone()),
        None => None,
    }
}

/// A task as the store holds it.
pub struct Task {
    pub user_id: String,
    pub id: String,
    pub name: String,
    pub description: Option<String>,
    /// The due date in its canonical `YYYY-MM-DD` form.
    pub due: Option<String>,
    pub project: String,
    pub section: Option<String>,
    pub tags: Vec<String>,
    pub completed: bool,
    pub priority: Option<TaskPriority>,
}

/// A task, its text fields taken as character sequences.
pub struct TaskModel {
    pub user_id: Seq<char>,
    pub id: Seq<char>,
    pub name: Seq<char>,
    pub description: Option<Seq<char>>,
    pub due: Option<Seq<char>>,
    pub project: Seq<char>,
    pub section: Option<Seq<char>>,
    pub tags: Seq<Seq<char>>,
    pub completed: bool,
    pub priority: Option<TaskPriority>,
}

impl View for Task {
    type V = TaskModel;

    open spec fn view(&self) -> TaskModel {
        TaskModel {
            user_id: self.user_id@,
            id: self.id@,
            name: self.name@,
            description: opt_view(self.description),
            due: opt_view(self.due),
            project: self.project@,
            section: opt_view(self.section),
            tags: self.tags@.map_values(|t: String| t@),
            completed: self.completed,
            priority: self.priority,
        }
    }
}

/// The entries of a submitted form, field name and value; where a name
/// occurs twice, the later entry counts.
pub struct ModifyTaskState {
    pub data: Vec<(String, String)>,
}

/// The map that a list of entries describes, later entries overriding
/// earlier ones.
pub open spec fn entries_map(s: Seq<(String, String)>) -> Map<Seq<char>, Seq<char>>
    decreases s.len(),
{
    if s.len() == 0 {
        Map::empty()
    } else {
        entries_map(s.drop_last()).insert(s.last().0@, s.last().1@)
    }
}

impl View for ModifyTaskState {
    type V = Map<Seq<char>, Seq<char>>;

    open spec fn view(&self) -> Map<Seq<char>, Seq<char>> {
        entries_map(self.data@)
    }
}

impl ModifyTaskState {
    /// The value of the field `key`, if the form has one.
    pub fn get(&self, key: &str) -> (r: Option<&String>)
        ensures
            match r {
                Some(v) => self@.contains_key(key@) && v@ == self@[key@],
                None => !self@.contains_key(key@),
            },
    {
        let mut i: usize = self.data.len();
        assert(self.data@.take(i as int) == self.data@);
        while i > 0
            invariant
                i <= self.data@.len(),
                forall|j: int|
                    i <= j < self.data@.len() ==> #[trigger] self.data@[j].0@ != key@,
                entries_map(self.data@).contains_key(key@) == entries_map(
                    self.data@.take(i as int),
                ).contains_key(key@),
                entries_map(self.data@).contains_key(key@) ==> entries_map(self.data@)[key@]
                    == entries_map(self.data@.take(i as int))[key@],
            decreases i,
        {
            let ghost prefix = self.data@.take(i as int);
            assert(prefix.drop_last() == self.data@.take(i - 1));
            assert(prefix.last() == self.data@[i - 1]);
            if str_eq(self.data[i - 1].0.as_str(), key) {
                return Some(&self.data[i - 1].1);
            }
            i = i - 1;
        }
        assert(self.data@.take(0) == Seq::<(String, String)>::empty());
        None
    }
}

} // verus!
