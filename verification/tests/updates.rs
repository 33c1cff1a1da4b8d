use focus_passion::api::{projects_reply, DbError};
use focus_passion::db::{filter_of_task, TaskUpdate};
use focus_passion::store::{apply_update, TaskChange};
use focus_passion::models::{Task, TaskPriority};
use focus_passion::text::has_char;

fn task() -> Task {
    Task {
        user_id: "u".to_string(),
        id: "t".to_string(),
        name: "n".to_string(),
        description: None,
        due: None,
        project: "work".to_string(),
        section: None,
        tags: vec!["a".to_string()],
        completed: false,
        priority: None,
    }
}

fn read_back(c: TaskChange) -> Task {
    match c {
        TaskChange::ReadsBack(t) => t,
        _ => panic!("does not read back"),
    }
}

fn set(field: &str, value: &str) -> TaskUpdate {
    TaskUpdate::SetField { field: field.to_string(), value: value.to_string() }
}

#[test]
fn projects_reply_falls_back_to_empty() {
    assert_eq!(projects_reply::<u8>(Ok(vec![1, 2])), vec![1, 2]);
    assert!(projects_reply::<u8>(Err(DbError { message: "down".to_string() })).is_empty());
}

#[test]
fn changed_fields_read_back() {
    let t = read_back(apply_update(&set("name", "new"), task()));
    assert_eq!(t.name, "new");
    assert_eq!(t.project, "work");
    let t = read_back(apply_update(&set("description", "d"), task()));
    assert_eq!(t.description.as_deref(), Some("d"));
    let t = read_back(apply_update(&set("section", "s"), task()));
    assert_eq!(t.section.as_deref(), Some("s"));
    let t = read_back(apply_update(&set("due", "2024-01-02"), task()));
    assert_eq!(t.due.as_deref(), Some("2024-01-02"));
    let t = read_back(apply_update(&set("project", "home"), task()));
    assert_eq!(t.project, "home");
    let t = read_back(apply_update(&set("id", "t2"), task()));
    assert_eq!(t.id, "t2");
    let t = read_back(apply_update(&set("user_id", "v"), task()));
    assert_eq!(t.user_id, "v");
    let t = read_back(apply_update(&set("priority", "high"), task()));
    assert_eq!(t.priority, Some(TaskPriority::High));
    let t = read_back(apply_update(&set("colour", "red"), task()));
    assert_eq!(t.name, "n");
    assert_eq!(t.tags, vec!["a"]);
}

#[test]
fn changes_that_do_not_read_back() {
    for f in ["completed", "tags"] {
        assert!(matches!(apply_update(&set(f, "x"), task()), TaskChange::Unreadable), "field {:?}", f);
    }
    assert!(matches!(apply_update(&set("priority", "High"), task()), TaskChange::Unreadable));
    assert!(matches!(apply_update(&set("priority", "urgent"), task()), TaskChange::Unreadable));
    assert!(matches!(apply_update(&set("_id", "x"), task()), TaskChange::Refused));
    for f in ["", "tags.0", "colour.x", "$set"] {
        assert!(matches!(apply_update(&set(f, "x"), task()), TaskChange::NotDescribed), "field {:?}", f);
    }
}

#[test]
fn changing_twice_is_changing_once() {
    for (f, v) in [("name", "x"), ("project", "p"), ("due", "2024-05-06"), ("priority", "low"), ("colour", "red")] {
        let u = set(f, v);
        let once = read_back(apply_update(&u, task()));
        let twice = read_back(apply_update(&u, read_back(apply_update(&u, task()))));
        assert_eq!(once.name, twice.name);
        assert_eq!(once.project, twice.project);
        assert_eq!(once.due, twice.due);
        assert_eq!(once.priority, twice.priority);
        assert!(filter_of_task("u", "t").matches(&once));
    }
    let moved = read_back(apply_update(&set("user_id", "v"), task()));
    assert!(!filter_of_task("u", "t").matches(&moved));
}

#[test]
fn toggle_as_update() {
    let t = read_back(apply_update(&TaskUpdate::ToggleCompleted, task()));
    assert!(t.completed);
    let t = read_back(apply_update(&TaskUpdate::ToggleCompleted, t));
    assert!(!t.completed);
}

#[test]
fn has_char_finds_characters() {
    assert!(has_char("a.b", '.'));
    assert!(!has_char("ab", '.'));
    assert!(!has_char("", '.'));
    assert!(has_char("приве́т", 'и'));
}

#[test]
fn priority_from_exact_name() {
    assert_eq!(TaskPriority::from_name("low"), Some(TaskPriority::Low));
    assert_eq!(TaskPriority::from_name("medium"), Some(TaskPriority::Medium));
    assert_eq!(TaskPriority::from_name("high"), Some(TaskPriority::High));
    assert_eq!(TaskPriority::from_name("Low"), None);
}
