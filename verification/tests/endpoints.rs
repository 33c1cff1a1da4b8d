use focus_passion::api::private;
use focus_passion::api::public::{self, Method, PublicRoute, TaskSearchOptions};
use focus_passion::api::{db_reply, empty_reply, DbError, Status};
use focus_passion::db::{self, coll, toggle_completed, DbOp, TaskFilter, TaskUpdate};
use focus_passion::models::{ModifyTaskState, Task, TaskPriority};
use focus_passion::server::{css_hash, main_page, TaskOptions};

fn options() -> TaskOptions {
    TaskOptions {
        name: "Write report".to_string(),
        description: Some("quarterly".to_string()),
        due: Some("2024-03-05".to_string()),
        project: "work".to_string(),
        section: None,
        tags: Some(" a, b ,,c".to_string()),
        completed: None,
        priority: Some(TaskPriority::High),
    }
}

fn find_filter(op: DbOp) -> TaskFilter {
    match op {
        DbOp::Find { filter } => filter,
        _ => panic!("not a find"),
    }
}

fn is_url_safe(c: char) -> bool {
    c == '_' || c == '-' || c.is_ascii_alphanumeric()
}

fn sample_task(user: &str, id: &str, completed: bool) -> Task {
    Task {
        user_id: user.to_string(),
        id: id.to_string(),
        name: "n".to_string(),
        description: None,
        due: Some("2024-03-05".to_string()),
        project: "work".to_string(),
        section: None,
        tags: vec![],
        completed,
        priority: Some(TaskPriority::Low),
    }
}

#[test]
fn collection_name() {
    assert_eq!(coll(), "user_tasks");
}

#[test]
fn routes_are_listed_in_order() {
    let r = public::routes();
    assert_eq!(
        r,
        vec![
            PublicRoute::GetTasks,
            PublicRoute::AddTask,
            PublicRoute::RemoveTask,
            PublicRoute::CompleteTask,
            PublicRoute::ModifyTask,
            PublicRoute::FetchTasksCompleteFiltering,
            PublicRoute::SearchTasks,
        ]
    );
    let uris: Vec<&str> = r.iter().map(|x| x.uri()).collect();
    assert_eq!(
        uris,
        vec![
            "/get",
            "/add",
            "/remove/<id>",
            "/complete/<id>",
            "/modify/<id>/<param>",
            "/list?<status>",
            "/search?<project>&<opt..>"
        ]
    );
    let methods: Vec<Method> = r.iter().map(|x| x.method()).collect();
    assert_eq!(
        methods,
        vec![
            Method::Get,
            Method::Post,
            Method::Post,
            Method::Post,
            Method::Post,
            Method::Get,
            Method::Get
        ]
    );
}

#[test]
fn status_codes() {
    assert_eq!(Status::Unauthorized.code(), 401);
    assert_eq!(Status::InternalServerError.code(), 500);
}

#[test]
fn get_tasks_needs_the_cookie() {
    assert!(matches!(public::get_tasks(None), Err(Status::Unauthorized)));
    assert!(matches!(private::get_tasks(None), Err(Status::Unauthorized)));
    let f = find_filter(public::get_tasks(Some("u1")).ok().unwrap());
    assert_eq!(f.user_id, "u1");
    assert!(f.id.is_none() && f.completed.is_none() && f.due.is_none());
    assert!(f.project.is_none() && f.priority.is_none());
    let g = find_filter(private::get_tasks(Some("u2")).ok().unwrap());
    assert_eq!(g.user_id, "u2");
}

#[test]
fn search_builds_the_given_criteria() {
    let opt = TaskSearchOptions { due: "".to_string(), priority: None };
    assert!(matches!(public::search_tasks(None, "p", &opt), Err(Status::Unauthorized)));
    let f = find_filter(public::search_tasks(Some("u"), "", &opt).ok().unwrap());
    assert_eq!(f.user_id, "u");
    assert!(f.due.is_none() && f.project.is_none() && f.priority.is_none());
    let opt2 = TaskSearchOptions { due: "2024-03-05".to_string(), priority: Some(TaskPriority::Medium) };
    let g = find_filter(public::search_tasks(Some("u"), "home", &opt2).ok().unwrap());
    assert_eq!(g.due.as_deref(), Some("2024-03-05"));
    assert_eq!(g.project.as_deref(), Some("home"));
    assert_eq!(g.priority, Some(TaskPriority::Medium));
    assert!(g.completed.is_none() && g.id.is_none());
}

#[test]
fn add_task_builds_the_task() {
    assert!(matches!(public::add_task(None, &options()), Err(Status::Unauthorized)));
    let t = public::add_task(Some("u1"), &options()).ok().unwrap();
    assert_eq!(t.user_id, "u1");
    assert_eq!(t.id.chars().count(), 21);
    assert!(t.id.chars().all(is_url_safe));
    assert_eq!(t.name, "Write report");
    assert_eq!(t.description.as_deref(), Some("quarterly"));
    assert_eq!(t.due.as_deref(), Some("2024-03-05"));
    assert_eq!(t.project, "work");
    assert!(t.section.is_none());
    assert_eq!(t.tags, vec!["a", "b", "c"]);
    assert!(!t.completed);
    assert_eq!(t.priority, Some(TaskPriority::High));
}

#[test]
fn task_ids_differ() {
    let a = public::add_task(Some("u"), &options()).ok().unwrap();
    let b = public::add_task(Some("u"), &options()).ok().unwrap();
    assert_ne!(a.id, b.id);
}

#[test]
fn due_dates_are_read_or_refused() {
    let mut o = options();
    o.due = Some("".to_string());
    assert!(public::add_task(Some("u"), &o).ok().unwrap().due.is_none());
    o.due = None;
    o.tags = None;
    o.completed = Some(true);
    let t = public::add_task(Some("u"), &o).ok().unwrap();
    assert!(t.due.is_none());
    assert!(t.tags.is_empty());
    assert!(t.completed);
    o.due = Some("2024-3-5".to_string());
    assert_eq!(public::add_task(Some("u"), &o).ok().unwrap().due.as_deref(), Some("2024-03-05"));
    o.due = Some("05/03/2024".to_string());
    assert!(matches!(public::add_task(Some("u"), &o), Err(Status::InternalServerError)));
    o.due = Some("2023-02-29".to_string());
    assert!(matches!(public::add_task(Some("u"), &o), Err(Status::InternalServerError)));
    assert!(matches!(private::add_task(Some("u"), &o), Err(Status::InternalServerError)));
}

#[test]
fn private_add_task_without_cookie_uses_error_owner() {
    let t = private::add_task(None, &options()).ok().unwrap();
    assert_eq!(t.user_id, "error");
    let u = private::add_task(Some("me"), &options()).ok().unwrap();
    assert_eq!(u.user_id, "me");
}

#[test]
fn add_task_response_messages() {
    let ok = private::add_task_response("abc".to_string(), Ok(()));
    assert!(ok.success);
    assert_eq!(ok.message, "Successfully added task");
    assert_eq!(ok.task_id, "abc");
    let err = private::add_task_response("abc".to_string(), Err(DbError { message: "boom".to_string() }));
    assert!(!err.success);
    assert_eq!(err.message, "Error: boom");
    assert_eq!(err.task_id, "abc");
}

#[test]
fn remove_and_complete_target_the_callers_task() {
    assert!(matches!(public::remove_task("t1", None), Err(Status::Unauthorized)));
    assert!(matches!(public::complete_task("t1", None), Err(Status::Unauthorized)));
    match public::remove_task("t1", Some("u")).ok().unwrap() {
        DbOp::DeleteOne { filter } => {
            assert_eq!(filter.user_id, "u");
            assert_eq!(filter.id.as_deref(), Some("t1"));
        }
        _ => panic!("not a delete"),
    }
    match public::complete_task("t1", Some("u")).ok().unwrap() {
        DbOp::FindOneAndUpdate { filter, update, return_updated } => {
            assert_eq!(filter.user_id, "u");
            assert_eq!(filter.id.as_deref(), Some("t1"));
            assert!(matches!(update, TaskUpdate::ToggleCompleted));
            assert!(return_updated);
        }
        _ => panic!("not an update"),
    }
}

#[test]
fn modify_uses_the_form_value_or_empty() {
    let state = ModifyTaskState {
        data: vec![
            ("name".to_string(), "old".to_string()),
            ("project".to_string(), "home".to_string()),
            ("name".to_string(), "new".to_string()),
        ],
    };
    assert_eq!(state.get("name").map(|s| s.as_str()), Some("new"));
    assert_eq!(state.get("project").map(|s| s.as_str()), Some("home"));
    assert!(state.get("due").is_none());
    assert!(matches!(public::modify_task("t", None, "name", &state), Err(Status::Unauthorized)));
    match public::modify_task("t", Some("u"), "name", &state).ok().unwrap() {
        DbOp::FindOneAndUpdate { filter, update: TaskUpdate::SetField { field, value }, return_updated } => {
            assert_eq!(filter.user_id, "u");
            assert_eq!(filter.id.as_deref(), Some("t"));
            assert_eq!(field, "name");
            assert_eq!(value, "new");
            assert!(return_updated);
        }
        _ => panic!("not a set"),
    }
    match public::modify_task("t", Some("u"), "section", &state).ok().unwrap() {
        DbOp::FindOneAndUpdate { update: TaskUpdate::SetField { field, value }, .. } => {
            assert_eq!(field, "section");
            assert_eq!(value, "");
        }
        _ => panic!("not a set"),
    }
}

#[test]
fn list_by_completion() {
    assert!(matches!(public::fetch_tasks_complete_filtering(None, None), Err(Status::Unauthorized)));
    let done = find_filter(public::fetch_tasks_complete_filtering(Some("completed"), Some("u")).ok().unwrap());
    assert_eq!(done.completed, Some(true));
    assert_eq!(done.user_id, "u");
    for s in [None, Some("open"), Some("Completed"), Some("")] {
        let f = find_filter(public::fetch_tasks_complete_filtering(s, Some("u")).ok().unwrap());
        assert_eq!(f.completed, Some(false));
    }
}

#[test]
fn main_page_keeps_or_makes_the_user() {
    let p = main_page(Some("u9"));
    assert_eq!(p.user_id, "u9");
    assert!(!p.new_cookie);
    let f = find_filter(p.tasks);
    assert_eq!(f.user_id, "u9");
    assert_eq!(f.completed, Some(false));
    match p.projects {
        DbOp::Distinct { field, filter } => {
            assert_eq!(field, "project");
            assert_eq!(filter.user_id, "u9");
        }
        _ => panic!("not distinct"),
    }
    let q = main_page(None);
    assert!(q.new_cookie);
    let id: Vec<char> = q.user_id.chars().collect();
    assert_eq!(id.len(), 36);
    assert_eq!(id[8], '-');
    assert_eq!(id[14], '4');
    assert!(['8', '9', 'a', 'b'].contains(&id[19]));
    assert_ne!(main_page(None).user_id, q.user_id);
}

#[test]
fn css_hash_is_seahash() {
    assert_eq!(css_hash(""), seahash::hash(b""));
    assert_eq!(css_hash("body { color: red; }"), seahash::hash("body { color: red; }".as_bytes()));
    assert_ne!(css_hash("a"), css_hash("b"));
}

#[test]
fn db_operations() {
    match db::fetch_task(db::filter_of_owner("u")) {
        DbOp::FindOne { filter } => assert_eq!(filter.user_id, "u"),
        _ => panic!(),
    }
    match db::insert_task(sample_task("u", "t", false)) {
        DbOp::InsertOne { task } => assert_eq!(task.id, "t"),
        _ => panic!(),
    }
    match db::get_unique_projects("u") {
        DbOp::Distinct { field, filter } => {
            assert_eq!(field, "project");
            assert_eq!(filter.user_id, "u");
            assert!(filter.id.is_none());
        }
        _ => panic!(),
    }
}

#[test]
fn replies_after_the_database() {
    assert_eq!(db_reply::<u32>(Ok(3)).ok(), Some(3));
    assert!(matches!(db_reply::<u32>(Err(DbError { message: "x".to_string() })), Err(Status::InternalServerError)));
    assert_eq!(empty_reply::<()>(Ok(())).ok(), Some(""));
    assert!(matches!(empty_reply::<()>(Err(DbError { message: "x".to_string() })), Err(Status::InternalServerError)));
}

#[test]
fn filters_only_reach_the_callers_tasks() {
    let mine = sample_task("u", "t", false);
    let theirs = sample_task("v", "t", false);
    let filters = vec![
        find_filter(public::get_tasks(Some("u")).ok().unwrap()),
        find_filter(public::fetch_tasks_complete_filtering(None, Some("u")).ok().unwrap()),
        find_filter(public::search_tasks(Some("u"), "work", &TaskSearchOptions { due: "".to_string(), priority: None }).ok().unwrap()),
        find_filter(main_page(Some("u")).tasks),
        db::filter_of_task("u", "t"),
    ];
    for f in &filters {
        assert!(f.matches(&mine));
        assert!(!f.matches(&theirs));
    }
}

#[test]
fn added_task_is_listed() {
    let t = public::add_task(Some("u"), &options()).ok().unwrap();
    assert!(find_filter(public::get_tasks(Some("u")).ok().unwrap()).matches(&t));
    assert!(find_filter(public::fetch_tasks_complete_filtering(None, Some("u")).ok().unwrap()).matches(&t));
    assert!(!find_filter(public::fetch_tasks_complete_filtering(Some("completed"), Some("u")).ok().unwrap()).matches(&t));
    assert!(find_filter(main_page(Some("u")).tasks).matches(&t));
    let s = TaskSearchOptions { due: "".to_string(), priority: Some(TaskPriority::High) };
    assert!(find_filter(public::search_tasks(Some("u"), "work", &s).ok().unwrap()).matches(&t));
    let s2 = TaskSearchOptions { due: "2024-03-05".to_string(), priority: None };
    assert!(find_filter(public::search_tasks(Some("u"), "", &s2).ok().unwrap()).matches(&t));
    assert!(db::filter_of_task("u", &t.id).matches(&t));
    assert!(!db::filter_of_task("u", "other").matches(&t));
}

#[test]
fn toggling_twice_restores_the_task() {
    let mut t = sample_task("u", "t", false);
    toggle_completed(&mut t);
    assert!(t.completed);
    assert_eq!(t.name, "n");
    toggle_completed(&mut t);
    assert!(!t.completed);
}
