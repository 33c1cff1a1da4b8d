//! The site's own pages and start-up settings: the greeting endpoints, the
//! main tracker page, and how the database is located.
use vstd::prelude::*;
use vstd::string::{StringExecFns, StringSliceAdditionalSpecFns};

use crate::db::{DbOp, OpModel, FilterModel, owner_filter, project_field, filter_of_owner};
use crate::ids::{is_uuid_v4_text, new_user_id, seahash_bytes, seahash_digest};
use crate::models::TaskPriority;
use crate::text::{copy_str, decimal, eq_ignore_ascii_case, push_decimal_u8, spec_eq_ignore_ascii_case};

verus! {

broadcast use vstd::string::group_string_axioms;

/// The language of a greeting.
#[derive(Clone, Copy, Debug, PartialEq, Eq, Structural)]
pub enum Lang {
    English,
    Russian,
}

impl Lang {
    /// The language that a form value names (`en`; `ru` or `ру`), its ASCII
    /// letters compared without regard to case; `None` for any other value.
    pub open spec fn from_form(v: Seq<char>) -> Option<Lang> {
        if spec_eq_ignore_ascii_case(v, seq!['e', 'n']) {
            Some(Lang::English)
        } else if spec_eq_ignore_ascii_case(v, seq!['r', 'u']) || spec_eq_ignore_ascii_case(
            v,
            seq!['р', 'у'],
        ) {
            Some(Lang::Russian)
        } else {
            None
        }
    }

    /// Reads a language from a form value.
    pub fn from_form_value(v: &str) -> (l: Option<Lang>)
        ensures
            l == Lang::from_form(v@),
    {
        proof {
            reveal_strlit("en");
            reveal_strlit("ru");
            reveal_strlit("ру");
        }
        assert("en"@ == seq!['e', 'n']);
        assert("ru"@ == seq!['r', 'u']);
        assert("ру"@ == seq!['р', 'у']);
        if eq_ignore_ascii_case(v, "en") {
            Some(Lang::English)
        } else if eq_ignore_ascii_case(v, "ru") || eq_ignore_ascii_case(v, "ру") {
            Some(Lang::Russian)
        } else {
            None
        }
    }
}

/// The query options of the greeting.
pub struct Options {
    pub emoji: bool,
    pub name: Option<String>,
}

/// The fields of the form that adds a task.
pub struct TaskOptions {
    pub name: String,
    pub description: Option<String>,
    /// The due date as typed, `YYYY-MM-DD`; empty means none.
    pub due: Option<String>,
    pub project: String,
    pub section: Option<String>,
    /// Comma-separated tags.
    pub tags: Option<String>,
    pub completed: Option<bool>,
    pub priority: Option<TaskPriority>,
}

/// The answer of the JSON endpoint that adds a task.
pub struct AddTaskResponse {
    pub success: bool,
    pub message: String,
    pub task_id: String,
}

/// The text of the waving greeting.
pub open spec fn wave_text(name: Seq<char>, age: nat) -> Seq<char> {
    "👋 Hello, "@ + decimal(age) + " year old named "@ + name + "!"@
}

/// Greets `name`, who is `age` years old.
pub fn wave(name: &str, age: u8) -> (s: String)
    ensures
        s@ == wave_text(name@, age as nat),
{
    let mut s = String::new();
    s.append("👋 Hello, ");
    push_decimal_u8(&mut s, age);
    s.append(" year old named ");
    s.append(name);
    s.append("!");
    s
}

/// The word of greeting in the chosen language, `Hi` where none is chosen.
pub open spec fn greeting_word(lang: Option<Lang>) -> Seq<char> {
    match lang {
        Some(Lang::Russian) => "Привет"@,
        Some(Lang::English) => "Hello"@,
        None => "Hi"@,
    }
}

/// The greeting: a waving hand where asked, the word of greeting, the name
/// where one is given, and `!`.
pub open spec fn greeting(lang: Option<Lang>, emoji: bool, name: Option<Seq<char>>) -> Seq<char> {
    (if emoji {
        "👋 "@
    } else {
        Seq::<char>::empty()
    }) + greeting_word(lang) + (match name {
        Some(n) => ", "@ + n,
        None => Seq::<char>::empty(),
    }) + "!"@
}

/// Greets in the chosen language.
pub fn hello(lang: Option<Lang>, opt: &Options) -> (s: String)
    ensures
        s@ == greeting(
            lang,
            opt.emoji,
            match opt.name {
                Some(n) => Some(n@),
                None => None,
            },
        ),
{
    let mut greeting = String::new();
    if opt.emoji {
        greeting.append("👋 ");
    }
    match lang {
        Some(Lang::Russian) => greeting.append("Привет"),
        Some(Lang::English) => greeting.append("Hello"),
        None => greeting.append("Hi"),
    }
    match &opt.name {
        Some(name) => {
            greeting.append(", ");
            greeting.append(name.as_str());
        },
        None => {},
    }
    greeting.append("!");
    greeting
}

/// The filter of the main page: the open tasks of `user`.
pub open spec fn open_tasks_filter(user: Seq<char>) -> FilterModel {
    FilterModel { completed: Some(false), ..owner_filter(user) }
}

/// What the main tracker page needs: whose page it is, whether that user
/// id is new and must be set as the `uuid` cookie, and the two queries.
pub struct MainPage {
    pub user_id: String,
    pub new_cookie: bool,
    pub tasks: DbOp,
    pub projects: DbOp,
}

/// Plans the main tracker page: the user of the `uuid` cookie, or a fresh
/// user id where there is none; that user's open tasks and projects.
pub fn main_page(uuid_cookie: Option<&str>) -> (p: MainPage)
    ensures
        match uuid_cookie {
            Some(c) => p.user_id@ == c@ && !p.new_cookie,
            None => is_uuid_v4_text(p.user_id@) && p.new_cookie,
        },
        p.tasks@ == (OpModel::Find { filter: open_tasks_filter(p.user_id@) }),
        p.projects@ == (OpModel::Distinct {
            field: project_field(),
            filter: owner_filter(p.user_id@),
        }),
{
    let (user_id, new_cookie) = match uuid_cookie {
        Some(c) => (copy_str(c), false),
        None => (new_user_id(), true),
    };
    let mut filter = filter_of_owner(user_id.as_str());
    filter.completed = Some(false);
    let tasks = crate::db::fetch_tasks(filter);
    let projects = crate::db::get_unique_projects(user_id.as_str());
    MainPage { user_id, new_cookie, tasks, projects }
}

/// The cache-busting hash of the stylesheet: the SeaHash of its bytes.
pub fn css_hash(css: &str) -> (h: u64)
    ensures
        h == seahash_digest(css.spec_bytes()),
{
    seahash_bytes(css.as_bytes())
}

/// The address of the local database server for the given credentials.
pub open spec fn local_url(user: Seq<char>, password: Seq<char>) -> Seq<char> {
    "mongodb://"@ + user + ":"@ + password + "@127.0.0.1:27017"@
}

/// The database server's address: the one configured, or else the local
/// server on the default port with the given credentials.
pub fn mongo_url(configured: Option<String>, user: &str, password: &str) -> (url: String)
    ensures
        url@ == match configured {
            Some(u) => u@,
            None => local_url(user@, password@),
        },
{
    match configured {
        Some(u) => u,
        None => {
            let mut url = String::new();
            url.append("mongodb://");
            url.append(user);
            url.append(":");
            url.append(password);
            url.append("@127.0.0.1:27017");
            url
        },
    }
}

/// The name of the application.
pub fn app_name() -> (s: &'static str)
    ensures
        s@ == "focus_passion"@,
{
    "focus_passion"
}

/// The database to use: the application's name in development, with
/// `_prod` appended otherwise.
pub fn db_name(dev: bool) -> (s: String)
    ensures
        s@ == if dev {
            "focus_passion"@
        } else {
            "focus_passion"@ + "_prod"@
        },
{
    let mut s = String::new();
    s.append(app_name());
    if !dev {
        s.append("_prod");
    }
    s
}

} // verus!
