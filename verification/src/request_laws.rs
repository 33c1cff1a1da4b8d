//! What each request is for, stated over all inputs: which tasks a query
//! selects, what a task built from a form holds, how form values are read,
//! and how a greeting is put together.
use vstd::prelude::*;

use crate::api::public::{completed_text, search_filter, status_filter};
use crate::api::{due_of, task_from_form};
use crate::db::owner_filter;
use crate::ids::ymd_date;
use crate::models::{TaskModel, TaskPriority, opt_view};
use crate::server::{Lang, TaskOptions, greeting, greeting_word, local_url, open_tasks_filter, wave_text};
use crate::models::entries_map;
use crate::text::{
    ascii_lower,
    decimal,
    digit_char,
    spec_eq_ignore_ascii_case,
    spec_is_whitespace,
    split_on,
    tags_of,
    trim,
    trim_end,
    trim_start,
    trimmed_nonempty,
};

verus! {

/// A search selects exactly the caller's tasks that meet every criterion
/// given: the project where one is named, the due date where one is named,
/// the priority where one is chosen. A named project is always a criterion,
/// whether or not a due date or priority is given, and so is a named due
/// date.
pub proof fn law_search_selects_by_criteria(
    user: Seq<char>,
    project: Seq<char>,
    due: Seq<char>,
    priority: Option<TaskPriority>,
    t: TaskModel,
)
    ensures
        search_filter(user, project, due, priority).matches(t) <==> {
            &&& t.user_id == user
            &&& project.len() > 0 ==> t.project == project
            &&& due.len() > 0 ==> t.due == Some(due)
            &&& priority matches Some(p) ==> t.priority == Some(p)
        },
        project.len() > 0 ==> search_filter(user, project, due, priority).project == Some(project),
        due.len() > 0 ==> search_filter(user, project, due, priority).due == Some(due),
        search_filter(user, project, due, priority).priority == priority,
        search_filter(user, project, due, priority).user_id == user,
{
}

/// The task lists select the caller's tasks by completion alone: the list
/// with status `completed` exactly the completed ones, any other list and
/// the main page exactly the open ones, and the plain task list all of them.
pub proof fn law_lists_select_by_completion(user: Seq<char>, status: Option<Seq<char>>, t: TaskModel)
    ensures
        status_filter(user, status).matches(t) <==> (t.user_id == user && t.completed == (status
            == Some(completed_text()))),
        open_tasks_filter(user).matches(t) <==> (t.user_id == user && !t.completed),
        owner_filter(user).matches(t) <==> t.user_id == user,
{
}

/// A task built from a form keeps what the form says: its owner and id as
/// given, the name, description, project and section as typed, the due
/// date as read, the tags read from the tag list, completion only where the
/// form asks for it, and exactly the form's priority (none where it gives
/// none).
pub proof fn law_task_keeps_the_form(
    user: Seq<char>,
    id: Seq<char>,
    opt: TaskOptions,
    due: Option<Seq<char>>,
)
    ensures
        task_from_form(user, id, opt, due).user_id == user,
        task_from_form(user, id, opt, due).id == id,
        task_from_form(user, id, opt, due).name == opt.name@,
        task_from_form(user, id, opt, due).description == opt_view(opt.description),
        task_from_form(user, id, opt, due).due == due,
        task_from_form(user, id, opt, due).project == opt.project@,
        task_from_form(user, id, opt, due).section == opt_view(opt.section),
        task_from_form(user, id, opt, due).tags == tags_of(
            match opt.tags {
                Some(s) => s@,
                None => Seq::<char>::empty(),
            },
        ),
        task_from_form(user, id, opt, due).completed == (opt.completed == Some(true)),
        task_from_form(user, id, opt, due).priority == opt.priority,
{
}

/// A due date that is absent or empty gives no date; a typed one gives the
/// date it parses to, and makes the request fail where it parses to none.
pub proof fn law_due_date_is_read(d: Seq<char>)
    ensures
        due_of(None) == Some(None::<Seq<char>>),
        due_of(Some(Seq::<char>::empty())) == Some(None::<Seq<char>>),
        d.len() > 0 ==> (due_of(Some(d)) is None <==> ymd_date(d) is None),
        d.len() > 0 && ymd_date(d) is Some ==> due_of(Some(d)) == Some(ymd_date(d)),
{
}

/// The stored name of a priority is lowercase, and reading a form value
/// inverts it: a value equal to a priority's name up to ASCII case reads
/// as that priority, and only such values read as it.
pub proof fn law_priority_form_inverts_name(p: TaskPriority, v: Seq<char>)
    ensures
        forall|i: int| 0 <= i < p.name().len() ==> ascii_lower(#[trigger] p.name()[i]) == p.name()[i],
        spec_eq_ignore_ascii_case(v, p.name()) ==> TaskPriority::from_form(v) == Some(p),
        TaskPriority::from_form(v) == Some(p) ==> spec_eq_ignore_ascii_case(v, p.name()),
        TaskPriority::from_form(p.name()) == Some(p),
        TaskPriority::named(p.name()) == Some(p),
{
    assert(spec_eq_ignore_ascii_case(p.name(), p.name()));
}

/// A language form value reads up to ASCII case: `en` as English, `ru` or
/// `ру` as Russian, anything else as no language.
pub proof fn law_language_form_value(v: Seq<char>)
    ensures
        spec_eq_ignore_ascii_case(v, seq!['e', 'n']) ==> Lang::from_form(v) == Some(Lang::English),
        spec_eq_ignore_ascii_case(v, seq!['r', 'u']) ==> Lang::from_form(v) == Some(Lang::Russian),
        spec_eq_ignore_ascii_case(v, seq!['р', 'у']) ==> Lang::from_form(v) == Some(Lang::Russian),
        Lang::from_form(v) is None <==> !(spec_eq_ignore_ascii_case(v, seq!['e', 'n'])
            || spec_eq_ignore_ascii_case(v, seq!['r', 'u']) || spec_eq_ignore_ascii_case(
            v,
            seq!['р', 'у'],
        )),
{
    if spec_eq_ignore_ascii_case(v, seq!['e', 'n']) {
        assert(ascii_lower(v[0]) == 'e');
    }
}

/// A greeting is put together the same way in every language: the waving
/// hand first exactly when asked for, then the language's word, then the
/// name after a comma where one is given, then `!`. The three words differ.
pub proof fn law_greeting_parts(lang: Option<Lang>, emoji: bool, name: Option<Seq<char>>, n: Seq<char>)
    ensures
        greeting(lang, true, name) == "👋 "@ + greeting(lang, false, name),
        greeting(lang, false, None) == greeting_word(lang) + "!"@,
        greeting(lang, false, Some(n)) == greeting_word(lang) + ", "@ + n + "!"@,
        greeting(lang, emoji, Some(n)) == greeting(lang, emoji, None).subrange(
            0,
            greeting(lang, emoji, None).len() - "!"@.len(),
        ) + ", "@ + n + "!"@,
        greeting_word(Some(Lang::English)) != greeting_word(Some(Lang::Russian)),
        greeting_word(Some(Lang::English)) != greeting_word(None),
        greeting_word(Some(Lang::Russian)) != greeting_word(None),
{
    let w = greeting_word(lang);
    let x = match name {
        Some(m) => ", "@ + m,
        None => Seq::<char>::empty(),
    };
    assert(greeting(lang, true, name) =~= "👋 "@ + greeting(lang, false, name));
    assert(greeting(lang, false, None) =~= w + "!"@);
    assert(greeting(lang, false, Some(n)) =~= w + ", "@ + n + "!"@);
    let h = if emoji {
        "👋 "@
    } else {
        Seq::<char>::empty()
    };
    let g0 = greeting(lang, emoji, None);
    assert(g0 =~= (h + w) + "!"@);
    assert(g0.subrange(0, g0.len() - "!"@.len()) =~= h + w);
    assert(greeting(lang, emoji, Some(n)) =~= (h + w) + ", "@ + n + "!"@);
    assert(greeting_word(Some(Lang::English)) != greeting_word(Some(Lang::Russian))) by {
        reveal_strlit("Hello");
        reveal_strlit("Привет");
        assert(greeting_word(Some(Lang::English)).len() != greeting_word(Some(Lang::Russian)).len());
    }
    assert(greeting_word(Some(Lang::English)) != greeting_word(None)) by {
        reveal_strlit("Hello");
        reveal_strlit("Hi");
        assert(greeting_word(Some(Lang::English)).len() != greeting_word(None).len());
    }
    assert(greeting_word(Some(Lang::Russian)) != greeting_word(None)) by {
        reveal_strlit("Привет");
        reveal_strlit("Hi");
        assert(greeting_word(Some(Lang::Russian)).len() != greeting_word(None).len());
    }
}

/// The number that a string of decimal digits writes.
pub open spec fn decimal_value(s: Seq<char>) -> int
    decreases s.len(),
{
    if s.len() == 0 {
        0
    } else {
        decimal_value(s.drop_last()) * 10 + (s.last() as int - 48)
    }
}

/// Whether `c` is a decimal digit.
pub open spec fn is_digit(c: char) -> bool {
    '0' <= c <= '9'
}

/// The decimal notation of a number is made of digits, has no leading
/// zero (but for zero itself), and writes that number.
pub proof fn law_decimal_writes_the_number(n: nat)
    ensures
        decimal(n).len() > 0,
        forall|i: int| 0 <= i < decimal(n).len() ==> is_digit(#[trigger] decimal(n)[i]),
        decimal(n)[0] == '0' ==> n == 0,
        decimal_value(decimal(n)) == n,
    decreases n,
{
    assert(digit_char(n % 10) as int == 48 + n % 10);
    if n < 10 {
        assert(decimal(n).drop_last() =~= Seq::<char>::empty());
        assert(decimal(n).last() == digit_char(n));
        assert(decimal_value(decimal(n).drop_last()) == 0);
        assert(decimal_value(decimal(n)) == 0 * 10 + (digit_char(n) as int - 48));
    } else {
        law_decimal_writes_the_number(n / 10);
        let d = decimal(n / 10);
        assert(decimal(n) == d.push(digit_char(n % 10)));
        assert(decimal(n).drop_last() == d);
        assert(decimal(n).last() == digit_char(n % 10));
        assert(decimal_value(decimal(n)) == decimal_value(d) * 10 + (digit_char(n % 10) as int
            - 48));
        assert(n == (n / 10) * 10 + n % 10);
        assert forall|i: int| 0 <= i < decimal(n).len() implies is_digit(#[trigger] decimal(n)[i]) by {
            if i < d.len() {
                assert(decimal(n)[i] == d[i]);
            }
        }
    }
}

/// Whether every character of `s` is white space.
pub open spec fn all_whitespace(s: Seq<char>) -> bool {
    forall|k: int| 0 <= k < s.len() ==> spec_is_whitespace(#[trigger] s[k])
}

proof fn lemma_trim_start_split(s: Seq<char>)
    ensures
        all_whitespace(s.take(s.len() - trim_start(s).len())),
        s == s.take(s.len() - trim_start(s).len()) + trim_start(s),
        trim_start(s).len() > 0 ==> !spec_is_whitespace(trim_start(s)[0]),
    decreases s.len(),
{
    if s.len() > 0 && spec_is_whitespace(s[0]) {
        let r = s.drop_first();
        lemma_trim_start_split(r);
        let k = r.len() - trim_start(r).len();
        assert(trim_start(s) == trim_start(r));
        assert(s =~= seq![s[0]] + r);
        assert(s.take(k + 1) == seq![s[0]] + r.take(k));
        assert forall|j: int| 0 <= j < k + 1 implies spec_is_whitespace(#[trigger] s.take(k + 1)[j]) by {
            if j > 0 {
                assert(s.take(k + 1)[j] == r.take(k)[j - 1]);
            }
        }
        assert(s =~= s.take(k + 1) + trim_start(s));
    } else {
        assert(s.take(0) =~= Seq::<char>::empty());
        assert(s =~= s.take(0) + s);
    }
}

proof fn lemma_trim_end_split(s: Seq<char>)
    ensures
        trim_end(s).len() <= s.len(),
        all_whitespace(s.skip(trim_end(s).len() as int)),
        s == trim_end(s) + s.skip(trim_end(s).len() as int),
        trim_end(s).len() > 0 ==> !spec_is_whitespace(trim_end(s).last()),
    decreases s.len(),
{
    if s.len() > 0 && spec_is_whitespace(s.last()) {
        let r = s.drop_last();
        lemma_trim_end_split(r);
        let k = trim_end(r).len() as int;
        assert(trim_end(s) == trim_end(r));
        assert(s =~= r.push(s.last()));
        assert(s.skip(k) =~= r.skip(k).push(s.last()));
        assert forall|j: int| 0 <= j < s.skip(k).len() implies spec_is_whitespace(#[trigger] s.skip(k)[j]) by {
            if j < r.skip(k).len() {
                assert(s.skip(k)[j] == r.skip(k)[j]);
            }
        }
        assert(s =~= trim_end(s) + s.skip(k));
    } else {
        assert(s.skip(s.len() as int) =~= Seq::<char>::empty());
        assert(s =~= s + s.skip(s.len() as int));
    }
}

/// Trimming removes white space at both ends and nothing else: the text is
/// the trimmed text with white space before and after it, and the trimmed
/// text neither starts nor ends with white space.
pub proof fn law_trim_removes_outer_space(s: Seq<char>)
    ensures
        exists|a: Seq<char>, b: Seq<char>|
            all_whitespace(a) && all_whitespace(b) && s == a + trim(s) + b,
        trim(s).len() > 0 ==> !spec_is_whitespace(trim(s)[0]) && !spec_is_whitespace(
            trim(s).last(),
        ),
{
    lemma_trim_start_split(s);
    let m = trim_start(s);
    lemma_trim_end_split(m);
    let a = s.take(s.len() - m.len());
    let b = m.skip(trim_end(m).len() as int);
    assert(s =~= a + trim(s) + b);
    if trim(s).len() > 0 {
        assert(trim(s)[0] == m[0]);
    }
}

proof fn lemma_split_free(s: Seq<char>, sep: char)
    requires
        !s.contains(sep),
    ensures
        split_on(s, sep) == seq![s],
    decreases s.len(),
{
    if s.len() > 0 {
        assert(!s.drop_last().contains(sep)) by {
            if s.drop_last().contains(sep) {
                let k = choose|k: int| 0 <= k < s.drop_last().len() && s.drop_last()[k] == sep;
                assert(s[k] == sep);
            }
        }
        lemma_split_free(s.drop_last(), sep);
        assert(s.last() != sep) by {
            assert(s[s.len() - 1] == s.last());
        }
        let pieces = split_on(s.drop_last(), sep);
        assert(pieces == seq![s.drop_last()]);
        assert(split_on(s, sep) == pieces.update(pieces.len() - 1, pieces.last().push(s.last())));
        assert(s.drop_last().push(s.last()) =~= s);
        assert(pieces.update(pieces.len() - 1, pieces.last().push(s.last())) =~= seq![s]);
    } else {
        assert(s =~= Seq::<char>::empty());
    }
}

proof fn lemma_split_len(s: Seq<char>, sep: char)
    ensures
        split_on(s, sep).len() >= 1,
    decreases s.len(),
{
    if s.len() > 0 {
        lemma_split_len(s.drop_last(), sep);
    }
}

proof fn lemma_split_concat(a: Seq<char>, b: Seq<char>, sep: char)
    ensures
        split_on(a.push(sep) + b, sep) == split_on(a, sep) + split_on(b, sep),
    decreases b.len(),
{
    let s = a.push(sep) + b;
    if b.len() == 0 {
        assert(s =~= a.push(sep));
        assert(s.drop_last() =~= a);
        assert(split_on(s, sep) =~= split_on(a, sep) + split_on(b, sep));
    } else {
        lemma_split_concat(a, b.drop_last(), sep);
        lemma_split_len(b.drop_last(), sep);
        lemma_split_len(a, sep);
        assert(s.drop_last() =~= a.push(sep) + b.drop_last());
        assert(s.last() == b.last());
        let p = split_on(a, sep);
        let q = split_on(b.drop_last(), sep);
        if b.last() == sep {
            assert(split_on(s, sep) =~= p + q.push(Seq::<char>::empty()));
        } else {
            assert((p + q).last() == q.last());
            assert(split_on(s, sep) =~= p + q.update(q.len() - 1, q.last().push(b.last())));
        }
    }
}

proof fn lemma_trimmed_nonempty_concat(p: Seq<Seq<char>>, q: Seq<Seq<char>>)
    ensures
        trimmed_nonempty(p + q) == trimmed_nonempty(p) + trimmed_nonempty(q),
    decreases q.len(),
{
    if q.len() == 0 {
        assert(p + q =~= p);
        assert(trimmed_nonempty(p) + trimmed_nonempty(q) =~= trimmed_nonempty(p));
    } else {
        lemma_trimmed_nonempty_concat(p, q.drop_last());
        assert((p + q).drop_last() =~= p + q.drop_last());
        assert((p + q).last() == q.last());
        if trim(q.last()).len() > 0 {
            assert(trimmed_nonempty(p + q) =~= trimmed_nonempty(p) + trimmed_nonempty(q));
        } else {
            assert(trimmed_nonempty(p + q) =~= trimmed_nonempty(p) + trimmed_nonempty(q));
        }
    }
}

/// The tags of a list are read piece by piece: the tags of two lists
/// joined by a comma are the tags of the first followed by those of the
/// second, and a list without a comma gives its trimmed text as its one
/// tag, or no tag where that is empty.
pub proof fn law_tags_piece_by_piece(a: Seq<char>, b: Seq<char>, s: Seq<char>)
    ensures
        tags_of(a.push(',') + b) == tags_of(a) + tags_of(b),
        !s.contains(',') ==> tags_of(s) == if trim(s).len() > 0 {
            seq![trim(s)]
        } else {
            Seq::<Seq<char>>::empty()
        },
{
    lemma_split_concat(a, b, ',');
    lemma_trimmed_nonempty_concat(split_on(a, ','), split_on(b, ','));
    if !s.contains(',') {
        lemma_split_free(s, ',');
        let one = seq![s];
        assert(one.drop_last() =~= Seq::<Seq<char>>::empty());
        assert(one.last() == s);
        assert(trimmed_nonempty(one.drop_last()) == Seq::<Seq<char>>::empty());
        assert(tags_of(s) == trimmed_nonempty(one));
        if trim(s).len() > 0 {
            assert(trimmed_nonempty(one) == Seq::<Seq<char>>::empty().push(trim(s)));
            assert(Seq::<Seq<char>>::empty().push(trim(s)) =~= seq![trim(s)]);
        }
    }
}

/// In a submitted form the later entry of a field counts: adding an entry
/// sets its field to its value and leaves every other field as it was; a
/// field that no entry names has no value.
pub proof fn law_later_form_entry_counts(
    entries: Seq<(String, String)>,
    key: String,
    value: String,
    other: Seq<char>,
)
    ensures
        entries_map(entries.push((key, value)))[key@] == value@,
        other != key@ ==> entries_map(entries.push((key, value))).contains_key(other)
            == entries_map(entries).contains_key(other),
        other != key@ && entries_map(entries).contains_key(other) ==> entries_map(
            entries.push((key, value)),
        )[other] == entries_map(entries)[other],
        (forall|i: int| 0 <= i < entries.len() ==> (#[trigger] entries[i]).0@ != other)
            ==> !entries_map(entries).contains_key(other),
    decreases entries.len(),
{
    assert(entries.push((key, value)).drop_last() =~= entries);
    if entries.len() > 0 {
        law_later_form_entry_counts(entries.drop_last(), key, value, other);
        if forall|i: int| 0 <= i < entries.len() ==> (#[trigger] entries[i]).0@ != other {
            assert(entries.last().0@ != other);
            assert forall|i: int| 0 <= i < entries.drop_last().len() implies (
            #[trigger] entries.drop_last()[i]).0@ != other by {
                assert(entries.drop_last()[i] == entries[i]);
            }
        }
    }
}

/// The waving greeting opens with the wave and `Hello, `, then writes the
/// age in decimal, and closes with the name and `!`.
pub proof fn law_wave_parts(name: Seq<char>, age: nat)
    ensures
        wave_text(name, age).take("👋 Hello, "@.len() as int) == "👋 Hello, "@,
        wave_text(name, age).subrange(
            "👋 Hello, "@.len() as int,
            ("👋 Hello, "@.len() + decimal(age).len()) as int,
        ) == decimal(age),
        decimal_value(decimal(age)) == age,
        wave_text(name, age).skip(wave_text(name, age).len() - (name + "!"@).len()) == name
            + "!"@,
{
    law_decimal_writes_the_number(age);
    let w = wave_text(name, age);
    let pre = "👋 Hello, "@;
    let d = decimal(age);
    let mid = " year old named "@;
    assert(w =~= pre + (d + (mid + (name + "!"@))));
    assert(w.take(pre.len() as int) =~= pre);
    assert(w.subrange(pre.len() as int, (pre.len() + d.len()) as int) =~= d);
    assert(w.skip(w.len() - (name + "!"@).len()) =~= name + "!"@);
}

/// The local server's address names the user and then the password, each
/// in its own place after `mongodb://`, and the local host and port last.
pub proof fn law_local_url_parts(user: Seq<char>, password: Seq<char>)
    ensures
        local_url(user, password).take("mongodb://"@.len() as int) == "mongodb://"@,
        local_url(user, password).subrange(
            "mongodb://"@.len() as int,
            ("mongodb://"@.len() + user.len()) as int,
        ) == user,
        local_url(user, password).subrange(
            ("mongodb://"@.len() + user.len() + ":"@.len()) as int,
            ("mongodb://"@.len() + user.len() + ":"@.len() + password.len()) as int,
        ) == password,
        local_url(user, password).skip(
            local_url(user, password).len() - "@127.0.0.1:27017"@.len(),
        ) == "@127.0.0.1:27017"@,
{
    let u = local_url(user, password);
    let a = "mongodb://"@;
    let c = ":"@;
    let h = "@127.0.0.1:27017"@;
    assert(u =~= a + (user + (c + (password + h))));
    assert(u.take(a.len() as int) =~= a);
    assert(u.subrange(a.len() as int, (a.len() + user.len()) as int) =~= user);
    assert(u.subrange(
        (a.len() + user.len() + c.len()) as int,
        (a.len() + user.len() + c.len() + password.len()) as int,
    ) =~= password);
    assert(u.skip(u.len() - h.len()) =~= h);
}

} // verus!
