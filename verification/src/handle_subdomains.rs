//! The subdomains of a target and the menu of a subdomain: moving the
//! cursor, filtering by status, cycling a status, writing notes, creating,
//! editing and deleting subdomains.

use vstd::prelude::*;
use crate::app::{App, FormField, Screen, next_index, previous_index, step_next, step_previous};
use crate::export::{decimal, push_decimal};
use crate::handle_items::{
    ScreenshotAction, deletion_dropped, form_cleared, form_refused, name_typed, screenshots_shown,
    technologies_shown, text_is, text_starts, urls_shown,
};
use crate::handle_targets::subdomains_shown;
use crate::keys::{keeps_session, store_ready, 
    Key, app_tables, clamp, clamped, failure_text, is_down, is_up, optional_text, screenshots_or_empty,
    session_open, subdomains_or_empty, technologies_or_empty, trimmed_or_none, type_key, typed,
    urls_or_empty,
};
use crate::models::{
    NewSubdomain, Subdomain, SubdomainStatus, UpdateSubdomain, filter_after, next_status_filter,
    status_after, status_text,
};
use crate::numbers::{i32_text, parse_i32};
use crate::queries::{create_subdomain, delete_subdomain, update_subdomain, updated_sub_row};
use crate::sql::with_subdomain;
use crate::store::{Store, opt_view, subdomain_name_taken};
use crate::text::{is_blank, trim_spec, trim_text};

verus! {

/// The subdomain under the cursor, if the cursor is on one.
pub open spec fn subdomain_under_cursor(a: App) -> Option<Subdomain> {
    if a.subdomain_selected < a.subdomains@.len() {
        Some(a.subdomains@[a.subdomain_selected as int])
    } else {
        None
    }
}

/// Whether store `s1` is store `s0` with subdomain `id` updated by an
/// update that carries only what `keep` says of it.
pub open spec fn subdomain_updated(
    s0: Store,
    s1: Store,
    id: Seq<char>,
    keep: spec_fn(UpdateSubdomain) -> bool,
) -> bool {
    s0.subdomains.contains_key(id) && exists|u: UpdateSubdomain, now: Seq<char>|
        keep(u) && s1 == #[trigger] with_subdomain(s0, id, updated_sub_row(s0.subdomains[id], u, now))
}

/// Whether an update changes the notes of a subdomain to `notes` and
/// nothing else.
pub open spec fn notes_update(u: UpdateSubdomain, notes: Seq<char>) -> bool {
    u.status is None && opt_view(u.notes) == Some(notes) && u.status_code is None && u.title is None
}

/// Whether an update changes the status of a subdomain to `st` and nothing
/// else.
pub open spec fn status_update(u: UpdateSubdomain, st: SubdomainStatus) -> bool {
    u.status == Some(st) && u.notes is None && u.status_code is None && u.title is None
}

/// Whether an update sets status code `code` and title `title` (each kept
/// when absent) and leaves status and notes.
pub open spec fn form_update(u: UpdateSubdomain, code: Option<i32>, title: Option<Seq<char>>) -> bool {
    u.status is None && u.notes is None && u.status_code == code && opt_view(u.title) == title
}

/// Whether the subdomains of `f` are those of the target in view of `o`,
/// reloaded from the store of `f`; unchanged when no target is in view.
pub open spec fn subdomains_reloaded(o: App, f: App) -> bool {
    match o.current_target {
        Some(t) => subdomains_shown(app_tables(f), t.id@, f.subdomains@),
        None => f.subdomains == o.subdomains,
    }
}

/// The status code that the edit form holds: none when blank, else the
/// number it writes (`None` inside when it writes none).
pub open spec fn form_status_code(a: App) -> Option<Option<i32>> {
    if trim_spec(a.form_status_code@).len() == 0 {
        Some(None)
    } else {
        match i32_text(trim_spec(a.form_status_code@)) {
            Some(c) => Some(Some(c)),
            None => None,
        }
    }
}

/// What a key does on the subdomain screen while a deletion waits for
/// confirmation: Enter deletes the subdomain under the cursor (and all it
/// holds) and reloads the list, Esc drops the deletion.
pub open spec fn subdomains_confirm_step(o: App, f: App, k: Key) -> bool {
    match k {
        Key::Enter => if o.db is None {
            deletion_dropped(o, f)
        } else {
            match subdomain_under_cursor(o) {
                Some(sub) => {
                    &&& (app_tables(f) == app_tables(o) || (app_tables(o).subdomains.contains_key(
                        sub.id@,
                    ) && app_tables(f) == app_tables(o).delete_subdomain(sub.id@)))
                    &&& subdomains_shown(app_tables(f), sub.target_id@, f.subdomains@)
                    &&& f == (App {
                        db: f.db,
                        subdomains: f.subdomains,
                        subdomain_selected: clamped(
                            o.subdomain_selected as int,
                            f.subdomains@.len() as int,
                        ) as usize,
                        confirm_delete: false,
                        confirm_delete_label: f.confirm_delete_label,
                        ..o
                    })
                    &&& f.confirm_delete_label@.len() == 0
                },
                None => deletion_dropped(o, f),
            }
        },
        Key::Esc => deletion_dropped(o, f),
        _ => f == o,
    }
}

/// Whether `f` is `o` with key `k` typed into the active field of the
/// subdomain form (name, status code or title), clearing its error.
pub open spec fn subdomain_form_typed(o: App, f: App, k: Key) -> bool {
    match o.form_field {
        FormField::Name => name_typed(o, f, k),
        FormField::StatusCode => f == (App {
            form_status_code: f.form_status_code,
            form_error: None,
            ..o
        }) && f.form_status_code@ == typed(o.form_status_code@, k),
        FormField::Title => f == (App { form_title: f.form_title, form_error: None, ..o })
            && f.form_title@ == typed(o.form_title@, k),
        _ => f == (App { form_error: None, ..o }),
    }
}

/// The field of the subdomain form after Tab: name, status code, title, and
/// back to the name.
pub open spec fn subdomain_field_after(f: FormField) -> FormField {
    match f {
        FormField::Name => FormField::StatusCode,
        FormField::StatusCode => FormField::Title,
        _ => FormField::Name,
    }
}

/// What a key does while subdomain `o.editing_item_id` is edited: Esc
/// leaves the form, Tab moves to the next field, Enter saves the status code
/// and title (a status code that is not a number is refused) and reloads
/// the list of the current target, other keys edit the active field.
pub open spec fn subdomains_edit_step(o: App, f: App, k: Key) -> bool {
    match k {
        Key::Esc => f == (App {
            editing_subdomain: false,
            form_name: f.form_name,
            form_description: f.form_description,
            form_field: FormField::Name,
            form_error: None,
            ..o
        }) && form_cleared(f),
        Key::Tab => f == (App { form_field: subdomain_field_after(o.form_field), ..o }),
        Key::Enter => match o.editing_item_id {
            None => f == o,
            Some(id) => match form_status_code(o) {
                None => form_refused(o, f, "Status code deve ser um número"@),
                Some(code) => {
                    let s0 = app_tables(o);
                    let title = trimmed_or_none(o.form_title@);
                    &&& (app_tables(f) == s0 || subdomain_updated(
                        s0,
                        app_tables(f),
                        id@,
                        |u: UpdateSubdomain| form_update(u, code, title),
                    ))
                    &&& ({
                        &&& subdomains_reloaded(o, f)
                        &&& f == (App {
                            db: f.db,
                            subdomains: f.subdomains,
                            editing_subdomain: false,
                            form_name: f.form_name,
                            form_description: f.form_description,
                            form_field: FormField::Name,
                            form_error: None,
                            ..o
                        })
                        &&& form_cleared(f)
                    } || (f == (App { db: f.db, form_error: f.form_error, ..o }) && text_starts(
                        f.form_error,
                        "✗ "@,
                    )))
                    &&& !s0.subdomains.contains_key(id@) ==> app_tables(f) == s0 && text_starts(
                        f.form_error,
                        "✗ "@,
                    )
                },
            },
        },
        Key::Backspace | Key::Char(_) => subdomain_form_typed(o, f, k),
        _ => f == o,
    }
}

/// What a key does while a new subdomain is typed: Esc leaves the form,
/// Enter records it (not visited, without HTTP answer) under the current
/// target and reloads the list, other keys edit the name.
pub open spec fn subdomains_create_step(o: App, f: App, k: Key) -> bool {
    match k {
        Key::Esc => f == (App {
            creating_subdomain: false,
            form_name: f.form_name,
            form_description: f.form_description,
            form_field: FormField::Name,
            form_error: None,
            ..o
        }) && form_cleared(f),
        Key::Enter => if trim_spec(o.form_name@).len() == 0 {
            form_refused(o, f, "Subdomain é obrigatório"@)
        } else {
            match o.current_target {
                None => f == o,
                Some(t) => {
                    let s0 = app_tables(o);
                    let name = trim_spec(o.form_name@);
                    &&& ({
                        &&& exists|id: Seq<char>, now: Seq<char>|
                            !s0.subdomains.contains_key(id) && app_tables(f)
                                == #[trigger] with_subdomain(
                                s0,
                                id,
                                (
                                    t.id@,
                                    name,
                                    status_text(SubdomainStatus::NotVisited),
                                    None,
                                    None,
                                    None,
                                    now,
                                    now,
                                ),
                            )
                        &&& subdomains_shown(app_tables(f), t.id@, f.subdomains@)
                        &&& f == (App {
                            db: f.db,
                            subdomains: f.subdomains,
                            creating_subdomain: false,
                            form_name: f.form_name,
                            form_description: f.form_description,
                            form_field: FormField::Name,
                            form_error: None,
                            ..o
                        })
                        &&& form_cleared(f)
                    } || (app_tables(f) == app_tables(o) && form_refused(
                        App { db: f.db, ..o },
                        f,
                        "Subdomain já existe neste target"@,
                    )))
                    &&& subdomain_name_taken(s0, t.id@, name) || !s0.targets.contains_key(t.id@)
                        ==> (app_tables(f) == app_tables(o) && text_is(
                        f.form_error,
                        "Subdomain já existe neste target"@,
                    ))
                },
            }
        },
        Key::Backspace | Key::Char(_) => name_typed(o, f, k),
        _ => f == o,
    }
}

/// What a key does while the notes of the subdomain under the cursor are
/// written: Esc drops them, Enter saves them and reloads the list, other
/// keys edit them.
pub open spec fn subdomains_notes_step(o: App, f: App, k: Key) -> bool {
    match k {
        Key::Esc => f == (App { editing_notes: false, form_notes: f.form_notes, ..o })
            && f.form_notes@.len() == 0,
        Key::Enter => match subdomain_under_cursor(o) {
            Some(sub) => if o.db is None {
                f == (App { editing_notes: false, form_notes: f.form_notes, ..o })
                    && f.form_notes@.len() == 0
            } else {
                &&& (app_tables(f) == app_tables(o) || subdomain_updated(
                    app_tables(o),
                    app_tables(f),
                    sub.id@,
                    |u: UpdateSubdomain| notes_update(u, o.form_notes@),
                ))
                &&& subdomains_shown(app_tables(f), sub.target_id@, f.subdomains@)
                &&& f == (App {
                    db: f.db,
                    subdomains: f.subdomains,
                    editing_notes: false,
                    form_notes: f.form_notes,
                    ..o
                })
                &&& f.form_notes@.len() == 0
            },
            None => f == (App { editing_notes: false, form_notes: f.form_notes, ..o })
                && f.form_notes@.len() == 0,
        },
        Key::Backspace | Key::Char(_) => f == (App { form_notes: f.form_notes, ..o })
            && f.form_notes@ == typed(o.form_notes@, k),
        _ => f == o,
    }
}

/// Whether `f` is `o` with subdomain `sub` opened: its URLs, technologies
/// and screenshots loaded, its menu shown.
pub open spec fn opened_subdomain(o: App, f: App, sub: Subdomain) -> bool {
    let s = app_tables(f);
    &&& s == app_tables(o)
    &&& o.db is Some ==> urls_shown(s, sub.id@, f.urls@) && technologies_shown(
        s,
        sub.id@,
        f.technologies@,
    ) && screenshots_shown(s, sub.id@, f.screenshots@)
    &&& o.db is None ==> f.urls == o.urls && f.technologies == o.technologies && f.screenshots
        == o.screenshots
    &&& f == (App {
        db: f.db,
        urls: f.urls,
        technologies: f.technologies,
        screenshots: f.screenshots,
        current_subdomain: Some(sub),
        subdomain_menu_selected: 0,
        screen: Screen::SubdomainMenu,
        ..o
    })
}

/// Whether `f` is `o` with the notes of `sub` opened for writing.
pub open spec fn notes_opened(o: App, f: App, sub: Subdomain) -> bool {
    f == (App { form_notes: f.form_notes, editing_notes: true, ..o }) && f.form_notes@ == match sub.notes {
        Some(n) => n@,
        None => Seq::empty(),
    }
}

/// Whether `f` is `o` with the status of `sub` moved to the next one (when
/// the store takes it) and the list reloaded.
pub open spec fn status_cycled(o: App, f: App, sub: Subdomain) -> bool {
    if o.db is None {
        f == o
    } else {
        status_cycled_in_store(o, f, sub)
    }
}

/// Whether `f` is `o` with the status of `sub` moved on in the store and
/// the list reloaded.
pub open spec fn status_cycled_in_store(o: App, f: App, sub: Subdomain) -> bool {
    &&& (app_tables(f) == app_tables(o) || subdomain_updated(
        app_tables(o),
        app_tables(f),
        sub.id@,
        |u: UpdateSubdomain| status_update(u, status_after(sub.status)),
    ))
    &&& subdomains_shown(app_tables(f), sub.target_id@, f.subdomains@)
    &&& f == (App { db: f.db, subdomains: f.subdomains, ..o })
}

/// Whether `f` is `o` with `sub` opened in the edit form.
pub open spec fn subdomain_edit_opened(o: App, f: App, sub: Subdomain) -> bool {
    &&& f == (App {
        form_name: f.form_name,
        form_status_code: f.form_status_code,
        form_title: f.form_title,
        form_field: FormField::Name,
        form_error: None,
        editing_item_id: f.editing_item_id,
        editing_subdomain: true,
        ..o
    })
    &&& f.form_name@ == sub.subdomain@
    &&& f.form_status_code@ == match sub.status_code {
        Some(c) => decimal(c as int),
        None => Seq::empty(),
    }
    &&& f.form_title@ == match sub.title {
        Some(t) => t@,
        None => Seq::empty(),
    }
    &&& text_is(f.editing_item_id, sub.id@)
}

/// What a key that acts on subdomain `sub` does: Enter opens it, `o` its
/// notes, `s` moves its status on, `d` asks to delete it, `e` opens it for
/// editing.
pub open spec fn subdomain_item_step(o: App, f: App, k: Key, sub: Subdomain) -> bool {
    if k == Key::Enter {
        opened_subdomain(o, f, sub)
    } else if k == Key::Char('o') {
        notes_opened(o, f, sub)
    } else if k == Key::Char('s') {
        status_cycled(o, f, sub)
    } else if k == Key::Char('d') {
        f == (App { confirm_delete: true, confirm_delete_label: f.confirm_delete_label, ..o })
            && f.confirm_delete_label@ == sub.subdomain@
    } else {
        subdomain_edit_opened(o, f, sub)
    }
}

/// What a key does on the subdomain list itself: Esc goes back to the
/// target's menu (dropping the filter), `↓`/`j` and `↑`/`k` move the
/// cursor, `n` opens a blank form, `f` moves the filter to the next one;
/// Enter, `o`, `s`, `d` and `e` act on the subdomain under the cursor.
pub open spec fn subdomains_browse_step(o: App, f: App, k: Key) -> bool {
    if acts_on_subdomain(k) {
        match subdomain_under_cursor(o) {
            None => f == o,
            Some(sub) => subdomain_item_step(o, f, k, sub),
        }
    } else if k == Key::Esc {
        f == (App { screen: Screen::TargetMenu, subdomain_filter: None, ..o })
    } else if is_down(k) {
        f == (App {
            subdomain_selected: next_index(o.subdomain_selected as int, o.subdomains@.len() as int)
                as usize,
            ..o
        })
    } else if is_up(k) {
        f == (App {
            subdomain_selected: previous_index(
                o.subdomain_selected as int,
                o.subdomains@.len() as int,
            ) as usize,
            ..o
        })
    } else if k == Key::Char('n') {
        f == (App {
            creating_subdomain: true,
            form_name: f.form_name,
            form_description: f.form_description,
            form_field: FormField::Name,
            form_error: None,
            ..o
        }) && form_cleared(f)
    } else if k == Key::Char('f') {
        f == (App { subdomain_filter: filter_after(o.subdomain_filter), subdomain_selected: 0, ..o })
    } else {
        f == o
    }
}

/// Whether `k` acts on the subdomain under the cursor.
pub open spec fn acts_on_subdomain(k: Key) -> bool {
    k == Key::Enter || k == Key::Char('o') || k == Key::Char('s') || k == Key::Char('d') || k
        == Key::Char('e')
}

/// Handles a key while a deletion of a subdomain waits for confirmation.
fn subdomains_confirm(key: Key, app: App) -> (r: App)
    requires
        store_ready(app),
    ensures
        keeps_session(app, r),
        subdomains_confirm_step(app, r, key),
{
    match key {
        Key::Enter if app.db.is_none() => App {
            confirm_delete: false,
            confirm_delete_label: String::new(),
            ..app
        },
        Key::Enter => {
            if app.subdomain_selected < app.subdomains.len() {
                let sub_id = app.subdomains[app.subdomain_selected].id.clone();
                let target_id = app.subdomains[app.subdomain_selected].target_id.clone();
                let mut db = app.db;
                let subdomains = match &mut db {
                    Some(d) => {
                        let _ = delete_subdomain(d, sub_id.as_str());
                        subdomains_or_empty(d, target_id.as_str())
                    },
                    None => Vec::new(),
                };
                let sel = clamp(app.subdomain_selected, subdomains.len());
                App {
                    db,
                    subdomains,
                    subdomain_selected: sel,
                    confirm_delete: false,
                    confirm_delete_label: String::new(),
                    ..app
                }
            } else {
                App { confirm_delete: false, confirm_delete_label: String::new(), ..app }
            }
        },
        Key::Esc => App { confirm_delete: false, confirm_delete_label: String::new(), ..app },
        _ => app,
    }
}

/// Types key `k` into the active field of the subdomain form.
fn subdomain_form_type(key: Key, app: App) -> (r: App)
    ensures
        subdomain_form_typed(app, r, key),
{
    match app.form_field {
        FormField::Name => {
            let mut name = app.form_name;
            type_key(&mut name, key);
            App { form_name: name, form_error: None, ..app }
        },
        FormField::StatusCode => {
            let mut code = app.form_status_code;
            type_key(&mut code, key);
            App { form_status_code: code, form_error: None, ..app }
        },
        FormField::Title => {
            let mut title = app.form_title;
            type_key(&mut title, key);
            App { form_title: title, form_error: None, ..app }
        },
        _ => App { form_error: None, ..app },
    }
}

/// The status code typed in the edit form: none when blank, else the
/// number it writes, `None` inside when it writes none.
fn read_form_status_code(app: &App) -> (r: Option<Option<i32>>)
    ensures
        r == form_status_code(*app),
{
    let text = trim_text(app.form_status_code.as_str());
    if text.as_str().is_empty() {
        Some(None)
    } else {
        match parse_i32(text.as_str()) {
            Some(c) => Some(Some(c)),
            None => None,
        }
    }
}

/// Handles a key while a subdomain is edited.
fn subdomains_edit(key: Key, app: App) -> (r: App)
    requires
        store_ready(app),
        key == Key::Enter ==> app.db is Some,
    ensures
        keeps_session(app, r),
        subdomains_edit_step(app, r, key),
{
    match key {
        Key::Esc => App {
            editing_subdomain: false,
            form_name: String::new(),
            form_description: String::new(),
            form_field: FormField::Name,
            form_error: None,
            ..app
        },
        Key::Tab => {
            let field = match app.form_field {
                FormField::Name => FormField::StatusCode,
                FormField::StatusCode => FormField::Title,
                _ => FormField::Name,
            };
            App { form_field: field, ..app }
        },
        Key::Enter => {
            let id = match &app.editing_item_id {
                Some(id) => id.clone(),
                None => return app,
            };
            let status_code = match read_form_status_code(&app) {
                Some(c) => c,
                None => {
                    return App {
                        form_error: Some("Status code deve ser um número".to_owned()),
                        ..app
                    };
                },
            };
            let update = UpdateSubdomain {
                status: None,
                notes: None,
                status_code,
                title: optional_text(app.form_title.as_str()),
                subdomain: optional_text(app.form_name.as_str()),
            };
            let tid = match &app.current_target {
                Some(t) => Some(t.id.clone()),
                None => None,
            };
            let mut db = app.db;
            let outcome = match &mut db {
                Some(d) => match update_subdomain(d, id.as_str(), update) {
                    Ok(_) => Ok(
                        match tid {
                            Some(t) => Some(subdomains_or_empty(d, t.as_str())),
                            None => None,
                        },
                    ),
                    Err(e) => Err(failure_text(&e)),
                },
                None => Err(String::new()),
            };
            match outcome {
                Ok(reloaded) => {
                    let subdomains = match reloaded {
                        Some(v) => v,
                        None => app.subdomains,
                    };
                    App {
                        db,
                        subdomains,
                        editing_subdomain: false,
                        form_name: String::new(),
                        form_description: String::new(),
                        form_field: FormField::Name,
                        form_error: None,
                        ..app
                    }
                },
                Err(m) => App { db, form_error: Some(m), ..app },
            }
        },
        Key::Backspace | Key::Char(_) => subdomain_form_type(key, app),
        _ => app,
    }
}

/// Handles a key while a new subdomain is typed.
fn subdomains_create(key: Key, app: App) -> (r: App)
    requires
        store_ready(app),
        key == Key::Enter ==> app.db is Some,
    ensures
        keeps_session(app, r),
        subdomains_create_step(app, r, key),
{
    match key {
        Key::Esc => App {
            creating_subdomain: false,
            form_name: String::new(),
            form_description: String::new(),
            form_field: FormField::Name,
            form_error: None,
            ..app
        },
        Key::Enter => {
            if is_blank(app.form_name.as_str()) {
                return App { form_error: Some("Subdomain é obrigatório".to_owned()), ..app };
            }
            let target_id = match &app.current_target {
                Some(t) => t.id.clone(),
                None => return app,
            };
            let new = NewSubdomain {
                target_id: target_id.clone(),
                subdomain: trim_text(app.form_name.as_str()),
                status_code: None,
                title: None,
            };
            let mut db = app.db;
            let outcome = match &mut db {
                Some(d) => match create_subdomain(d, new) {
                    Ok(_) => Some(subdomains_or_empty(d, target_id.as_str())),
                    Err(_) => None,
                },
                None => None,
            };
            match outcome {
                Some(subdomains) => App {
                    db,
                    subdomains,
                    creating_subdomain: false,
                    form_name: String::new(),
                    form_description: String::new(),
                    form_field: FormField::Name,
                    form_error: None,
                    ..app
                },
                None => App {
                    db,
                    form_error: Some("Subdomain já existe neste target".to_owned()),
                    ..app
                },
            }
        },
        Key::Backspace | Key::Char(_) => {
            let mut name = app.form_name;
            type_key(&mut name, key);
            App { form_name: name, form_error: None, ..app }
        },
        _ => app,
    }
}

/// Handles a key while the notes of a subdomain are written.
fn subdomains_notes(key: Key, app: App) -> (r: App)
    requires
        store_ready(app),
    ensures
        keeps_session(app, r),
        subdomains_notes_step(app, r, key),
{
    match key {
        Key::Esc => App { editing_notes: false, form_notes: String::new(), ..app },
        Key::Enter => {
            if app.subdomain_selected < app.subdomains.len() && app.db.is_some() {
                let sub_id = app.subdomains[app.subdomain_selected].id.clone();
                let target_id = app.subdomains[app.subdomain_selected].target_id.clone();
                let update = UpdateSubdomain {
                    status: None,
                    notes: Some(app.form_notes.clone()),
                    status_code: None,
                    title: None,
                    subdomain: None,
                };
                let mut db = app.db;
                let subdomains = match &mut db {
                    Some(d) => {
                        let _ = update_subdomain(d, sub_id.as_str(), update);
                        subdomains_or_empty(d, target_id.as_str())
                    },
                    None => Vec::new(),
                };
                App { db, subdomains, editing_notes: false, form_notes: String::new(), ..app }
            } else {
                App { editing_notes: false, form_notes: String::new(), ..app }
            }
        },
        Key::Backspace | Key::Char(_) => {
            let mut notes = app.form_notes;
            type_key(&mut notes, key);
            App { form_notes: notes, ..app }
        },
        _ => app,
    }
}

/// Opens the notes of subdomain `sub` for writing.
fn open_notes(app: App, sub: &Subdomain) -> (r: App)
    ensures
        notes_opened(app, r, *sub),
{
    let notes = match &sub.notes {
        Some(n) => n.clone(),
        None => String::new(),
    };
    App { form_notes: notes, editing_notes: true, ..app }
}

/// Opens subdomain `sub`: loads its URLs, technologies and screenshots and
/// shows its menu.
fn open_subdomain(app: App, sub: Subdomain) -> (r: App)
    requires
        store_ready(app),
    ensures
        keeps_session(app, r),
        opened_subdomain(app, r, sub),
{
    if app.db.is_none() {
        App { current_subdomain: Some(sub), subdomain_menu_selected: 0, screen: Screen::SubdomainMenu, ..app }
    } else {
        open_subdomain_in_store(app, sub)
    }
}

/// Opens subdomain `sub` with its lists loaded from the store.
fn open_subdomain_in_store(app: App, sub: Subdomain) -> (r: App)
    requires
        session_open(app),
    ensures
        session_open(r),
        opened_subdomain(app, r, sub),
{
    let (urls, technologies, screenshots) = match &app.db {
        Some(d) => (
            urls_or_empty(d, sub.id.as_str()),
            technologies_or_empty(d, sub.id.as_str()),
            screenshots_or_empty(d, sub.id.as_str()),
        ),
        None => (Vec::new(), Vec::new(), Vec::new()),
    };
    App {
        urls,
        technologies,
        screenshots,
        current_subdomain: Some(sub),
        subdomain_menu_selected: 0,
        screen: Screen::SubdomainMenu,
        ..app
    }
}

/// Moves the status of subdomain `sub` to the next one and reloads the list.
fn cycle_status(app: App, sub: Subdomain) -> (r: App)
    requires
        store_ready(app),
    ensures
        keeps_session(app, r),
        status_cycled(app, r, sub),
{
    if app.db.is_none() {
        return app;
    }
    let sub_id = sub.id;
    let target_id = sub.target_id;
    let st = sub.status;
    let update = UpdateSubdomain {
        status: Some(st.next()),
        notes: None,
        status_code: None,
        title: None,
        subdomain: None,
    };
    let mut db = app.db;
    let subdomains = match &mut db {
        Some(d) => {
            let _ = update_subdomain(d, sub_id.as_str(), update);
            subdomains_or_empty(d, target_id.as_str())
        },
        None => Vec::new(),
    };
    App { db, subdomains, ..app }
}

/// Opens subdomain `sub` for editing.
fn begin_subdomain_edit(app: App, sub: &Subdomain) -> (r: App)
    ensures
        subdomain_edit_opened(app, r, *sub),
{
    let r = edit_form_of(app, sub);
    r
}

/// The edit form filled with subdomain `sub`.
fn edit_form_of(app: App, sub: &Subdomain) -> (r: App)
    ensures
        r == (App {
            form_name: r.form_name,
            form_status_code: r.form_status_code,
            form_title: r.form_title,
            form_field: FormField::Name,
            form_error: None,
            editing_item_id: r.editing_item_id,
            editing_subdomain: true,
            ..app
        }),
        r.form_name@ == sub.subdomain@,
        r.form_status_code@ == match sub.status_code {
            Some(c) => decimal(c as int),
            None => Seq::empty(),
        },
        r.form_title@ == match sub.title {
            Some(t) => t@,
            None => Seq::empty(),
        },
        text_is(r.editing_item_id, sub.id@),
{
    let mut code = String::new();
    match sub.status_code {
        Some(c) => push_decimal(&mut code, c),
        None => {},
    }
    let title = match &sub.title {
        Some(t) => t.clone(),
        None => String::new(),
    };
    App {
        form_name: sub.subdomain.clone(),
        form_status_code: code,
        form_title: title,
        form_field: FormField::Name,
        form_error: None,
        editing_item_id: Some(sub.id.clone()),
        editing_subdomain: true,
        ..app
    }
}

/// Handles a key on the subdomain list that acts on the subdomain under the
/// cursor.
fn subdomains_browse_item(key: Key, app: App) -> (r: App)
    requires
        store_ready(app),
        acts_on_subdomain(key),
    ensures
        keeps_session(app, r),
        subdomains_browse_step(app, r, key),
{
    if app.subdomain_selected >= app.subdomains.len() {
        return app;
    }
    let sub = app.subdomains[app.subdomain_selected].duplicate();
    match key {
        Key::Enter => open_subdomain(app, sub),
        Key::Char('o') => open_notes(app, &sub),
        Key::Char('s') => cycle_status(app, sub),
        Key::Char('d') => App { confirm_delete: true, confirm_delete_label: sub.subdomain, ..app },
        _ => begin_subdomain_edit(app, &sub),
    }
}

/// Handles a key on the subdomain list itself.
fn subdomains_browse(key: Key, app: App) -> (r: App)
    requires
        store_ready(app),
    ensures
        keeps_session(app, r),
        subdomains_browse_step(app, r, key),
{
    match key {
        Key::Esc => App { screen: Screen::TargetMenu, subdomain_filter: None, ..app },
        Key::Down | Key::Char('j') => {
            let sel = step_next(app.subdomain_selected, app.subdomains.len());
            App { subdomain_selected: sel, ..app }
        },
        Key::Up | Key::Char('k') => {
            let sel = step_previous(app.subdomain_selected, app.subdomains.len());
            App { subdomain_selected: sel, ..app }
        },
        Key::Char('n') => App {
            creating_subdomain: true,
            form_name: String::new(),
            form_description: String::new(),
            form_field: FormField::Name,
            form_error: None,
            ..app
        },
        Key::Char('f') => {
            let filter = next_status_filter(app.subdomain_filter);
            App { subdomain_filter: filter, subdomain_selected: 0, ..app }
        },
        Key::Enter | Key::Char('o') | Key::Char('s') | Key::Char('d') | Key::Char('e') => {
            subdomains_browse_item(key, app)
        },
        _ => app,
    }
}

/// Handles key `key` on the subdomain screen: a pending deletion first,
/// then the edit form, then the creation form, then the notes, else the
/// list itself.
pub fn handle_subdomains(key: Key, app: App) -> (r: App)
    requires
        store_ready(app),
        key == Key::Enter && !app.confirm_delete && (app.editing_subdomain || app.creating_subdomain) ==> app.db is Some,
    ensures
        keeps_session(app, r),
        app.confirm_delete ==> subdomains_confirm_step(app, r, key),
        !app.confirm_delete && app.editing_subdomain ==> subdomains_edit_step(app, r, key),
        !app.confirm_delete && !app.editing_subdomain && app.creating_subdomain
            ==> subdomains_create_step(app, r, key),
        !app.confirm_delete && !app.editing_subdomain && !app.creating_subdomain
            && app.editing_notes ==> subdomains_notes_step(app, r, key),
        !app.confirm_delete && !app.editing_subdomain && !app.creating_subdomain
            && !app.editing_notes ==> subdomains_browse_step(app, r, key),
{
    if app.confirm_delete {
        subdomains_confirm(key, app)
    } else if app.editing_subdomain {
        subdomains_edit(key, app)
    } else if app.creating_subdomain {
        subdomains_create(key, app)
    } else if app.editing_notes {
        subdomains_notes(key, app)
    } else {
        subdomains_browse(key, app)
    }
}

/// What a key does on the menu of a subdomain: Esc goes back to the
/// subdomains, `↓`/`j` and `↑`/`k` move the cursor, Enter opens the URLs,
/// the technologies or the screenshots.
pub open spec fn subdomain_menu_step(o: App, f: App, k: Key) -> bool {
    if k == Key::Esc {
        f == (App { screen: Screen::Subdomains, ..o })
    } else if is_down(k) {
        f == (App {
            subdomain_menu_selected: next_index(o.subdomain_menu_selected as int, 3) as usize,
            ..o
        })
    } else if is_up(k) {
        f == (App {
            subdomain_menu_selected: previous_index(o.subdomain_menu_selected as int, 3) as usize,
            ..o
        })
    } else if k == Key::Enter {
        if o.subdomain_menu_selected == 0 {
            f == (App { url_selected: 0, creating_url: false, screen: Screen::URLs, ..o })
        } else if o.subdomain_menu_selected == 1 {
            f == (App {
                technology_selected: 0,
                creating_technology: false,
                screen: Screen::Technologies,
                ..o
            })
        } else if o.subdomain_menu_selected == 2 {
            f == (App { creating_screenshot: false, screen: Screen::Screenshots, ..o })
        } else {
            f == o
        }
    } else {
        f == o
    }
}

/// Handles key `key` on the menu of a subdomain.
pub fn handle_subdomain_menu(key: Key, app: App) -> (r: App)
    ensures
        subdomain_menu_step(app, r, key),
{
    match key {
        Key::Esc => App { screen: Screen::Subdomains, ..app },
        Key::Down | Key::Char('j') => {
            let sel = step_next(app.subdomain_menu_selected, 3);
            App { subdomain_menu_selected: sel, ..app }
        },
        Key::Up | Key::Char('k') => {
            let sel = step_previous(app.subdomain_menu_selected, 3);
            App { subdomain_menu_selected: sel, ..app }
        },
        Key::Enter => {
            if app.subdomain_menu_selected == 0 {
                App { url_selected: 0, creating_url: false, screen: Screen::URLs, ..app }
            } else if app.subdomain_menu_selected == 1 {
                App {
                    technology_selected: 0,
                    creating_technology: false,
                    screen: Screen::Technologies,
                    ..app
                }
            } else if app.subdomain_menu_selected == 2 {
                App { creating_screenshot: false, screen: Screen::Screenshots, ..app }
            } else {
                app
            }
        },
        _ => app,
    }
}

} // verus!
