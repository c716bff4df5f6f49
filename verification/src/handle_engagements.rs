//! The screens before a target is chosen: the password, the home menu, the
//! engagement form, the list of engagements, the dashboard of one and the
//! import form.

use vstd::prelude::*;
use crate::app::{
    App, DashboardIntent, FormField, ImportField, Screen, next_index, previous_index, step_next,
    step_previous,
};
use crate::export::{default_report_path, export_engagement_markdown, is_report_of, is_report_path_for};
use crate::handle_targets::targets_reloaded;
use crate::text::push_text;
use crate::db::Database;
use crate::handle_items::{
    asns_shown, deletion_dropped, form_cleared, form_refused, ips_shown, name_typed,
    screenshots_shown, technologies_shown, text_is, text_starts, urls_shown,
};
use crate::handle_targets::{subdomains_shown, targets_shown};
use crate::keys::{keeps_session, store_ready, 
    Key, app_tables, asns_or_empty, clamp, clamped, engagements_listing, engagements_or_empty,
    failure_text, ips_or_empty, is_down, is_up, optional_text, screenshots_or_empty, session_open,
    subdomains_or_empty, targets_or_empty, technologies_or_empty, trimmed_or_none, type_key, typed,
    urls_or_empty,
};
use crate::models::{Asn, Engagement, Ip, NewEngagement, Screenshot, Subdomain, Technology, Url};
use crate::queries::{create_engagement, delete_engagement, update_engagement};
use crate::sql::with_engagement;
use crate::store::{Store, engagement_name_taken, engagement_named};
use crate::text::{is_blank, trim_spec, trim_text};

verus! {

/// Whether the interface is in a state it can be in: every screen but the
/// password holds an open session.
pub open spec fn consistent(a: App) -> bool {
    a.screen != Screen::Password ==> session_open(a)
}

// ─── password ───────────────────────────────────────────────────────────────

/// What a key does on the password screen: Esc quits, Enter opens the store
/// with the typed password (an empty one is refused, a wrong one reported),
/// other keys edit the password.
pub open spec fn password_step(o: App, f: App, k: Key) -> bool {
    match k {
        Key::Esc => f == (App { should_quit: true, ..o }),
        Key::Enter => if o.password_input@.len() == 0 {
            f == (App { password_error: f.password_error, ..o }) && text_is(
                f.password_error,
                "Digite uma senha"@,
            )
        } else {
            ||| {
                &&& session_open(f)
                &&& f == (App {
                    db: f.db,
                    password_input: f.password_input,
                    password_error: None,
                    screen: Screen::Home,
                    last_activity: f.last_activity,
                    ..o
                })
                &&& f.password_input@.len() == 0
            }
            ||| {
                &&& f == (App {
                    password_error: f.password_error,
                    password_input: f.password_input,
                    ..o
                })
                &&& text_is(f.password_error, "Senha incorreta"@)
                &&& f.password_input@.len() == 0
            }
        },
        Key::Backspace | Key::Char(_) => f == (App {
            password_input: f.password_input,
            password_error: None,
            ..o
        }) && f.password_input@ == typed(o.password_input@, k),
        _ => f == o,
    }
}

/// Handles key `key` on the password screen; the store is the file at
/// `db_path`.
pub fn handle_password(key: Key, app: App, db_path: &std::path::PathBuf) -> (r: App)
    ensures
        password_step(app, r, key),
{
    match key {
        Key::Esc => App { should_quit: true, ..app },
        Key::Enter => {
            if app.password_input.as_str().is_empty() {
                return App { password_error: Some("Digite uma senha".to_owned()), ..app };
            }
            match Database::open(db_path, app.password_input.as_str()) {
                Ok(db) => {
                    let now = crate::app::clock_secs();
                    App {
                        db: Some(db),
                        password_input: String::new(),
                        password_error: None,
                        screen: Screen::Home,
                        last_activity: now,
                        ..app
                    }
                },
                Err(_) => App {
                    password_error: Some("Senha incorreta".to_owned()),
                    password_input: String::new(),
                    ..app
                },
            }
        },
        Key::Backspace | Key::Char(_) => {
            let mut input = app.password_input;
            type_key(&mut input, key);
            App { password_input: input, password_error: None, ..app }
        },
        _ => app,
    }
}

// ─── home ───────────────────────────────────────────────────────────────────

/// What a key does on the home menu: `q` or Esc quits, `↓`/`j` and `↑`/`k`
/// move the cursor, Enter opens the list of engagements, the engagement
/// form, the import form, or quits.
pub open spec fn home_step(o: App, f: App, k: Key) -> bool {
    if k == Key::Char('q') || k == Key::Esc {
        f == (App { should_quit: true, ..o })
    } else if is_down(k) {
        f == (App { home_selected: next_index(o.home_selected as int, 4) as usize, ..o })
    } else if is_up(k) {
        f == (App { home_selected: previous_index(o.home_selected as int, 4) as usize, ..o })
    } else if k == Key::Enter {
        if o.home_selected == 0 {
            match o.db {
                Some(d) => {
                    &&& f.engagements@.len() == 0 || engagements_listing(d.tables(), f.engagements@)
                    &&& f == (App {
                        engagements: f.engagements,
                        engagement_selected: 0,
                        screen: Screen::ListEngagements,
                        ..o
                    })
                },
                None => f == o,
            }
        } else if o.home_selected == 1 {
            f == (App {
                form_name: f.form_name,
                form_description: f.form_description,
                form_field: FormField::Name,
                form_error: None,
                screen: Screen::CreateEngagement,
                ..o
            }) && form_cleared(f)
        } else if o.home_selected == 2 {
            &&& f == (App {
                import_path: f.import_path,
                import_target: f.import_target,
                import_engagement: f.import_engagement,
                import_result: None,
                import_field: ImportField::Path,
                screen: Screen::Import,
                ..o
            })
            &&& f.import_path@.len() == 0
            &&& f.import_target@.len() == 0
            &&& f.import_engagement@.len() == 0
        } else if o.home_selected == 3 {
            f == (App { should_quit: true, ..o })
        } else {
            f == o
        }
    } else {
        f == o
    }
}

/// Handles Enter on the home menu.
fn home_enter(app: App) -> (r: App)
    ensures
        home_step(app, r, Key::Enter),
{
    if app.home_selected == 0 {
        match &app.db {
            Some(d) => {
                let engagements = engagements_or_empty(d);
                App { engagements, engagement_selected: 0, screen: Screen::ListEngagements, ..app }
            },
            None => app,
        }
    } else if app.home_selected == 1 {
        App {
            form_name: String::new(),
            form_description: String::new(),
            form_field: FormField::Name,
            form_error: None,
            screen: Screen::CreateEngagement,
            ..app
        }
    } else if app.home_selected == 2 {
        App {
            import_path: String::new(),
            import_target: String::new(),
            import_engagement: String::new(),
            import_result: None,
            import_field: ImportField::Path,
            screen: Screen::Import,
            ..app
        }
    } else if app.home_selected == 3 {
        App { should_quit: true, ..app }
    } else {
        app
    }
}

/// Handles key `key` on the home menu.
pub fn handle_home(key: Key, app: App) -> (r: App)
    ensures
        home_step(app, r, key),
{
    match key {
        Key::Char('q') | Key::Esc => App { should_quit: true, ..app },
        Key::Down | Key::Char('j') => {
            let sel = step_next(app.home_selected, 4);
            App { home_selected: sel, ..app }
        },
        Key::Up | Key::Char('k') => {
            let sel = step_previous(app.home_selected, 4);
            App { home_selected: sel, ..app }
        },
        Key::Enter => home_enter(app),
        _ => app,
    }
}

// ─── engagement form ────────────────────────────────────────────────────────

/// Whether `f` is `o` with key `k` typed into the active field of the
/// engagement form (name or description), clearing its error.
pub open spec fn engagement_form_typed(o: App, f: App, k: Key) -> bool {
    match o.form_field {
        FormField::Name => name_typed(o, f, k),
        FormField::Description => f == (App {
            form_description: f.form_description,
            form_error: None,
            ..o
        }) && f.form_description@ == typed(o.form_description@, k),
        _ => f == (App { form_error: None, ..o }),
    }
}

/// Types key `k` into the active field of the engagement form.
pub fn engagement_form_type(key: Key, app: App) -> (r: App)
    ensures
        engagement_form_typed(app, r, key),
{
    match app.form_field {
        FormField::Name => {
            let mut name = app.form_name;
            type_key(&mut name, key);
            App { form_name: name, form_error: None, ..app }
        },
        FormField::Description => {
            let mut desc = app.form_description;
            type_key(&mut desc, key);
            App { form_description: desc, form_error: None, ..app }
        },
        _ => App { form_error: None, ..app },
    }
}

/// The field of the engagement form after Tab.
pub open spec fn engagement_field_after(f: FormField) -> FormField {
    match f {
        FormField::Name => FormField::Description,
        _ => FormField::Name,
    }
}

/// What a key does on the engagement form: Esc goes home, Tab switches
/// field, Enter records the engagement (a blank name is refused, a name in
/// use reported) and goes home, other keys edit the active field.
pub open spec fn create_engagement_step(o: App, f: App, k: Key) -> bool {
    match k {
        Key::Esc => f == (App {
            form_name: f.form_name,
            form_description: f.form_description,
            form_field: FormField::Name,
            form_error: None,
            screen: Screen::Home,
            ..o
        }) && form_cleared(f),
        Key::Tab => f == (App { form_field: engagement_field_after(o.form_field), ..o }),
        Key::Enter => if trim_spec(o.form_name@).len() == 0 {
            form_refused(o, f, "Nome é obrigatório"@)
        } else {
            let s0 = app_tables(o);
            let name = trim_spec(o.form_name@);
            &&& ({
                &&& exists|id: Seq<char>, now: Seq<char>|
                    !s0.engagements.contains_key(id) && app_tables(f) == #[trigger] with_engagement(
                        s0,
                        id,
                        (name, trimmed_or_none(o.form_description@), now, now),
                    )
                &&& f == (App {
                    db: f.db,
                    form_name: f.form_name,
                    form_description: f.form_description,
                    form_field: FormField::Name,
                    form_error: None,
                    screen: Screen::Home,
                    ..o
                })
                &&& form_cleared(f)
            } || (app_tables(f) == s0 && form_refused(
                App { db: f.db, ..o },
                f,
                "Já existe um engagement com esse nome"@,
            )))
            &&& engagement_named(s0, name) ==> app_tables(f) == s0 && text_is(
                f.form_error,
                "Já existe um engagement com esse nome"@,
            )
        },
        Key::Backspace | Key::Char(_) => engagement_form_typed(o, f, k),
        _ => f == o,
    }
}

/// Handles key `key` on the engagement form.
pub fn handle_create_engagement(key: Key, app: App) -> (r: App)
    requires
        session_open(app),
    ensures
        session_open(r),
        create_engagement_step(app, r, key),
{
    match key {
        Key::Esc => App {
            form_name: String::new(),
            form_description: String::new(),
            form_field: FormField::Name,
            form_error: None,
            screen: Screen::Home,
            ..app
        },
        Key::Tab => {
            let field = match app.form_field {
                FormField::Name => FormField::Description,
                _ => FormField::Name,
            };
            App { form_field: field, ..app }
        },
        Key::Enter => {
            if is_blank(app.form_name.as_str()) {
                return App { form_error: Some("Nome é obrigatório".to_owned()), ..app };
            }
            let new = NewEngagement {
                name: trim_text(app.form_name.as_str()),
                description: optional_text(app.form_description.as_str()),
            };
            let mut db = app.db;
            let created = match &mut db {
                Some(d) => match create_engagement(d, new) {
                    Ok(_) => true,
                    Err(_) => false,
                },
                None => false,
            };
            if created {
                App {
                    db,
                    form_name: String::new(),
                    form_description: String::new(),
                    form_field: FormField::Name,
                    form_error: None,
                    screen: Screen::Home,
                    ..app
                }
            } else {
                App {
                    db,
                    form_error: Some("Já existe um engagement com esse nome".to_owned()),
                    ..app
                }
            }
        },
        Key::Backspace | Key::Char(_) => engagement_form_type(key, app),
        _ => app,
    }
}

} // verus!

verus! {

// ─── list of engagements ────────────────────────────────────────────────────

/// The engagement under the cursor, if the cursor is on one.
pub open spec fn engagement_under_cursor(a: App) -> Option<Engagement> {
    if a.engagement_selected < a.engagements@.len() {
        Some(a.engagements@[a.engagement_selected as int])
    } else {
        None
    }
}

/// Whether `v` is what the engagement list shows: every engagement, or
/// nothing when the store failed.
pub open spec fn engagements_shown(t: Store, v: Seq<Engagement>) -> bool {
    v.len() == 0 || engagements_listing(t, v)
}

/// What a key does on the engagement list while a deletion waits for
/// confirmation: Enter deletes the engagement under the cursor (and all it
/// holds) and reloads the list, Esc drops the deletion.
pub open spec fn engagements_confirm_step(o: App, f: App, k: Key) -> bool {
    match k {
        Key::Enter => if o.db is None {
            deletion_dropped(o, f)
        } else {
            match engagement_under_cursor(o) {
                Some(e) => {
                    &&& (app_tables(f) == app_tables(o) || (app_tables(o).engagements.contains_key(e.id@)
                        && app_tables(f) == app_tables(o).delete_engagement(e.id@)))
                    &&& engagements_shown(app_tables(f), f.engagements@)
                    &&& f == (App {
                        db: f.db,
                        engagements: f.engagements,
                        engagement_selected: clamped(
                            o.engagement_selected as int,
                            f.engagements@.len() as int,
                        ) as usize,
                        confirm_delete: false,
                        confirm_delete_label: f.confirm_delete_label,
                        ..o
                    })
                    &&& f.confirm_delete_label@.len() == 0
                },
                None => deletion_dropped(o, f),
            }
        },
        Key::Esc => deletion_dropped(o, f),
        _ => f == o,
    }
}

/// What a key does while engagement `o.editing_item_id` is edited: Esc
/// leaves the form, Tab switches field, Enter saves name and description
/// and reloads the list, other keys edit the active field.
pub open spec fn engagements_edit_step(o: App, f: App, k: Key) -> bool {
    match k {
        Key::Esc => f == (App {
            editing_engagement: false,
            form_name: f.form_name,
            form_description: f.form_description,
            form_field: FormField::Name,
            form_error: None,
            ..o
        }) && form_cleared(f),
        Key::Tab => f == (App { form_field: engagement_field_after(o.form_field), ..o }),
        Key::Enter => if trim_spec(o.form_name@).len() == 0 {
            form_refused(o, f, "Nome é obrigatório"@)
        } else {
            match o.editing_item_id {
                None => f == o,
                Some(id) => {
                    let s0 = app_tables(o);
                    let name = trim_spec(o.form_name@);
                    &&& (app_tables(f) == s0 || (s0.engagements.contains_key(id@) && exists|
                        now: Seq<char>,
                    |
                        app_tables(f) == #[trigger] with_engagement(
                            s0,
                            id@,
                            (
                                name,
                                trimmed_or_none(o.form_description@),
                                s0.engagements[id@].2,
                                now,
                            ),
                        )))
                    &&& ({
                        &&& engagements_shown(app_tables(f), f.engagements@)
                        &&& f == (App {
                            db: f.db,
                            engagements: f.engagements,
                            editing_engagement: false,
                            form_name: f.form_name,
                            form_description: f.form_description,
                            form_field: FormField::Name,
                            form_error: None,
                            ..o
                        })
                        &&& form_cleared(f)
                    } || (f == (App { db: f.db, form_error: f.form_error, ..o }) && text_starts(
                        f.form_error,
                        "✗ "@,
                    )))
                    &&& !s0.engagements.contains_key(id@) || engagement_name_taken(s0, name, id@)
                        ==> app_tables(f) == s0 && text_starts(f.form_error, "✗ "@)
                },
            }
        },
        Key::Backspace | Key::Char(_) => engagement_form_typed(o, f, k),
        _ => f == o,
    }
}

/// Whether `f` is `o` with engagement `e` opened on its dashboard: its
/// targets loaded, and for a preview the IPs, ASNs and subdomains of its
/// first target and the URLs, technologies and screenshots of that
/// target's first subdomain.
pub open spec fn opened_engagement(o: App, f: App, e: Engagement) -> bool {
    if o.db is None {
        f == (App {
            current_engagement: Some(e),
            dashboard_selected: 0,
            target_selected: 0,
            screen: Screen::Dashboard,
            ..o
        })
    } else {
        opened_engagement_in_store(o, f, e)
    }
}

/// Whether `f` is `o` with engagement `e` opened on its dashboard, its
/// targets and a preview of the first loaded from the store.
pub open spec fn opened_engagement_in_store(o: App, f: App, e: Engagement) -> bool {
    let s = app_tables(f);
    &&& s == app_tables(o)
    &&& targets_shown(s, e.id@, f.targets@)
    &&& if f.targets@.len() > 0 {
        let t = f.targets@[0];
        &&& ips_shown(s, t.id@, f.ips@)
        &&& asns_shown(s, t.id@, f.asns@)
        &&& subdomains_shown(s, t.id@, f.subdomains@)
        &&& if f.subdomains@.len() > 0 {
            let sub = f.subdomains@[0];
            &&& urls_shown(s, sub.id@, f.urls@)
            &&& technologies_shown(s, sub.id@, f.technologies@)
            &&& screenshots_shown(s, sub.id@, f.screenshots@)
        } else {
            &&& f.urls == o.urls
            &&& f.technologies == o.technologies
            &&& f.screenshots == o.screenshots
        }
    } else {
        &&& f.ips == o.ips
        &&& f.asns == o.asns
        &&& f.subdomains == o.subdomains
        &&& f.urls == o.urls
        &&& f.technologies == o.technologies
        &&& f.screenshots == o.screenshots
    }
    &&& f == (App {
        db: f.db,
        targets: f.targets,
        ips: f.ips,
        asns: f.asns,
        subdomains: f.subdomains,
        urls: f.urls,
        technologies: f.technologies,
        screenshots: f.screenshots,
        current_engagement: Some(e),
        dashboard_selected: 0,
        target_selected: 0,
        screen: Screen::Dashboard,
        ..o
    })
}

/// What a key does on the engagement list itself: Esc goes home, `↓`/`j`
/// and `↑`/`k` move the cursor, Enter opens the engagement under the
/// cursor, `d` asks to delete it, `e` opens it for editing.
pub open spec fn engagements_browse_step(o: App, f: App, k: Key) -> bool {
    if k == Key::Esc {
        f == (App { screen: Screen::Home, ..o })
    } else if is_down(k) {
        f == (App {
            engagement_selected: next_index(o.engagement_selected as int, o.engagements@.len() as int)
                as usize,
            ..o
        })
    } else if is_up(k) {
        f == (App {
            engagement_selected: previous_index(
                o.engagement_selected as int,
                o.engagements@.len() as int,
            ) as usize,
            ..o
        })
    } else if k == Key::Enter || k == Key::Char('d') || k == Key::Char('e') {
        match engagement_under_cursor(o) {
            None => f == o,
            Some(e) => if k == Key::Enter {
                opened_engagement(o, f, e)
            } else if k == Key::Char('d') {
                f == (App {
                    confirm_delete: true,
                    confirm_delete_label: f.confirm_delete_label,
                    ..o
                }) && f.confirm_delete_label@ == e.name@
            } else {
                &&& f == (App {
                    form_name: f.form_name,
                    form_description: f.form_description,
                    form_field: FormField::Name,
                    form_error: None,
                    editing_item_id: f.editing_item_id,
                    editing_engagement: true,
                    ..o
                })
                &&& f.form_name@ == e.name@
                &&& f.form_description@ == match e.description {
                    Some(d) => d@,
                    None => Seq::empty(),
                }
                &&& text_is(f.editing_item_id, e.id@)
            },
        }
    } else {
        f == o
    }
}

/// Handles a key while a deletion of an engagement waits for confirmation.
fn engagements_confirm(key: Key, app: App) -> (r: App)
    requires
        store_ready(app),
    ensures
        keeps_session(app, r),
        engagements_confirm_step(app, r, key),
{
    match key {
        Key::Enter if app.db.is_none() => App {
            confirm_delete: false,
            confirm_delete_label: String::new(),
            ..app
        },
        Key::Enter => {
            if app.engagement_selected < app.engagements.len() {
                let eng_id = app.engagements[app.engagement_selected].id.clone();
                let mut db = app.db;
                let engagements = match &mut db {
                    Some(d) => {
                        let _ = delete_engagement(d, eng_id.as_str());
                        engagements_or_empty(d)
                    },
                    None => Vec::new(),
                };
                let sel = clamp(app.engagement_selected, engagements.len());
                App {
                    db,
                    engagements,
                    engagement_selected: sel,
                    confirm_delete: false,
                    confirm_delete_label: String::new(),
                    ..app
                }
            } else {
                App { confirm_delete: false, confirm_delete_label: String::new(), ..app }
            }
        },
        Key::Esc => App { confirm_delete: false, confirm_delete_label: String::new(), ..app },
        _ => app,
    }
}

/// Handles a key while an engagement is edited.
fn engagements_edit(key: Key, app: App) -> (r: App)
    requires
        store_ready(app),
        key == Key::Enter ==> app.db is Some,
    ensures
        keeps_session(app, r),
        engagements_edit_step(app, r, key),
{
    match key {
        Key::Esc => App {
            editing_engagement: false,
            form_name: String::new(),
            form_description: String::new(),
            form_field: FormField::Name,
            form_error: None,
            ..app
        },
        Key::Tab => {
            let field = match app.form_field {
                FormField::Name => FormField::Description,
                _ => FormField::Name,
            };
            App { form_field: field, ..app }
        },
        Key::Enter => {
            if is_blank(app.form_name.as_str()) {
                return App { form_error: Some("Nome é obrigatório".to_owned()), ..app };
            }
            let id = match &app.editing_item_id {
                Some(id) => id.clone(),
                None => return app,
            };
            let name = trim_text(app.form_name.as_str());
            let desc = optional_text(app.form_description.as_str());
            let mut db = app.db;
            let outcome = match &mut db {
                Some(d) => {
                    let r = match &desc {
                        Some(t) => update_engagement(d, id.as_str(), name.as_str(), Some(t.as_str())),
                        None => update_engagement(d, id.as_str(), name.as_str(), None),
                    };
                    match r {
                        Ok(_) => Ok(engagements_or_empty(d)),
                        Err(e) => Err(failure_text(&e)),
                    }
                },
                None => Err(String::new()),
            };
            match outcome {
                Ok(engagements) => App {
                    db,
                    engagements,
                    editing_engagement: false,
                    form_name: String::new(),
                    form_description: String::new(),
                    form_field: FormField::Name,
                    form_error: None,
                    ..app
                },
                Err(m) => App { db, form_error: Some(m), ..app },
            }
        },
        Key::Backspace | Key::Char(_) => engagement_form_type(key, app),
        _ => app,
    }
}

/// What the dashboard previews of target `target_id`: its IPs, ASNs and
/// subdomains, and the URLs, technologies and screenshots of its first
/// subdomain (`keep` when it has none).
fn target_preview(
    d: &Database,
    target_id: &str,
    keep: (Vec<Url>, Vec<Technology>, Vec<Screenshot>),
) -> (r: (Vec<Ip>, Vec<Asn>, Vec<Subdomain>, Vec<Url>, Vec<Technology>, Vec<Screenshot>))
    ensures
        ips_shown(d.tables(), target_id@, r.0@),
        asns_shown(d.tables(), target_id@, r.1@),
        subdomains_shown(d.tables(), target_id@, r.2@),
        r.2@.len() > 0 ==> {
            let sub = r.2@[0];
            &&& urls_shown(d.tables(), sub.id@, r.3@)
            &&& technologies_shown(d.tables(), sub.id@, r.4@)
            &&& screenshots_shown(d.tables(), sub.id@, r.5@)
        },
        r.2@.len() == 0 ==> r.3 == keep.0 && r.4 == keep.1 && r.5 == keep.2,
{
    let ips = ips_or_empty(d, target_id);
    let asns = asns_or_empty(d, target_id);
    let subdomains = subdomains_or_empty(d, target_id);
    if subdomains.len() > 0 {
        let sid = subdomains[0].id.clone();
        let urls = urls_or_empty(d, sid.as_str());
        let technologies = technologies_or_empty(d, sid.as_str());
        let screenshots = screenshots_or_empty(d, sid.as_str());
        (ips, asns, subdomains, urls, technologies, screenshots)
    } else {
        (ips, asns, subdomains, keep.0, keep.1, keep.2)
    }
}

/// Opens engagement `e` on its dashboard, loading its targets and a preview
/// of the first of them.
fn open_engagement(app: App, e: Engagement) -> (r: App)
    requires
        store_ready(app),
    ensures
        keeps_session(app, r),
        opened_engagement(app, r, e),
{
    let (targets, lists) = match &app.db {
        Some(d) => {
            let targets = targets_or_empty(d, e.id.as_str());
            if targets.len() > 0 {
                let tid = targets[0].id.clone();
                let lists = target_preview(d, tid.as_str(), (app.urls, app.technologies, app.screenshots));
                (targets, lists)
            } else {
                (targets, (app.ips, app.asns, app.subdomains, app.urls, app.technologies, app.screenshots))
            }
        },
        None => (app.targets, (app.ips, app.asns, app.subdomains, app.urls, app.technologies, app.screenshots)),
    };
    let (ips, asns, subdomains, urls, technologies, screenshots) = lists;
    App {
        targets,
        ips,
        asns,
        subdomains,
        urls,
        technologies,
        screenshots,
        current_engagement: Some(e),
        dashboard_selected: 0,
        target_selected: 0,
        screen: Screen::Dashboard,
        ..app
    }
}

/// Handles a key on the engagement list that acts on the engagement under
/// the cursor.
fn engagements_browse_item(key: Key, app: App) -> (r: App)
    requires
        store_ready(app),
        key == Key::Enter || key == Key::Char('d') || key == Key::Char('e'),
    ensures
        keeps_session(app, r),
        engagements_browse_step(app, r, key),
{
    if app.engagement_selected >= app.engagements.len() {
        return app;
    }
    let e = app.engagements[app.engagement_selected].duplicate();
    match key {
        Key::Enter => open_engagement(app, e),
        Key::Char('d') => App { confirm_delete: true, confirm_delete_label: e.name, ..app },
        _ => {
            let desc = match &e.description {
                Some(d) => d.clone(),
                None => String::new(),
            };
            App {
                form_name: e.name,
                form_description: desc,
                form_field: FormField::Name,
                form_error: None,
                editing_item_id: Some(e.id),
                editing_engagement: true,
                ..app
            }
        },
    }
}

/// Handles a key on the engagement list itself.
fn engagements_browse(key: Key, app: App) -> (r: App)
    requires
        store_ready(app),
    ensures
        keeps_session(app, r),
        engagements_browse_step(app, r, key),
{
    match key {
        Key::Esc => App { screen: Screen::Home, ..app },
        Key::Down | Key::Char('j') => {
            let sel = step_next(app.engagement_selected, app.engagements.len());
            App { engagement_selected: sel, ..app }
        },
        Key::Up | Key::Char('k') => {
            let sel = step_previous(app.engagement_selected, app.engagements.len());
            App { engagement_selected: sel, ..app }
        },
        Key::Enter | Key::Char('d') | Key::Char('e') => engagements_browse_item(key, app),
        _ => app,
    }
}

/// Handles key `key` on the engagement list: a pending deletion first, then
/// the edit form, else the list itself.
pub fn handle_list_engagements(key: Key, app: App) -> (r: App)
    requires
        store_ready(app),
        key == Key::Enter && !app.confirm_delete && app.editing_engagement ==> app.db is Some,
    ensures
        keeps_session(app, r),
        app.confirm_delete ==> engagements_confirm_step(app, r, key),
        !app.confirm_delete && app.editing_engagement ==> engagements_edit_step(app, r, key),
        !app.confirm_delete && !app.editing_engagement ==> engagements_browse_step(app, r, key),
{
    if app.confirm_delete {
        engagements_confirm(key, app)
    } else if app.editing_engagement {
        engagements_edit(key, app)
    } else {
        engagements_browse(key, app)
    }
}

} // verus!

verus! {

// ─── dashboard ──────────────────────────────────────────────────────────────

/// A file to import, as the import form asks for it.
pub struct ImportRequest {
    /// The path of the file.
    pub path: String,
    /// The engagement to import into, when one is named.
    pub engagement: Option<String>,
    /// The target of a plain-text list, when one is named.
    pub target: Option<String>,
}

/// What the interface is to do after a key, beyond the new state.
pub enum Action {
    Nothing,
    /// Show the image at this path inline in the terminal.
    Preview(String),
    /// Open the image at this path with the system's viewer.
    OpenExternally(String),
    /// Write this report to this path.
    SaveReport { content: String, path: String },
    /// Read and import this file.
    Import(ImportRequest),
}

/// Whether `a` saves a report of engagement `e` as store `t` holds it, at
/// its default path.
pub open spec fn saves_report(a: Action, t: Store, e: Engagement) -> bool {
    a matches Action::SaveReport { content, path } && is_report_of(t, e.id@, content@)
        && is_report_path_for(e.name@, path@)
}

/// What the dashboard asks for with its cursor on entry `sel`.
pub open spec fn intent_for(sel: int) -> DashboardIntent {
    if sel == 1 {
        DashboardIntent::Subdomains
    } else if sel == 2 {
        DashboardIntent::IPs
    } else if sel == 3 {
        DashboardIntent::ASNs
    } else if sel == 4 {
        DashboardIntent::URLs
    } else if sel == 5 {
        DashboardIntent::Technologies
    } else if sel == 6 {
        DashboardIntent::Screenshots
    } else {
        DashboardIntent::Targets
    }
}

/// What a key does on the dashboard of an engagement: Esc goes back to the
/// (reloaded) list of engagements, `↓`/`j` and `↑`/`k` move the cursor, `e`
/// exports the engagement's report, Enter remembers what the entry under
/// the cursor asks for and lists the targets to choose one.
pub open spec fn dashboard_step(o: App, f: App, a: Action, k: Key) -> bool {
    if k == Key::Char('e') {
        match o.current_engagement {
            None => f == o && a is Nothing,
            Some(e) => {
                &&& (f == o && saves_report(a, app_tables(o), e)) || (a is Nothing && f == (App {
                    form_error: f.form_error,
                    ..o
                }) && text_starts(f.form_error, "✗ Erro ao exportar: "@))
                &&& !app_tables(o).engagements.contains_key(e.id@) ==> a is Nothing && text_starts(
                    f.form_error,
                    "✗ Erro ao exportar: "@,
                )
            },
        }
    } else {
        &&& a is Nothing
        &&& if k == Key::Esc {
            &&& app_tables(f) == app_tables(o)
            &&& engagements_shown(app_tables(f), f.engagements@)
            &&& f == (App {
                db: f.db,
                engagements: f.engagements,
                screen: Screen::ListEngagements,
                ..o
            })
        } else if is_down(k) {
            f == (App { dashboard_selected: next_index(o.dashboard_selected as int, 7) as usize, ..o })
        } else if is_up(k) {
            f == (App {
                dashboard_selected: previous_index(o.dashboard_selected as int, 7) as usize,
                ..o
            })
        } else if k == Key::Enter {
            &&& app_tables(f) == app_tables(o)
            &&& targets_reloaded(o, f)
            &&& f == (App {
                db: f.db,
                targets: f.targets,
                dashboard_intent: Some(intent_for(o.dashboard_selected as int)),
                target_selected: 0,
                creating_target: false,
                screen: Screen::Targets,
                ..o
            })
        } else {
            f == o
        }
    }
}

/// What the dashboard asks for with its cursor on entry `sel`.
fn intent_of(sel: usize) -> (r: DashboardIntent)
    ensures
        r == intent_for(sel as int),
{
    if sel == 1 {
        DashboardIntent::Subdomains
    } else if sel == 2 {
        DashboardIntent::IPs
    } else if sel == 3 {
        DashboardIntent::ASNs
    } else if sel == 4 {
        DashboardIntent::URLs
    } else if sel == 5 {
        DashboardIntent::Technologies
    } else if sel == 6 {
        DashboardIntent::Screenshots
    } else {
        DashboardIntent::Targets
    }
}

/// Exports the report of the engagement on the dashboard.
fn dashboard_export(app: App) -> (r: (App, Action))
    requires
        session_open(app),
    ensures
        session_open(r.0),
        dashboard_step(app, r.0, r.1, Key::Char('e')),
{
    let (id, name) = match &app.current_engagement {
        Some(e) => (e.id.clone(), e.name.clone()),
        None => return (app, Action::Nothing),
    };
    let exported = match &app.db {
        Some(d) => export_engagement_markdown(d, id.as_str()),
        None => return (app, Action::Nothing),
    };
    match exported {
        Ok(content) => match default_report_path(name.as_str()) {
            Ok(path) => (app, Action::SaveReport { content, path }),
            Err(e) => {
                let mut m = "✗ Erro ao exportar: ".to_owned();
                let detail = e.message();
                push_text(&mut m, detail.as_str());
                assert(m@.subrange(0, "✗ Erro ao exportar: "@.len() as int) =~= "✗ Erro ao exportar: "@);
                (App { form_error: Some(m), ..app }, Action::Nothing)
            },
        },
        Err(e) => {
            let mut m = "✗ Erro ao exportar: ".to_owned();
            let detail = e.message();
            push_text(&mut m, detail.as_str());
            assert(m@.subrange(0, "✗ Erro ao exportar: "@.len() as int) =~= "✗ Erro ao exportar: "@);
            (App { form_error: Some(m), ..app }, Action::Nothing)
        },
    }
}

/// Handles key `key` on the dashboard of an engagement.
pub fn handle_dashboard(key: Key, app: App) -> (r: (App, Action))
    requires
        session_open(app),
    ensures
        session_open(r.0),
        dashboard_step(app, r.0, r.1, key),
{
    match key {
        Key::Char('e') => dashboard_export(app),
        Key::Esc => {
            let engagements = match &app.db {
                Some(d) => engagements_or_empty(d),
                None => app.engagements,
            };
            (App { engagements, screen: Screen::ListEngagements, ..app }, Action::Nothing)
        },
        Key::Down | Key::Char('j') => {
            let sel = step_next(app.dashboard_selected, 7);
            (App { dashboard_selected: sel, ..app }, Action::Nothing)
        },
        Key::Up | Key::Char('k') => {
            let sel = step_previous(app.dashboard_selected, 7);
            (App { dashboard_selected: sel, ..app }, Action::Nothing)
        },
        Key::Enter => {
            let intent = intent_of(app.dashboard_selected);
            let targets = match (&app.current_engagement, &app.db) {
                (Some(e), Some(d)) => targets_or_empty(d, e.id.as_str()),
                _ => app.targets,
            };
            (
                App {
                    targets,
                    dashboard_intent: Some(intent),
                    target_selected: 0,
                    creating_target: false,
                    screen: Screen::Targets,
                    ..app
                },
                Action::Nothing,
            )
        },
        _ => (app, Action::Nothing),
    }
}

/// Records on the dashboard how saving the report at `path` went: `failure`
/// is the message of the error, if writing failed.
pub fn report_saved(app: App, path: &str, failure: Option<String>) -> (r: App)
    ensures
        r == (App { form_error: r.form_error, ..app }),
        text_is(
            r.form_error,
            match failure {
                None => "✓ Exportado: "@ + path@,
                Some(m) => "✗ Erro ao salvar: "@ + m@,
            },
        ),
{
    let m = match &failure {
        None => {
            let mut m = "✓ Exportado: ".to_owned();
            push_text(&mut m, path);
            m
        },
        Some(e) => {
            let mut m = "✗ Erro ao salvar: ".to_owned();
            push_text(&mut m, e.as_str());
            m
        },
    };
    App { form_error: Some(m), ..app }
}

} // verus!
