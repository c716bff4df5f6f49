//! The targets of an engagement and the menu of a target: moving the
//! cursor, creating, renaming and deleting targets, and opening the screen
//! the dashboard asked for.

use vstd::prelude::*;
use crate::app::{App, DashboardIntent, FormField, Screen, next_index, previous_index, step_next, step_previous};
use crate::handle_items::{
    asns_shown, deletion_dropped, form_cleared, form_refused, ips_shown, name_typed,
    store_failure_shown, text_is,
};
use crate::keys::{keeps_session, store_ready, 
    Key, app_tables, asns_or_empty, clamp, clamped, failure_text, ips_or_empty, is_down, is_up,
    session_open, subdomains_or_empty, targets_or_empty, type_key,
};
use crate::models::{NewTarget, Subdomain, Target, UpdateTarget};
use crate::queries::{create_target, delete_target, subdomains_listing, targets_listing, update_target};
use crate::sql::with_target;
use crate::store::Store;
use crate::text::{is_blank, trim_spec, trim_text};

verus! {

/// The target under the cursor, if the cursor is on one.
pub open spec fn target_under_cursor(a: App) -> Option<Target> {
    if a.target_selected < a.targets@.len() {
        Some(a.targets@[a.target_selected as int])
    } else {
        None
    }
}

/// The id of the engagement that the interface shows, empty when none.
pub open spec fn engagement_in_view(a: App) -> Seq<char> {
    match a.current_engagement {
        Some(e) => e.id@,
        None => Seq::empty(),
    }
}

/// Whether `v` is what the target list shows of engagement `engagement_id`:
/// its targets, or nothing when the store failed.
pub open spec fn targets_shown(t: Store, engagement_id: Seq<char>, v: Seq<Target>) -> bool {
    v.len() == 0 || targets_listing(t, engagement_id, v)
}

/// Whether `v` is what the subdomain list shows of target `target_id`: its
/// subdomains, or nothing when the store failed.
pub open spec fn subdomains_shown(t: Store, target_id: Seq<char>, v: Seq<Subdomain>) -> bool {
    v.len() == 0 || subdomains_listing(t, target_id, v)
}

/// Whether the targets of `f` are those of the engagement in view of `o`,
/// reloaded from the store of `f`; unchanged when no engagement is in view.
pub open spec fn targets_reloaded(o: App, f: App) -> bool {
    match o.current_engagement {
        Some(e) => if o.db is Some {
            targets_shown(app_tables(f), e.id@, f.targets@)
        } else {
            f.targets == o.targets
        },
        None => f.targets == o.targets,
    }
}

/// What a key does on the target screen while a deletion waits for
/// confirmation: Enter deletes the target under the cursor (and all it
/// holds) and reloads the list, Esc drops the deletion.
pub open spec fn targets_confirm_step(o: App, f: App, k: Key) -> bool {
    match k {
        Key::Enter => if o.db is None {
            deletion_dropped(o, f)
        } else {
            match target_under_cursor(o) {
                Some(t) => {
                    &&& (app_tables(f) == app_tables(o) || (app_tables(o).targets.contains_key(t.id@)
                        && app_tables(f) == app_tables(o).delete_target(t.id@)))
                    &&& targets_shown(app_tables(f), engagement_in_view(o), f.targets@)
                    &&& f == (App {
                        db: f.db,
                        targets: f.targets,
                        target_selected: clamped(o.target_selected as int, f.targets@.len() as int) as usize,
                        confirm_delete: false,
                        confirm_delete_label: f.confirm_delete_label,
                        ..o
                    })
                    &&& f.confirm_delete_label@.len() == 0
                },
                None => deletion_dropped(o, f),
            }
        },
        Key::Esc => deletion_dropped(o, f),
        _ => f == o,
    }
}

/// What a key does while target `o.editing_item_id` is renamed: Esc leaves
/// the form, Enter saves the domain and reloads the list, other keys edit
/// the domain.
pub open spec fn targets_edit_step(o: App, f: App, k: Key) -> bool {
    match k {
        Key::Esc => f == (App {
            editing_target: false,
            form_name: f.form_name,
            form_description: f.form_description,
            form_field: FormField::Name,
            form_error: None,
            ..o
        }) && form_cleared(f),
        Key::Enter => if trim_spec(o.form_name@).len() == 0 {
            form_refused(o, f, "Domínio é obrigatório"@)
        } else {
            match o.editing_item_id {
                None => f == o,
                Some(id) => {
                    let s0 = app_tables(o);
                    &&& ({
                        &&& s0.targets.contains_key(id@)
                        &&& app_tables(f) == with_target(
                            s0,
                            id@,
                            (s0.targets[id@].0, trim_spec(o.form_name@), s0.targets[id@].2),
                        )
                        &&& targets_reloaded(o, f)
                        &&& f == (App {
                            db: f.db,
                            targets: f.targets,
                            editing_target: false,
                            form_name: f.form_name,
                            form_description: f.form_description,
                            form_field: FormField::Name,
                            form_error: None,
                            ..o
                        })
                        &&& form_cleared(f)
                    } || store_failure_shown(o, f))
                    &&& !s0.targets.contains_key(id@) ==> store_failure_shown(o, f)
                },
            }
        },
        Key::Backspace | Key::Char(_) => name_typed(o, f, k),
        _ => f == o,
    }
}

/// What a key does while a new target is typed: Esc leaves the form, Enter
/// records the domain under the engagement in view and reloads the list,
/// other keys edit the domain.
pub open spec fn targets_create_step(o: App, f: App, k: Key) -> bool {
    match k {
        Key::Esc => f == (App {
            creating_target: false,
            form_name: f.form_name,
            form_description: f.form_description,
            form_field: FormField::Name,
            form_error: None,
            ..o
        }) && form_cleared(f),
        Key::Enter => if trim_spec(o.form_name@).len() == 0 {
            form_refused(o, f, "Domínio é obrigatório"@)
        } else {
            match o.current_engagement {
                None => f == o,
                Some(e) => {
                    let s0 = app_tables(o);
                    &&& ({
                        &&& exists|id: Seq<char>, now: Seq<char>|
                            !s0.targets.contains_key(id) && app_tables(f) == #[trigger] with_target(
                                s0,
                                id,
                                (e.id@, trim_spec(o.form_name@), now),
                            )
                        &&& targets_shown(app_tables(f), e.id@, f.targets@)
                        &&& f == (App {
                            db: f.db,
                            targets: f.targets,
                            creating_target: false,
                            form_name: f.form_name,
                            form_description: f.form_description,
                            form_field: FormField::Name,
                            form_error: None,
                            ..o
                        })
                        &&& form_cleared(f)
                    } || (app_tables(f) == app_tables(o) && form_refused(
                        App { db: f.db, ..o },
                        f,
                        "Já existe um target com esse domínio"@,
                    )))
                    &&& !s0.engagements.contains_key(e.id@) ==> (app_tables(f) == app_tables(o)
                        && text_is(f.form_error, "Já existe um target com esse domínio"@))
                },
            }
        },
        Key::Backspace | Key::Char(_) => name_typed(o, f, k),
        _ => f == o,
    }
}

/// The screen that opening target `t` leads to, as the dashboard asked:
/// the target's menu, or one of its lists; URLs, technologies and
/// screenshots are reached through the subdomains.
pub open spec fn opened_target(o: App, f: App, t: Target) -> bool {
    let s = app_tables(f);
    &&& app_tables(f) == app_tables(o)
    &&& target_navigation(o, f, t)
    &&& if o.db is Some {
        &&& subdomains_shown(s, t.id@, f.subdomains@)
        &&& ips_shown(s, t.id@, f.ips@)
        &&& asns_shown(s, t.id@, f.asns@)
    } else {
        &&& f.subdomains == o.subdomains
        &&& f.ips == o.ips
        &&& f.asns == o.asns
    }
}

/// Whether `f` is `o` with target `t` current and the screen the dashboard
/// asked for shown (its menu by default), the lists of `t` aside.
pub open spec fn target_navigation(o: App, f: App, t: Target) -> bool {
    match o.dashboard_intent {
        Some(DashboardIntent::IPs) => f == (App {
            db: f.db,
            subdomains: f.subdomains,
            ips: f.ips,
            asns: f.asns,
            current_target: Some(t),
            ip_selected: 0,
            creating_ip: false,
            screen: Screen::IPs,
            dashboard_intent: None,
            ..o
        }),
        Some(DashboardIntent::ASNs) => f == (App {
            db: f.db,
            subdomains: f.subdomains,
            ips: f.ips,
            asns: f.asns,
            current_target: Some(t),
            asn_selected: 0,
            creating_asn: false,
            screen: Screen::ASNs,
            dashboard_intent: None,
            ..o
        }),
        Some(DashboardIntent::Targets) | None => f == (App {
            db: f.db,
            subdomains: f.subdomains,
            ips: f.ips,
            asns: f.asns,
            current_target: Some(t),
            target_menu_selected: 0,
            screen: Screen::TargetMenu,
            dashboard_intent: None,
            ..o
        }),
        _ => f == (App {
            db: f.db,
            subdomains: f.subdomains,
            ips: f.ips,
            asns: f.asns,
            current_target: Some(t),
            subdomain_selected: 0,
            subdomain_filter: None,
            creating_subdomain: false,
            screen: Screen::Subdomains,
            dashboard_intent: None,
            ..o
        }),
    }
}

/// What a key does on the target list itself: Esc goes back to the
/// dashboard (forgetting what it asked for, reloading the list), `↓`/`j`
/// and `↑`/`k` move the cursor, Enter opens the target under the cursor,
/// `n` opens a blank form, `d` asks to delete the target under the cursor,
/// `e` opens it for renaming.
pub open spec fn targets_browse_step(o: App, f: App, k: Key) -> bool {
    if k == Key::Esc {
        &&& app_tables(f) == app_tables(o)
        &&& targets_reloaded(o, f)
        &&& f == (App {
            db: f.db,
            targets: f.targets,
            dashboard_intent: None,
            screen: Screen::Dashboard,
            ..o
        })
    } else if is_down(k) {
        f == (App {
            target_selected: next_index(o.target_selected as int, o.targets@.len() as int) as usize,
            ..o
        })
    } else if is_up(k) {
        f == (App {
            target_selected: previous_index(o.target_selected as int, o.targets@.len() as int)
                as usize,
            ..o
        })
    } else if k == Key::Char('n') {
        f == (App {
            creating_target: true,
            form_name: f.form_name,
            form_description: f.form_description,
            form_field: FormField::Name,
            form_error: None,
            ..o
        }) && form_cleared(f)
    } else if k == Key::Enter {
        match target_under_cursor(o) {
            Some(t) => opened_target(o, f, t),
            None => f == o,
        }
    } else if k == Key::Char('d') {
        match target_under_cursor(o) {
            Some(t) => f == (App {
                confirm_delete: true,
                confirm_delete_label: f.confirm_delete_label,
                ..o
            }) && f.confirm_delete_label@ == t.domain@,
            None => f == o,
        }
    } else if k == Key::Char('e') {
        match target_under_cursor(o) {
            Some(t) => f == (App {
                form_name: f.form_name,
                form_error: None,
                editing_item_id: f.editing_item_id,
                editing_target: true,
                ..o
            }) && f.form_name@ == t.domain@ && text_is(f.editing_item_id, t.id@),
            None => f == o,
        }
    } else {
        f == o
    }
}

/// Handles a key while a deletion of a target waits for confirmation.
fn targets_confirm(key: Key, app: App) -> (r: App)
    requires
        store_ready(app),
    ensures
        keeps_session(app, r),
        targets_confirm_step(app, r, key),
{
    match key {
        Key::Enter if app.db.is_none() => App {
            confirm_delete: false,
            confirm_delete_label: String::new(),
            ..app
        },
        Key::Enter => {
            if app.target_selected < app.targets.len() {
                let target_id = app.targets[app.target_selected].id.clone();
                let eng_id = match &app.current_engagement {
                    Some(e) => e.id.clone(),
                    None => String::new(),
                };
                let mut db = app.db;
                let targets = match &mut db {
                    Some(d) => {
                        let _ = delete_target(d, target_id.as_str());
                        targets_or_empty(d, eng_id.as_str())
                    },
                    None => Vec::new(),
                };
                let sel = clamp(app.target_selected, targets.len());
                App {
                    db,
                    targets,
                    target_selected: sel,
                    confirm_delete: false,
                    confirm_delete_label: String::new(),
                    ..app
                }
            } else {
                App { confirm_delete: false, confirm_delete_label: String::new(), ..app }
            }
        },
        Key::Esc => App { confirm_delete: false, confirm_delete_label: String::new(), ..app },
        _ => app,
    }
}

/// Handles a key while a target is renamed.
fn targets_edit(key: Key, app: App) -> (r: App)
    requires
        store_ready(app),
        key == Key::Enter ==> app.db is Some,
    ensures
        keeps_session(app, r),
        targets_edit_step(app, r, key),
{
    match key {
        Key::Esc => App {
            editing_target: false,
            form_name: String::new(),
            form_description: String::new(),
            form_field: FormField::Name,
            form_error: None,
            ..app
        },
        Key::Enter => {
            if is_blank(app.form_name.as_str()) {
                return App { form_error: Some("Domínio é obrigatório".to_owned()), ..app };
            }
            let id = match &app.editing_item_id {
                Some(id) => id.clone(),
                None => return app,
            };
            let update = UpdateTarget { domain: trim_text(app.form_name.as_str()) };
            let eid = match &app.current_engagement {
                Some(e) => Some(e.id.clone()),
                None => None,
            };
            let mut db = app.db;
            let outcome = match &mut db {
                Some(d) => match update_target(d, id.as_str(), update) {
                    Ok(_) => Ok(
                        match eid {
                            Some(e) => Some(targets_or_empty(d, e.as_str())),
                            None => None,
                        },
                    ),
                    Err(e) => Err(failure_text(&e)),
                },
                None => Err(String::new()),
            };
            match outcome {
                Ok(reloaded) => {
                    let targets = match reloaded {
                        Some(v) => v,
                        None => app.targets,
                    };
                    App {
                        db,
                        targets,
                        editing_target: false,
                        form_name: String::new(),
                        form_description: String::new(),
                        form_field: FormField::Name,
                        form_error: None,
                        ..app
                    }
                },
                Err(m) => App { db, form_error: Some(m), ..app },
            }
        },
        Key::Backspace | Key::Char(_) => {
            let mut name = app.form_name;
            type_key(&mut name, key);
            App { form_name: name, form_error: None, ..app }
        },
        _ => app,
    }
}

/// Handles a key while a new target is typed.
fn targets_create(key: Key, app: App) -> (r: App)
    requires
        store_ready(app),
        key == Key::Enter ==> app.db is Some,
    ensures
        keeps_session(app, r),
        targets_create_step(app, r, key),
{
    match key {
        Key::Esc => App {
            creating_target: false,
            form_name: String::new(),
            form_description: String::new(),
            form_field: FormField::Name,
            form_error: None,
            ..app
        },
        Key::Enter => {
            if is_blank(app.form_name.as_str()) {
                return App { form_error: Some("Domínio é obrigatório".to_owned()), ..app };
            }
            let eng_id = match &app.current_engagement {
                Some(e) => e.id.clone(),
                None => return app,
            };
            let new = NewTarget {
                engagement_id: eng_id.clone(),
                domain: trim_text(app.form_name.as_str()),
            };
            let mut db = app.db;
            let outcome = match &mut db {
                Some(d) => match create_target(d, new) {
                    Ok(_) => Some(targets_or_empty(d, eng_id.as_str())),
                    Err(_) => None,
                },
                None => None,
            };
            match outcome {
                Some(targets) => App {
                    db,
                    targets,
                    creating_target: false,
                    form_name: String::new(),
                    form_description: String::new(),
                    form_field: FormField::Name,
                    form_error: None,
                    ..app
                },
                None => App {
                    db,
                    form_error: Some("Já existe um target com esse domínio".to_owned()),
                    ..app
                },
            }
        },
        Key::Backspace | Key::Char(_) => {
            let mut name = app.form_name;
            type_key(&mut name, key);
            App { form_name: name, form_error: None, ..app }
        },
        _ => app,
    }
}

/// Opens target `t`: loads its subdomains, IPs and ASNs and goes where the
/// dashboard asked.
fn open_target(app: App, t: Target) -> (r: App)
    requires
        store_ready(app),
    ensures
        keeps_session(app, r),
        opened_target(app, r, t),
{
    if app.db.is_none() {
        navigate_to_target(app, t)
    } else {
        open_target_in_store(app, t)
    }
}

/// Goes to target `t` where the dashboard asked, with no store to load from.
fn navigate_to_target(app: App, t: Target) -> (r: App)
    ensures
        target_navigation(app, r, t),
        r.subdomains == app.subdomains && r.ips == app.ips && r.asns == app.asns && r.db == app.db,
{
    match app.dashboard_intent {
        Some(DashboardIntent::IPs) => App {
            current_target: Some(t),
            ip_selected: 0,
            creating_ip: false,
            screen: Screen::IPs,
            dashboard_intent: None,
            ..app
        },
        Some(DashboardIntent::ASNs) => App {
            current_target: Some(t),
            asn_selected: 0,
            creating_asn: false,
            screen: Screen::ASNs,
            dashboard_intent: None,
            ..app
        },
        Some(DashboardIntent::Targets) | None => App {
            current_target: Some(t),
            target_menu_selected: 0,
            screen: Screen::TargetMenu,
            dashboard_intent: None,
            ..app
        },
        _ => App {
            current_target: Some(t),
            subdomain_selected: 0,
            subdomain_filter: None,
            creating_subdomain: false,
            screen: Screen::Subdomains,
            dashboard_intent: None,
            ..app
        },
    }
}

/// Opens target `t` with its lists loaded from the store.
fn open_target_in_store(app: App, t: Target) -> (r: App)
    requires
        session_open(app),
    ensures
        session_open(r),
        opened_target(app, r, t),
{
    let (subdomains, ips, asns) = match &app.db {
        Some(d) => (
            subdomains_or_empty(d, t.id.as_str()),
            ips_or_empty(d, t.id.as_str()),
            asns_or_empty(d, t.id.as_str()),
        ),
        None => (Vec::new(), Vec::new(), Vec::new()),
    };
    match app.dashboard_intent {
        Some(DashboardIntent::IPs) => App {
            subdomains,
            ips,
            asns,
            current_target: Some(t),
            ip_selected: 0,
            creating_ip: false,
            screen: Screen::IPs,
            dashboard_intent: None,
            ..app
        },
        Some(DashboardIntent::ASNs) => App {
            subdomains,
            ips,
            asns,
            current_target: Some(t),
            asn_selected: 0,
            creating_asn: false,
            screen: Screen::ASNs,
            dashboard_intent: None,
            ..app
        },
        Some(DashboardIntent::Targets) | None => App {
            subdomains,
            ips,
            asns,
            current_target: Some(t),
            target_menu_selected: 0,
            screen: Screen::TargetMenu,
            dashboard_intent: None,
            ..app
        },
        _ => App {
            subdomains,
            ips,
            asns,
            current_target: Some(t),
            subdomain_selected: 0,
            subdomain_filter: None,
            creating_subdomain: false,
            screen: Screen::Subdomains,
            dashboard_intent: None,
            ..app
        },
    }
}

/// Handles a key on the target list itself.
fn targets_browse(key: Key, app: App) -> (r: App)
    requires
        store_ready(app),
    ensures
        keeps_session(app, r),
        targets_browse_step(app, r, key),
{
    match key {
        Key::Esc => {
            let targets = match (&app.current_engagement, &app.db) {
                (Some(e), Some(d)) => targets_or_empty(d, e.id.as_str()),
                _ => app.targets,
            };
            App { targets, dashboard_intent: None, screen: Screen::Dashboard, ..app }
        },
        Key::Down | Key::Char('j') => {
            let sel = step_next(app.target_selected, app.targets.len());
            App { target_selected: sel, ..app }
        },
        Key::Up | Key::Char('k') => {
            let sel = step_previous(app.target_selected, app.targets.len());
            App { target_selected: sel, ..app }
        },
        Key::Char('n') => App {
            creating_target: true,
            form_name: String::new(),
            form_description: String::new(),
            form_field: FormField::Name,
            form_error: None,
            ..app
        },
        Key::Enter => {
            if app.target_selected < app.targets.len() {
                let t = app.targets[app.target_selected].duplicate();
                open_target(app, t)
            } else {
                app
            }
        },
        Key::Char('d') => {
            if app.target_selected < app.targets.len() {
                let label = app.targets[app.target_selected].domain.clone();
                App { confirm_delete: true, confirm_delete_label: label, ..app }
            } else {
                app
            }
        },
        Key::Char('e') => {
            if app.target_selected < app.targets.len() {
                let domain = app.targets[app.target_selected].domain.clone();
                let id = app.targets[app.target_selected].id.clone();
                App {
                    form_name: domain,
                    form_error: None,
                    editing_item_id: Some(id),
                    editing_target: true,
                    ..app
                }
            } else {
                app
            }
        },
        _ => app,
    }
}

/// Handles key `key` on the target screen: a pending deletion first, then
/// the rename form, then the creation form, else the list itself.
pub fn handle_targets(key: Key, app: App) -> (r: App)
    requires
        store_ready(app),
        key == Key::Enter && !app.confirm_delete && (app.editing_target || app.creating_target) ==> app.db is Some,
    ensures
        keeps_session(app, r),
        app.confirm_delete ==> targets_confirm_step(app, r, key),
        !app.confirm_delete && app.editing_target ==> targets_edit_step(app, r, key),
        !app.confirm_delete && !app.editing_target && app.creating_target ==> targets_create_step(
            app,
            r,
            key,
        ),
        !app.confirm_delete && !app.editing_target && !app.creating_target ==> targets_browse_step(
            app,
            r,
            key,
        ),
{
    if app.confirm_delete {
        targets_confirm(key, app)
    } else if app.editing_target {
        targets_edit(key, app)
    } else if app.creating_target {
        targets_create(key, app)
    } else {
        targets_browse(key, app)
    }
}

/// What a key does on the menu of a target: Esc goes back to the targets,
/// `↓`/`j` and `↑`/`k` move the cursor, Enter opens the subdomains, the IPs
/// or the ASNs.
pub open spec fn target_menu_step(o: App, f: App, k: Key) -> bool {
    if k == Key::Esc {
        f == (App { screen: Screen::Targets, ..o })
    } else if is_down(k) {
        f == (App { target_menu_selected: next_index(o.target_menu_selected as int, 3) as usize, ..o })
    } else if is_up(k) {
        f == (App {
            target_menu_selected: previous_index(o.target_menu_selected as int, 3) as usize,
            ..o
        })
    } else if k == Key::Enter {
        if o.target_menu_selected == 0 {
            f == (App {
                subdomain_selected: 0,
                subdomain_filter: None,
                creating_subdomain: false,
                screen: Screen::Subdomains,
                ..o
            })
        } else if o.target_menu_selected == 1 {
            f == (App { ip_selected: 0, creating_ip: false, screen: Screen::IPs, ..o })
        } else if o.target_menu_selected == 2 {
            f == (App { asn_selected: 0, creating_asn: false, screen: Screen::ASNs, ..o })
        } else {
            f == o
        }
    } else {
        f == o
    }
}

/// Handles key `key` on the menu of a target.
pub fn handle_target_menu(key: Key, app: App) -> (r: App)
    ensures
        target_menu_step(app, r, key),
{
    match key {
        Key::Esc => App { screen: Screen::Targets, ..app },
        Key::Down | Key::Char('j') => {
            let sel = step_next(app.target_menu_selected, 3);
            App { target_menu_selected: sel, ..app }
        },
        Key::Up | Key::Char('k') => {
            let sel = step_previous(app.target_menu_selected, 3);
            App { target_menu_selected: sel, ..app }
        },
        Key::Enter => {
            if app.target_menu_selected == 0 {
                App {
                    subdomain_selected: 0,
                    subdomain_filter: None,
                    creating_subdomain: false,
                    screen: Screen::Subdomains,
                    ..app
                }
            } else if app.target_menu_selected == 1 {
                App { ip_selected: 0, creating_ip: false, screen: Screen::IPs, ..app }
            } else if app.target_menu_selected == 2 {
                App { asn_selected: 0, creating_asn: false, screen: Screen::ASNs, ..app }
            } else {
                app
            }
        },
        _ => app,
    }
}

} // verus!
