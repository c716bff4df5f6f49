//! The screens that list what was found on a target (IPs, ASNs) or on a
//! subdomain (URLs, technologies, screenshots): moving the cursor, creating,
//! editing and deleting entries.

use vstd::prelude::*;
use crate::app::{App, FormField, Screen, next_index, previous_index, step_next, step_previous};
use crate::keys::{keeps_session, store_ready, 
    Key, app_tables, screenshots_listing, screenshots_or_empty, asns_or_empty, technologies_or_empty, urls_or_empty, clamp, clamped, failure_text, ips_or_empty, is_down, is_up,
    optional_text, session_open, trimmed_or_none, type_key, typed,
};
use crate::models::{
    Screenshot, NewScreenshot, Url, NewUrl, UpdateUrl, UrlType, url_type_text, Asn, Ip, NewAsn, NewIp, NewTechnology, Technology, UpdateAsn, UpdateIp, UpdateTechnology,
};
use crate::queries::{
    create_screenshot, delete_screenshot, create_url, delete_url, update_url, urls_listing, create_technology, delete_technology, technologies_listing, update_technology, asns_listing, create_asn, create_ip, delete_asn, delete_ip, ips_listing, update_asn, update_ip,
};
use crate::sql::{with_asn, with_ip, with_screenshot, with_technology, with_url};
use crate::image_preview::{has_image_extension_spec, image_ready};
use crate::textops::path_exists;
use crate::store::{
    Store, asn_taken, asn_taken_by_other, ip_taken, ip_taken_by_other, opt_view, url_taken,
    url_taken_by_other,
};
use crate::text::{is_blank, trim_spec, trim_text};

verus! {

/// The IP under the cursor, if the cursor is on one.
pub open spec fn ip_under_cursor(a: App) -> Option<Ip> {
    if a.ip_selected < a.ips@.len() {
        Some(a.ips@[a.ip_selected as int])
    } else {
        None
    }
}

/// Whether `f` is `o` with the pending deletion dropped.
pub open spec fn deletion_dropped(o: App, f: App) -> bool {
    &&& f == (App { confirm_delete: false, confirm_delete_label: f.confirm_delete_label, ..o })
    &&& f.confirm_delete_label@.len() == 0
}

/// Whether `f` is `o` with the form cleared and `f`'s own values for the
/// fields that the caller names separately.
pub open spec fn form_cleared(f: App) -> bool {
    &&& f.form_name@.len() == 0
    &&& f.form_description@.len() == 0
    &&& f.form_field == FormField::Name
    &&& f.form_error is None
}

/// Whether `o` holds the text `m`.
pub open spec fn text_is(o: Option<String>, m: Seq<char>) -> bool {
    opt_view(o) == Some(m)
}

/// Whether `o` holds a text that starts with `p`.
pub open spec fn text_starts(o: Option<String>, p: Seq<char>) -> bool {
    match o {
        Some(e) => p.is_prefix_of(e@),
        None => false,
    }
}

/// Whether `f` is `o` with the error of the form set to `m`.
pub open spec fn form_refused(o: App, f: App, m: Seq<char>) -> bool {
    f == (App { form_error: f.form_error, ..o }) && text_is(f.form_error, m)
}

/// Whether `f` is `o` with a failure of the store reported in the form: the
/// store is as it was and the error starts with `✗`.
pub open spec fn store_failure_shown(o: App, f: App) -> bool {
    &&& f == (App { db: f.db, form_error: f.form_error, ..o })
    &&& app_tables(f) == app_tables(o)
    &&& text_starts(f.form_error, "✗ "@)
}

/// Whether `f` is `o` with key `k` typed into the name field, clearing the
/// error of the form.
pub open spec fn name_typed(o: App, f: App, k: Key) -> bool {
    f == (App { form_name: f.form_name, form_error: None, ..o }) && f.form_name@ == typed(
        o.form_name@,
        k,
    )
}

/// Whether `v` is what the IP list shows of target `target_id`: its IPs, or
/// nothing when the store failed.
pub open spec fn ips_shown(t: Store, target_id: Seq<char>, v: Seq<Ip>) -> bool {
    v.len() == 0 || ips_listing(t, target_id, v)
}

/// What a key does on the IP screen while a deletion waits for confirmation:
/// Enter deletes the IP under the cursor and reloads the list, Esc drops
/// the deletion.
pub open spec fn ips_confirm_step(o: App, f: App, k: Key) -> bool {
    match k {
        Key::Enter => if o.db is None {
            deletion_dropped(o, f)
        } else {
            match ip_under_cursor(o) {
                Some(ip) => {
                    &&& (app_tables(f) == app_tables(o) || (app_tables(o).ips.contains_key(ip.id@)
                        && app_tables(f) == (Store {
                        ips: app_tables(o).ips.remove(ip.id@),
                        ..app_tables(o)
                    })))
                    &&& ips_shown(app_tables(f), ip.target_id@, f.ips@)
                    &&& f == (App {
                        db: f.db,
                        ips: f.ips,
                        ip_selected: clamped(o.ip_selected as int, f.ips@.len() as int) as usize,
                        confirm_delete: false,
                        confirm_delete_label: f.confirm_delete_label,
                        ..o
                    })
                    &&& f.confirm_delete_label@.len() == 0
                },
                None => deletion_dropped(o, f),
            }
        },
        Key::Esc => deletion_dropped(o, f),
        _ => f == o,
    }
}

/// What a key does while IP `o.editing_item_id` is edited: Esc leaves the
/// form, Enter saves the address and reloads the list of the current
/// target, other keys edit the address.
pub open spec fn ips_edit_step(o: App, f: App, k: Key) -> bool {
    match k {
        Key::Esc => f == (App {
            editing_ip: false,
            form_name: f.form_name,
            form_description: f.form_description,
            form_field: FormField::Name,
            form_error: None,
            ..o
        }) && form_cleared(f),
        Key::Enter => if trim_spec(o.form_name@).len() == 0 {
            form_refused(o, f, "IP é obrigatório"@)
        } else {
            match o.editing_item_id {
                None => f == o,
                Some(id) => {
                    let s0 = app_tables(o);
                    let ip = trim_spec(o.form_name@);
                    &&& ({
                        &&& s0.ips.contains_key(id@)
                        &&& !ip_taken_by_other(s0, id@, ip)
                        &&& app_tables(f) == with_ip(s0, id@, (s0.ips[id@].0, ip, s0.ips[id@].2))
                        &&& match o.current_target {
                            Some(t) => ips_shown(app_tables(f), t.id@, f.ips@),
                            None => f.ips == o.ips,
                        }
                        &&& f == (App {
                            db: f.db,
                            ips: f.ips,
                            editing_ip: false,
                            form_name: f.form_name,
                            form_description: f.form_description,
                            form_field: FormField::Name,
                            form_error: None,
                            ..o
                        })
                        &&& form_cleared(f)
                    } || store_failure_shown(o, f))
                    &&& !s0.ips.contains_key(id@) || ip_taken_by_other(s0, id@, ip)
                        ==> store_failure_shown(o, f)
                },
            }
        },
        Key::Backspace | Key::Char(_) => name_typed(o, f, k),
        _ => f == o,
    }
}

/// What a key does while a new IP is typed: Esc leaves the form, Enter
/// records the IP on the current target and reloads its list, other keys
/// edit the address.
pub open spec fn ips_create_step(o: App, f: App, k: Key) -> bool {
    match k {
        Key::Esc => f == (App {
            creating_ip: false,
            form_name: f.form_name,
            form_description: f.form_description,
            form_field: FormField::Name,
            form_error: None,
            ..o
        }) && form_cleared(f),
        Key::Enter => if trim_spec(o.form_name@).len() == 0 {
            form_refused(o, f, "IP é obrigatório"@)
        } else {
            match o.current_target {
                None => f == o,
                Some(t) => {
                    let s0 = app_tables(o);
                    let ip = trim_spec(o.form_name@);
                    &&& ({
                        &&& exists|id: Seq<char>, now: Seq<char>|
                            !s0.ips.contains_key(id) && app_tables(f) == #[trigger] with_ip(
                                s0,
                                id,
                                (t.id@, ip, now),
                            )
                        &&& ips_shown(app_tables(f), t.id@, f.ips@)
                        &&& f == (App {
                            db: f.db,
                            ips: f.ips,
                            creating_ip: false,
                            form_name: f.form_name,
                            form_description: f.form_description,
                            form_field: FormField::Name,
                            form_error: None,
                            ..o
                        })
                        &&& form_cleared(f)
                    } || (app_tables(f) == app_tables(o) && form_refused(
                        App { db: f.db, ..o },
                        f,
                        "IP já existe neste target"@,
                    )))
                    &&& ip_taken(s0, t.id@, ip) || !s0.targets.contains_key(t.id@) ==> (app_tables(f)
                        == app_tables(o) && text_is(f.form_error, "IP já existe neste target"@))
                },
            }
        },
        Key::Backspace | Key::Char(_) => name_typed(o, f, k),
        _ => f == o,
    }
}

/// What a key does on the IP list itself: Esc goes back to the dashboard,
/// `↓`/`j` and `↑`/`k` move the cursor, `n` opens a blank form, `d` asks to
/// delete the IP under the cursor, `e` opens it for editing.
pub open spec fn ips_browse_step(o: App, f: App, k: Key) -> bool {
    if k == Key::Esc {
        f == (App { screen: Screen::Dashboard, ..o })
    } else if is_down(k) {
        f == (App { ip_selected: next_index(o.ip_selected as int, o.ips@.len() as int) as usize, ..o })
    } else if is_up(k) {
        f == (App {
            ip_selected: previous_index(o.ip_selected as int, o.ips@.len() as int) as usize,
            ..o
        })
    } else if k == Key::Char('n') {
        f == (App {
            creating_ip: true,
            form_name: f.form_name,
            form_description: f.form_description,
            form_field: FormField::Name,
            form_error: None,
            ..o
        }) && form_cleared(f)
    } else if k == Key::Char('d') {
        match ip_under_cursor(o) {
            Some(ip) => f == (App {
                confirm_delete: true,
                confirm_delete_label: f.confirm_delete_label,
                ..o
            }) && f.confirm_delete_label@ == ip.ip@,
            None => f == o,
        }
    } else if k == Key::Char('e') {
        match ip_under_cursor(o) {
            Some(ip) => f == (App {
                form_name: f.form_name,
                form_error: None,
                editing_item_id: f.editing_item_id,
                editing_ip: true,
                ..o
            }) && f.form_name@ == ip.ip@ && text_is(f.editing_item_id, ip.id@),
            None => f == o,
        }
    } else {
        f == o
    }
}

/// Handles a key while a deletion of an IP waits for confirmation.
fn ips_confirm(key: Key, app: App) -> (r: App)
    requires
        store_ready(app),
    ensures
        keeps_session(app, r),
        ips_confirm_step(app, r, key),
{
    match key {
        Key::Enter if app.db.is_none() => App {
            confirm_delete: false,
            confirm_delete_label: String::new(),
            ..app
        },
        Key::Enter => {
            if app.ip_selected < app.ips.len() {
                let ip_id = app.ips[app.ip_selected].id.clone();
                let target_id = app.ips[app.ip_selected].target_id.clone();
                let mut db = app.db;
                let ips = match &mut db {
                    Some(d) => {
                        let _ = delete_ip(d, ip_id.as_str());
                        ips_or_empty(d, target_id.as_str())
                    },
                    None => Vec::new(),
                };
                let sel = clamp(app.ip_selected, ips.len());
                App {
                    db,
                    ips,
                    ip_selected: sel,
                    confirm_delete: false,
                    confirm_delete_label: String::new(),
                    ..app
                }
            } else {
                App { confirm_delete: false, confirm_delete_label: String::new(), ..app }
            }
        },
        Key::Esc => App { confirm_delete: false, confirm_delete_label: String::new(), ..app },
        _ => app,
    }
}

/// Handles a key while an IP is edited.
fn ips_edit(key: Key, app: App) -> (r: App)
    requires
        store_ready(app),
        key == Key::Enter ==> app.db is Some,
    ensures
        keeps_session(app, r),
        ips_edit_step(app, r, key),
{
    match key {
        Key::Esc => App {
            editing_ip: false,
            form_name: String::new(),
            form_description: String::new(),
            form_field: FormField::Name,
            form_error: None,
            ..app
        },
        Key::Enter => {
            if is_blank(app.form_name.as_str()) {
                return App { form_error: Some("IP é obrigatório".to_owned()), ..app };
            }
            let id = match &app.editing_item_id {
                Some(id) => id.clone(),
                None => return app,
            };
            let ip = trim_text(app.form_name.as_str());
            let tid = match &app.current_target {
                Some(t) => Some(t.id.clone()),
                None => None,
            };
            let mut db = app.db;
            let outcome = match &mut db {
                Some(d) => match update_ip(d, id.as_str(), UpdateIp { ip }) {
                    Ok(_) => Ok(
                        match tid {
                            Some(t) => Some(ips_or_empty(d, t.as_str())),
                            None => None,
                        },
                    ),
                    Err(e) => Err(failure_text(&e)),
                },
                None => Err(String::new()),
            };
            match outcome {
                Ok(reloaded) => {
                    let ips = match reloaded {
                        Some(v) => v,
                        None => app.ips,
                    };
                    App {
                        db,
                        ips,
                        editing_ip: false,
                        form_name: String::new(),
                        form_description: String::new(),
                        form_field: FormField::Name,
                        form_error: None,
                        ..app
                    }
                },
                Err(m) => App { db, form_error: Some(m), ..app },
            }
        },
        Key::Backspace | Key::Char(_) => {
            let mut name = app.form_name;
            type_key(&mut name, key);
            App { form_name: name, form_error: None, ..app }
        },
        _ => app,
    }
}

/// Handles a key while a new IP is typed.
fn ips_create(key: Key, app: App) -> (r: App)
    requires
        store_ready(app),
        key == Key::Enter ==> app.db is Some,
    ensures
        keeps_session(app, r),
        ips_create_step(app, r, key),
{
    match key {
        Key::Esc => App {
            creating_ip: false,
            form_name: String::new(),
            form_description: String::new(),
            form_field: FormField::Name,
            form_error: None,
            ..app
        },
        Key::Enter => {
            if is_blank(app.form_name.as_str()) {
                return App { form_error: Some("IP é obrigatório".to_owned()), ..app };
            }
            let target_id = match &app.current_target {
                Some(t) => t.id.clone(),
                None => return app,
            };
            let new = NewIp { target_id: target_id.clone(), ip: trim_text(app.form_name.as_str()) };
            let mut db = app.db;
            let outcome = match &mut db {
                Some(d) => match create_ip(d, new) {
                    Ok(_) => Some(ips_or_empty(d, target_id.as_str())),
                    Err(_) => None,
                },
                None => None,
            };
            match outcome {
                Some(ips) => App {
                    db,
                    ips,
                    creating_ip: false,
                    form_name: String::new(),
                    form_description: String::new(),
                    form_field: FormField::Name,
                    form_error: None,
                    ..app
                },
                None => App { db, form_error: Some("IP já existe neste target".to_owned()), ..app },
            }
        },
        Key::Backspace | Key::Char(_) => {
            let mut name = app.form_name;
            type_key(&mut name, key);
            App { form_name: name, form_error: None, ..app }
        },
        _ => app,
    }
}

/// Handles a key on the IP list itself.
fn ips_browse(key: Key, app: App) -> (r: App)
    requires
        store_ready(app),
    ensures
        keeps_session(app, r),
        ips_browse_step(app, r, key),
{
    match key {
        Key::Esc => App { screen: Screen::Dashboard, ..app },
        Key::Down | Key::Char('j') => {
            let sel = step_next(app.ip_selected, app.ips.len());
            App { ip_selected: sel, ..app }
        },
        Key::Up | Key::Char('k') => {
            let sel = step_previous(app.ip_selected, app.ips.len());
            App { ip_selected: sel, ..app }
        },
        Key::Char('n') => App {
            creating_ip: true,
            form_name: String::new(),
            form_description: String::new(),
            form_field: FormField::Name,
            form_error: None,
            ..app
        },
        Key::Char('d') => {
            if app.ip_selected < app.ips.len() {
                let label = app.ips[app.ip_selected].ip.clone();
                App { confirm_delete: true, confirm_delete_label: label, ..app }
            } else {
                app
            }
        },
        Key::Char('e') => {
            if app.ip_selected < app.ips.len() {
                let ip = app.ips[app.ip_selected].ip.clone();
                let id = app.ips[app.ip_selected].id.clone();
                App { form_name: ip, form_error: None, editing_item_id: Some(id), editing_ip: true, ..app }
            } else {
                app
            }
        },
        _ => app,
    }
}

/// Handles key `key` on the IP screen: a pending deletion first, then the
/// edit form, then the creation form, else the list itself.
pub fn handle_ips(key: Key, app: App) -> (r: App)
    requires
        store_ready(app),
        key == Key::Enter && !app.confirm_delete && (app.editing_ip || app.creating_ip) ==> app.db is Some,
    ensures
        keeps_session(app, r),
        app.confirm_delete ==> ips_confirm_step(app, r, key),
        !app.confirm_delete && app.editing_ip ==> ips_edit_step(app, r, key),
        !app.confirm_delete && !app.editing_ip && app.creating_ip ==> ips_create_step(app, r, key),
        !app.confirm_delete && !app.editing_ip && !app.creating_ip ==> ips_browse_step(app, r, key),
{
    if app.confirm_delete {
        ips_confirm(key, app)
    } else if app.editing_ip {
        ips_edit(key, app)
    } else if app.creating_ip {
        ips_create(key, app)
    } else {
        ips_browse(key, app)
    }
}

} // verus!

verus! {

// ─── ASNs ───────────────────────────────────────────────────────────────────

/// The ASN under the cursor, if the cursor is on one.
pub open spec fn asn_under_cursor(a: App) -> Option<Asn> {
    if a.asn_selected < a.asns@.len() {
        Some(a.asns@[a.asn_selected as int])
    } else {
        None
    }
}

/// Whether `v` is what the ASN list shows of target `target_id`: its ASNs,
/// or nothing when the store failed.
pub open spec fn asns_shown(t: Store, target_id: Seq<char>, v: Seq<Asn>) -> bool {
    v.len() == 0 || asns_listing(t, target_id, v)
}

/// Whether `f` is `o` with key `k` typed into the active field of the ASN
/// form (the number, or the organisation), clearing the error of the form.
pub open spec fn asn_form_typed(o: App, f: App, k: Key) -> bool {
    match o.form_field {
        FormField::Name => name_typed(o, f, k),
        FormField::Description => f == (App { form_org: f.form_org, form_error: None, ..o })
            && f.form_org@ == typed(o.form_org@, k),
        _ => f == (App { form_error: None, ..o }),
    }
}

/// Whether `f` is `o` with the ASN form closed and cleared, and `f`'s own
/// values for the fields that the caller names separately.
pub open spec fn asn_form_closed(f: App) -> bool {
    form_cleared(f) && f.form_org@.len() == 0
}

/// What a key does on the ASN screen while a deletion waits for
/// confirmation: Enter deletes the ASN under the cursor and reloads the
/// list, Esc drops the deletion.
pub open spec fn asns_confirm_step(o: App, f: App, k: Key) -> bool {
    match k {
        Key::Enter => if o.db is None {
            deletion_dropped(o, f)
        } else {
            match asn_under_cursor(o) {
                Some(asn) => {
                    &&& (app_tables(f) == app_tables(o) || (app_tables(o).asns.contains_key(asn.id@)
                        && app_tables(f) == (Store {
                        asns: app_tables(o).asns.remove(asn.id@),
                        ..app_tables(o)
                    })))
                    &&& asns_shown(app_tables(f), asn.target_id@, f.asns@)
                    &&& f == (App {
                        db: f.db,
                        asns: f.asns,
                        asn_selected: clamped(o.asn_selected as int, f.asns@.len() as int) as usize,
                        confirm_delete: false,
                        confirm_delete_label: f.confirm_delete_label,
                        ..o
                    })
                    &&& f.confirm_delete_label@.len() == 0
                },
                None => deletion_dropped(o, f),
            }
        },
        Key::Esc => deletion_dropped(o, f),
        _ => f == o,
    }
}

/// What a key does while ASN `o.editing_item_id` is edited: Esc leaves the
/// form, Tab switches field, Enter saves number and organisation and reloads
/// the list of the current target, other keys edit the active field.
pub open spec fn asns_edit_step(o: App, f: App, k: Key) -> bool {
    match k {
        Key::Esc => f == (App {
            editing_asn: false,
            form_name: f.form_name,
            form_description: f.form_description,
            form_field: FormField::Name,
            form_error: None,
            form_org: f.form_org,
            ..o
        }) && asn_form_closed(f),
        Key::Tab => f == (App {
            form_field: match o.form_field {
                FormField::Name => FormField::Description,
                _ => FormField::Name,
            },
            ..o
        }),
        Key::Enter => if trim_spec(o.form_name@).len() == 0 {
            form_refused(o, f, "ASN é obrigatório"@)
        } else {
            match o.editing_item_id {
                None => f == o,
                Some(id) => {
                    let s0 = app_tables(o);
                    let asn = trim_spec(o.form_name@);
                    &&& ({
                        &&& s0.asns.contains_key(id@)
                        &&& !asn_taken_by_other(s0, id@, asn)
                        &&& app_tables(f) == with_asn(
                            s0,
                            id@,
                            (s0.asns[id@].0, asn, trimmed_or_none(o.form_org@), s0.asns[id@].3),
                        )
                        &&& match o.current_target {
                            Some(t) => asns_shown(app_tables(f), t.id@, f.asns@),
                            None => f.asns == o.asns,
                        }
                        &&& f == (App {
                            db: f.db,
                            asns: f.asns,
                            editing_asn: false,
                            form_name: f.form_name,
                            form_description: f.form_description,
                            form_field: FormField::Name,
                            form_error: None,
                            form_org: f.form_org,
                            ..o
                        })
                        &&& asn_form_closed(f)
                    } || store_failure_shown(o, f))
                    &&& !s0.asns.contains_key(id@) || asn_taken_by_other(s0, id@, asn)
                        ==> store_failure_shown(o, f)
                },
            }
        },
        Key::Backspace | Key::Char(_) => asn_form_typed(o, f, k),
        _ => f == o,
    }
}

/// What a key does while a new ASN is typed: Esc leaves the form, Tab
/// switches field, Enter records the ASN on the current target and reloads
/// its list, other keys edit the active field.
pub open spec fn asns_create_step(o: App, f: App, k: Key) -> bool {
    match k {
        Key::Esc => f == (App {
            creating_asn: false,
            form_name: f.form_name,
            form_description: f.form_description,
            form_field: FormField::Name,
            form_error: None,
            form_org: f.form_org,
            ..o
        }) && asn_form_closed(f),
        Key::Tab => f == (App {
            form_field: match o.form_field {
                FormField::Name => FormField::Description,
                _ => FormField::Name,
            },
            ..o
        }),
        Key::Enter => if trim_spec(o.form_name@).len() == 0 {
            form_refused(o, f, "ASN é obrigatório"@)
        } else {
            match o.current_target {
                None => f == o,
                Some(t) => {
                    let s0 = app_tables(o);
                    let asn = trim_spec(o.form_name@);
                    &&& ({
                        &&& exists|id: Seq<char>, now: Seq<char>|
                            !s0.asns.contains_key(id) && app_tables(f) == #[trigger] with_asn(
                                s0,
                                id,
                                (t.id@, asn, trimmed_or_none(o.form_org@), now),
                            )
                        &&& asns_shown(app_tables(f), t.id@, f.asns@)
                        &&& f == (App {
                            db: f.db,
                            asns: f.asns,
                            creating_asn: false,
                            form_name: f.form_name,
                            form_description: f.form_description,
                            form_field: FormField::Name,
                            form_error: None,
                            form_org: f.form_org,
                            ..o
                        })
                        &&& asn_form_closed(f)
                    } || (app_tables(f) == app_tables(o) && form_refused(
                        App { db: f.db, ..o },
                        f,
                        "ASN já existe neste target"@,
                    )))
                    &&& asn_taken(s0, t.id@, asn) || !s0.targets.contains_key(t.id@) ==> (
                    app_tables(f) == app_tables(o) && text_is(
                        f.form_error,
                        "ASN já existe neste target"@,
                    ))
                },
            }
        },
        Key::Backspace | Key::Char(_) => asn_form_typed(o, f, k),
        _ => f == o,
    }
}

/// What a key does on the ASN list itself: Esc goes back to the dashboard,
/// `↓`/`j` and `↑`/`k` move the cursor, `n` opens a blank form, `d` asks to
/// delete the ASN under the cursor, `e` opens it for editing.
pub open spec fn asns_browse_step(o: App, f: App, k: Key) -> bool {
    if k == Key::Esc {
        f == (App { screen: Screen::Dashboard, ..o })
    } else if is_down(k) {
        f == (App {
            asn_selected: next_index(o.asn_selected as int, o.asns@.len() as int) as usize,
            ..o
        })
    } else if is_up(k) {
        f == (App {
            asn_selected: previous_index(o.asn_selected as int, o.asns@.len() as int) as usize,
            ..o
        })
    } else if k == Key::Char('n') {
        f == (App {
            creating_asn: true,
            form_name: f.form_name,
            form_description: f.form_description,
            form_field: FormField::Name,
            form_error: None,
            form_org: f.form_org,
            ..o
        }) && asn_form_closed(f)
    } else if k == Key::Char('d') {
        match asn_under_cursor(o) {
            Some(asn) => f == (App {
                confirm_delete: true,
                confirm_delete_label: f.confirm_delete_label,
                ..o
            }) && f.confirm_delete_label@ == asn.asn@,
            None => f == o,
        }
    } else if k == Key::Char('e') {
        match asn_under_cursor(o) {
            Some(asn) => f == (App {
                form_name: f.form_name,
                form_org: f.form_org,
                form_field: FormField::Name,
                form_error: None,
                editing_item_id: f.editing_item_id,
                editing_asn: true,
                ..o
            }) && f.form_name@ == asn.asn@ && f.form_org@ == (match asn.org {
                Some(g) => g@,
                None => Seq::empty(),
            }) && text_is(f.editing_item_id, asn.id@),
            None => f == o,
        }
    } else {
        f == o
    }
}

/// Types key `k` into the active field of the ASN form.
fn asn_form_type(key: Key, app: App) -> (r: App)
    ensures
        asn_form_typed(app, r, key),
{
    match app.form_field {
        FormField::Name => {
            let mut name = app.form_name;
            type_key(&mut name, key);
            App { form_name: name, form_error: None, ..app }
        },
        FormField::Description => {
            let mut org = app.form_org;
            type_key(&mut org, key);
            App { form_org: org, form_error: None, ..app }
        },
        _ => App { form_error: None, ..app },
    }
}

/// The field of a two-field form after Tab.
fn other_field(f: FormField) -> (r: FormField)
    ensures
        r == match f {
            FormField::Name => FormField::Description,
            _ => FormField::Name,
        },
{
    match f {
        FormField::Name => FormField::Description,
        _ => FormField::Name,
    }
}

/// Handles a key while a deletion of an ASN waits for confirmation.
fn asns_confirm(key: Key, app: App) -> (r: App)
    requires
        store_ready(app),
    ensures
        keeps_session(app, r),
        asns_confirm_step(app, r, key),
{
    match key {
        Key::Enter if app.db.is_none() => App {
            confirm_delete: false,
            confirm_delete_label: String::new(),
            ..app
        },
        Key::Enter => {
            if app.asn_selected < app.asns.len() {
                let asn_id = app.asns[app.asn_selected].id.clone();
                let target_id = app.asns[app.asn_selected].target_id.clone();
                let mut db = app.db;
                let asns = match &mut db {
                    Some(d) => {
                        let _ = delete_asn(d, asn_id.as_str());
                        asns_or_empty(d, target_id.as_str())
                    },
                    None => Vec::new(),
                };
                let sel = clamp(app.asn_selected, asns.len());
                App {
                    db,
                    asns,
                    asn_selected: sel,
                    confirm_delete: false,
                    confirm_delete_label: String::new(),
                    ..app
                }
            } else {
                App { confirm_delete: false, confirm_delete_label: String::new(), ..app }
            }
        },
        Key::Esc => App { confirm_delete: false, confirm_delete_label: String::new(), ..app },
        _ => app,
    }
}

/// Handles a key while an ASN is edited.
fn asns_edit(key: Key, app: App) -> (r: App)
    requires
        store_ready(app),
        key == Key::Enter ==> app.db is Some,
    ensures
        keeps_session(app, r),
        asns_edit_step(app, r, key),
{
    match key {
        Key::Esc => App {
            editing_asn: false,
            form_name: String::new(),
            form_description: String::new(),
            form_field: FormField::Name,
            form_error: None,
            form_org: String::new(),
            ..app
        },
        Key::Tab => {
            let field = other_field(app.form_field);
            App { form_field: field, ..app }
        },
        Key::Enter => {
            if is_blank(app.form_name.as_str()) {
                return App { form_error: Some("ASN é obrigatório".to_owned()), ..app };
            }
            let id = match &app.editing_item_id {
                Some(id) => id.clone(),
                None => return app,
            };
            let update = UpdateAsn {
                asn: trim_text(app.form_name.as_str()),
                org: optional_text(app.form_org.as_str()),
            };
            let tid = match &app.current_target {
                Some(t) => Some(t.id.clone()),
                None => None,
            };
            let mut db = app.db;
            let outcome = match &mut db {
                Some(d) => match update_asn(d, id.as_str(), update) {
                    Ok(_) => Ok(
                        match tid {
                            Some(t) => Some(asns_or_empty(d, t.as_str())),
                            None => None,
                        },
                    ),
                    Err(e) => Err(failure_text(&e)),
                },
                None => Err(String::new()),
            };
            match outcome {
                Ok(reloaded) => {
                    let asns = match reloaded {
                        Some(v) => v,
                        None => app.asns,
                    };
                    App {
                        db,
                        asns,
                        editing_asn: false,
                        form_name: String::new(),
                        form_description: String::new(),
                        form_field: FormField::Name,
                        form_error: None,
                        form_org: String::new(),
                        ..app
                    }
                },
                Err(m) => App { db, form_error: Some(m), ..app },
            }
        },
        Key::Backspace | Key::Char(_) => asn_form_type(key, app),
        _ => app,
    }
}

/// Handles a key while a new ASN is typed.
fn asns_create(key: Key, app: App) -> (r: App)
    requires
        store_ready(app),
        key == Key::Enter ==> app.db is Some,
    ensures
        keeps_session(app, r),
        asns_create_step(app, r, key),
{
    match key {
        Key::Esc => App {
            creating_asn: false,
            form_name: String::new(),
            form_description: String::new(),
            form_field: FormField::Name,
            form_error: None,
            form_org: String::new(),
            ..app
        },
        Key::Tab => {
            let field = other_field(app.form_field);
            App { form_field: field, ..app }
        },
        Key::Enter => {
            if is_blank(app.form_name.as_str()) {
                return App { form_error: Some("ASN é obrigatório".to_owned()), ..app };
            }
            let target_id = match &app.current_target {
                Some(t) => t.id.clone(),
                None => return app,
            };
            let new = NewAsn {
                target_id: target_id.clone(),
                asn: trim_text(app.form_name.as_str()),
                org: optional_text(app.form_org.as_str()),
            };
            let mut db = app.db;
            let outcome = match &mut db {
                Some(d) => match create_asn(d, new) {
                    Ok(_) => Some(asns_or_empty(d, target_id.as_str())),
                    Err(_) => None,
                },
                None => None,
            };
            match outcome {
                Some(asns) => App {
                    db,
                    asns,
                    creating_asn: false,
                    form_name: String::new(),
                    form_description: String::new(),
                    form_field: FormField::Name,
                    form_error: None,
                    form_org: String::new(),
                    ..app
                },
                None => App { db, form_error: Some("ASN já existe neste target".to_owned()), ..app },
            }
        },
        Key::Backspace | Key::Char(_) => asn_form_type(key, app),
        _ => app,
    }
}

/// Handles a key on the ASN list itself.
fn asns_browse(key: Key, app: App) -> (r: App)
    requires
        store_ready(app),
    ensures
        keeps_session(app, r),
        asns_browse_step(app, r, key),
{
    match key {
        Key::Esc => App { screen: Screen::Dashboard, ..app },
        Key::Down | Key::Char('j') => {
            let sel = step_next(app.asn_selected, app.asns.len());
            App { asn_selected: sel, ..app }
        },
        Key::Up | Key::Char('k') => {
            let sel = step_previous(app.asn_selected, app.asns.len());
            App { asn_selected: sel, ..app }
        },
        Key::Char('n') => App {
            creating_asn: true,
            form_name: String::new(),
            form_description: String::new(),
            form_field: FormField::Name,
            form_error: None,
            form_org: String::new(),
            ..app
        },
        Key::Char('d') => {
            if app.asn_selected < app.asns.len() {
                let label = app.asns[app.asn_selected].asn.clone();
                App { confirm_delete: true, confirm_delete_label: label, ..app }
            } else {
                app
            }
        },
        Key::Char('e') => {
            if app.asn_selected < app.asns.len() {
                let asn = app.asns[app.asn_selected].asn.clone();
                let org = match &app.asns[app.asn_selected].org {
                    Some(g) => g.clone(),
                    None => String::new(),
                };
                let id = app.asns[app.asn_selected].id.clone();
                App {
                    form_name: asn,
                    form_org: org,
                    form_field: FormField::Name,
                    form_error: None,
                    editing_item_id: Some(id),
                    editing_asn: true,
                    ..app
                }
            } else {
                app
            }
        },
        _ => app,
    }
}

/// Handles key `key` on the ASN screen: a pending deletion first, then the
/// edit form, then the creation form, else the list itself.
pub fn handle_asns(key: Key, app: App) -> (r: App)
    requires
        store_ready(app),
        key == Key::Enter && !app.confirm_delete && (app.editing_asn || app.creating_asn) ==> app.db is Some,
    ensures
        keeps_session(app, r),
        app.confirm_delete ==> asns_confirm_step(app, r, key),
        !app.confirm_delete && app.editing_asn ==> asns_edit_step(app, r, key),
        !app.confirm_delete && !app.editing_asn && app.creating_asn ==> asns_create_step(app, r, key),
        !app.confirm_delete && !app.editing_asn && !app.creating_asn ==> asns_browse_step(app, r, key),
{
    if app.confirm_delete {
        asns_confirm(key, app)
    } else if app.editing_asn {
        asns_edit(key, app)
    } else if app.creating_asn {
        asns_create(key, app)
    } else {
        asns_browse(key, app)
    }
}

} // verus!

verus! {

// ─── technologies ───────────────────────────────────────────────────────────────────

/// The technology under the cursor, if the cursor is on one.
pub open spec fn technology_under_cursor(a: App) -> Option<Technology> {
    if a.technology_selected < a.technologies@.len() {
        Some(a.technologies@[a.technology_selected as int])
    } else {
        None
    }
}

/// Whether `v` is what the technology list shows of subdomain
/// `subdomain_id`: its technologies, or nothing when the store failed.
pub open spec fn technologies_shown(t: Store, subdomain_id: Seq<char>, v: Seq<Technology>) -> bool {
    v.len() == 0 || technologies_listing(t, subdomain_id, v)
}

/// Whether `f` is `o` with key `k` typed into the active field of the technology
/// form (the name, or the version), clearing the error of the form.
pub open spec fn technology_form_typed(o: App, f: App, k: Key) -> bool {
    match o.form_field {
        FormField::Name => name_typed(o, f, k),
        FormField::Description => f == (App { form_version: f.form_version, form_error: None, ..o })
            && f.form_version@ == typed(o.form_version@, k),
        _ => f == (App { form_error: None, ..o }),
    }
}

/// Whether `f` is `o` with the technology form closed and cleared, and `f`'s own
/// values for the fields that the caller names separately.
pub open spec fn technology_form_closed(f: App) -> bool {
    form_cleared(f) && f.form_version@.len() == 0
}

/// What a key does on the technology screen while a deletion waits for
/// confirmation: Enter deletes the technology under the cursor and reloads the
/// list, Esc drops the deletion.
pub open spec fn technologies_confirm_step(o: App, f: App, k: Key) -> bool {
    match k {
        Key::Enter => if o.db is None {
            deletion_dropped(o, f)
        } else {
            match technology_under_cursor(o) {
                Some(tech) => {
                    &&& (app_tables(f) == app_tables(o) || (app_tables(o).technologies.contains_key(tech.id@)
                        && app_tables(f) == (Store {
                        technologies: app_tables(o).technologies.remove(tech.id@),
                        ..app_tables(o)
                    })))
                    &&& technologies_shown(app_tables(f), tech.subdomain_id@, f.technologies@)
                    &&& f == (App {
                        db: f.db,
                        technologies: f.technologies,
                        technology_selected: clamped(o.technology_selected as int, f.technologies@.len() as int) as usize,
                        confirm_delete: false,
                        confirm_delete_label: f.confirm_delete_label,
                        ..o
                    })
                    &&& f.confirm_delete_label@.len() == 0
                },
                None => deletion_dropped(o, f),
            }
        },
        Key::Esc => deletion_dropped(o, f),
        _ => f == o,
    }
}

/// What a key does while technology `o.editing_item_id` is edited: Esc leaves the
/// form, Tab switches field, Enter saves name and version and reloads
/// the list of the current subdomain, other keys edit the active field.
pub open spec fn technologies_edit_step(o: App, f: App, k: Key) -> bool {
    match k {
        Key::Esc => f == (App {
            editing_technology: false,
            form_name: f.form_name,
            form_description: f.form_description,
            form_field: FormField::Name,
            form_error: None,
            form_version: f.form_version,
            ..o
        }) && technology_form_closed(f),
        Key::Tab => f == (App {
            form_field: match o.form_field {
                FormField::Name => FormField::Description,
                _ => FormField::Name,
            },
            ..o
        }),
        Key::Enter => if trim_spec(o.form_name@).len() == 0 {
            form_refused(o, f, "Nome é obrigatório"@)
        } else {
            match o.editing_item_id {
                None => f == o,
                Some(id) => {
                    let s0 = app_tables(o);
                    let name = trim_spec(o.form_name@);
                    &&& ({
                        &&& s0.technologies.contains_key(id@)
                        &&& app_tables(f) == with_technology(
                            s0,
                            id@,
                            (s0.technologies[id@].0, name, trimmed_or_none(o.form_version@), s0.technologies[id@].3),
                        )
                        &&& match o.current_subdomain {
                            Some(t) => technologies_shown(app_tables(f), t.id@, f.technologies@),
                            None => f.technologies == o.technologies,
                        }
                        &&& f == (App {
                            db: f.db,
                            technologies: f.technologies,
                            editing_technology: false,
                            form_name: f.form_name,
                            form_description: f.form_description,
                            form_field: FormField::Name,
                            form_error: None,
                            form_version: f.form_version,
                            ..o
                        })
                        &&& technology_form_closed(f)
                    } || store_failure_shown(o, f))
                    &&& !s0.technologies.contains_key(id@) ==> store_failure_shown(o, f)
                },
            }
        },
        Key::Backspace | Key::Char(_) => technology_form_typed(o, f, k),
        _ => f == o,
    }
}

/// What a key does while a new technology is typed: Esc leaves the form, Tab
/// switches field, Enter records the technology on the current subdomain and reloads
/// its list, other keys edit the active field.
pub open spec fn technologies_create_step(o: App, f: App, k: Key) -> bool {
    match k {
        Key::Esc => f == (App {
            creating_technology: false,
            form_name: f.form_name,
            form_description: f.form_description,
            form_field: FormField::Name,
            form_error: None,
            form_version: f.form_version,
            ..o
        }) && technology_form_closed(f),
        Key::Tab => f == (App {
            form_field: match o.form_field {
                FormField::Name => FormField::Description,
                _ => FormField::Name,
            },
            ..o
        }),
        Key::Enter => if trim_spec(o.form_name@).len() == 0 {
            form_refused(o, f, "Nome é obrigatório"@)
        } else {
            match o.current_subdomain {
                None => f == o,
                Some(t) => {
                    let s0 = app_tables(o);
                    let name = trim_spec(o.form_name@);
                    &&& ({
                        &&& exists|id: Seq<char>, now: Seq<char>|
                            !s0.technologies.contains_key(id) && app_tables(f) == #[trigger] with_technology(
                                s0,
                                id,
                                (t.id@, name, trimmed_or_none(o.form_version@), now),
                            )
                        &&& technologies_shown(app_tables(f), t.id@, f.technologies@)
                        &&& f == (App {
                            db: f.db,
                            technologies: f.technologies,
                            creating_technology: false,
                            form_name: f.form_name,
                            form_description: f.form_description,
                            form_field: FormField::Name,
                            form_error: None,
                            form_version: f.form_version,
                            ..o
                        })
                        &&& technology_form_closed(f)
                    } || (app_tables(f) == app_tables(o) && form_refused(
                        App { db: f.db, ..o },
                        f,
                        "Erro ao salvar tecnologia"@,
                    )))
                    &&& !s0.subdomains.contains_key(t.id@) ==> (
                    app_tables(f) == app_tables(o) && text_is(
                        f.form_error,
                        "Erro ao salvar tecnologia"@,
                    ))
                },
            }
        },
        Key::Backspace | Key::Char(_) => technology_form_typed(o, f, k),
        _ => f == o,
    }
}

/// What a key does on the technology list itself: Esc goes back to the subdomain menu,
/// `↓`/`j` and `↑`/`k` move the cursor, `n` opens a blank form, `d` asks to
/// delete the technology under the cursor, `e` opens it for editing.
pub open spec fn technologies_browse_step(o: App, f: App, k: Key) -> bool {
    if k == Key::Esc {
        f == (App { screen: Screen::SubdomainMenu, ..o })
    } else if is_down(k) {
        f == (App {
            technology_selected: next_index(o.technology_selected as int, o.technologies@.len() as int) as usize,
            ..o
        })
    } else if is_up(k) {
        f == (App {
            technology_selected: previous_index(o.technology_selected as int, o.technologies@.len() as int) as usize,
            ..o
        })
    } else if k == Key::Char('n') {
        f == (App {
            creating_technology: true,
            form_name: f.form_name,
            form_description: f.form_description,
            form_field: FormField::Name,
            form_error: None,
            form_version: f.form_version,
            ..o
        }) && technology_form_closed(f)
    } else if k == Key::Char('d') {
        match technology_under_cursor(o) {
            Some(tech) => f == (App {
                confirm_delete: true,
                confirm_delete_label: f.confirm_delete_label,
                ..o
            }) && f.confirm_delete_label@ == tech.name@,
            None => f == o,
        }
    } else if k == Key::Char('e') {
        match technology_under_cursor(o) {
            Some(tech) => f == (App {
                form_name: f.form_name,
                form_version: f.form_version,
                form_field: FormField::Name,
                form_error: None,
                editing_item_id: f.editing_item_id,
                editing_technology: true,
                ..o
            }) && f.form_name@ == tech.name@ && f.form_version@ == (match tech.version {
                Some(g) => g@,
                None => Seq::empty(),
            }) && text_is(f.editing_item_id, tech.id@),
            None => f == o,
        }
    } else {
        f == o
    }
}

/// Types key `k` into the active field of the technology form.
fn technology_form_type(key: Key, app: App) -> (r: App)
    ensures
        technology_form_typed(app, r, key),
{
    match app.form_field {
        FormField::Name => {
            let mut name = app.form_name;
            type_key(&mut name, key);
            App { form_name: name, form_error: None, ..app }
        },
        FormField::Description => {
            let mut org = app.form_version;
            type_key(&mut org, key);
            App { form_version: org, form_error: None, ..app }
        },
        _ => App { form_error: None, ..app },
    }
}

/// Handles a key while a deletion of a technology waits for confirmation.
fn technologies_confirm(key: Key, app: App) -> (r: App)
    requires
        store_ready(app),
    ensures
        keeps_session(app, r),
        technologies_confirm_step(app, r, key),
{
    match key {
        Key::Enter if app.db.is_none() => App {
            confirm_delete: false,
            confirm_delete_label: String::new(),
            ..app
        },
        Key::Enter => {
            if app.technology_selected < app.technologies.len() {
                let tech_id = app.technologies[app.technology_selected].id.clone();
                let sub_id = app.technologies[app.technology_selected].subdomain_id.clone();
                let mut db = app.db;
                let technologies = match &mut db {
                    Some(d) => {
                        let _ = delete_technology(d, tech_id.as_str());
                        technologies_or_empty(d, sub_id.as_str())
                    },
                    None => Vec::new(),
                };
                let sel = clamp(app.technology_selected, technologies.len());
                App {
                    db,
                    technologies,
                    technology_selected: sel,
                    confirm_delete: false,
                    confirm_delete_label: String::new(),
                    ..app
                }
            } else {
                App { confirm_delete: false, confirm_delete_label: String::new(), ..app }
            }
        },
        Key::Esc => App { confirm_delete: false, confirm_delete_label: String::new(), ..app },
        _ => app,
    }
}

/// Handles a key while a technology is edited.
fn technologies_edit(key: Key, app: App) -> (r: App)
    requires
        store_ready(app),
        key == Key::Enter ==> app.db is Some,
    ensures
        keeps_session(app, r),
        technologies_edit_step(app, r, key),
{
    match key {
        Key::Esc => App {
            editing_technology: false,
            form_name: String::new(),
            form_description: String::new(),
            form_field: FormField::Name,
            form_error: None,
            form_version: String::new(),
            ..app
        },
        Key::Tab => {
            let field = other_field(app.form_field);
            App { form_field: field, ..app }
        },
        Key::Enter => {
            if is_blank(app.form_name.as_str()) {
                return App { form_error: Some("Nome é obrigatório".to_owned()), ..app };
            }
            let id = match &app.editing_item_id {
                Some(id) => id.clone(),
                None => return app,
            };
            let update = UpdateTechnology {
                name: trim_text(app.form_name.as_str()),
                version: optional_text(app.form_version.as_str()),
            };
            let tid = match &app.current_subdomain {
                Some(t) => Some(t.id.clone()),
                None => None,
            };
            let mut db = app.db;
            let outcome = match &mut db {
                Some(d) => match update_technology(d, id.as_str(), update) {
                    Ok(_) => Ok(
                        match tid {
                            Some(t) => Some(technologies_or_empty(d, t.as_str())),
                            None => None,
                        },
                    ),
                    Err(e) => Err(failure_text(&e)),
                },
                None => Err(String::new()),
            };
            match outcome {
                Ok(reloaded) => {
                    let technologies = match reloaded {
                        Some(v) => v,
                        None => app.technologies,
                    };
                    App {
                        db,
                        technologies,
                        editing_technology: false,
                        form_name: String::new(),
                        form_description: String::new(),
                        form_field: FormField::Name,
                        form_error: None,
                        form_version: String::new(),
                        ..app
                    }
                },
                Err(m) => App { db, form_error: Some(m), ..app },
            }
        },
        Key::Backspace | Key::Char(_) => technology_form_type(key, app),
        _ => app,
    }
}

/// Handles a key while a new technology is typed.
fn technologies_create(key: Key, app: App) -> (r: App)
    requires
        store_ready(app),
        key == Key::Enter ==> app.db is Some,
    ensures
        keeps_session(app, r),
        technologies_create_step(app, r, key),
{
    match key {
        Key::Esc => App {
            creating_technology: false,
            form_name: String::new(),
            form_description: String::new(),
            form_field: FormField::Name,
            form_error: None,
            form_version: String::new(),
            ..app
        },
        Key::Tab => {
            let field = other_field(app.form_field);
            App { form_field: field, ..app }
        },
        Key::Enter => {
            if is_blank(app.form_name.as_str()) {
                return App { form_error: Some("Nome é obrigatório".to_owned()), ..app };
            }
            let sub_id = match &app.current_subdomain {
                Some(t) => t.id.clone(),
                None => return app,
            };
            let new = NewTechnology {
                subdomain_id: sub_id.clone(),
                name: trim_text(app.form_name.as_str()),
                version: optional_text(app.form_version.as_str()),
            };
            let mut db = app.db;
            let outcome = match &mut db {
                Some(d) => match create_technology(d, new) {
                    Ok(_) => Some(technologies_or_empty(d, sub_id.as_str())),
                    Err(_) => None,
                },
                None => None,
            };
            match outcome {
                Some(technologies) => App {
                    db,
                    technologies,
                    creating_technology: false,
                    form_name: String::new(),
                    form_description: String::new(),
                    form_field: FormField::Name,
                    form_error: None,
                    form_version: String::new(),
                    ..app
                },
                None => App { db, form_error: Some("Erro ao salvar tecnologia".to_owned()), ..app },
            }
        },
        Key::Backspace | Key::Char(_) => technology_form_type(key, app),
        _ => app,
    }
}

/// Handles a key on the technology list itself.
fn technologies_browse(key: Key, app: App) -> (r: App)
    requires
        store_ready(app),
    ensures
        keeps_session(app, r),
        technologies_browse_step(app, r, key),
{
    match key {
        Key::Esc => App { screen: Screen::SubdomainMenu, ..app },
        Key::Down | Key::Char('j') => {
            let sel = step_next(app.technology_selected, app.technologies.len());
            App { technology_selected: sel, ..app }
        },
        Key::Up | Key::Char('k') => {
            let sel = step_previous(app.technology_selected, app.technologies.len());
            App { technology_selected: sel, ..app }
        },
        Key::Char('n') => App {
            creating_technology: true,
            form_name: String::new(),
            form_description: String::new(),
            form_field: FormField::Name,
            form_error: None,
            form_version: String::new(),
            ..app
        },
        Key::Char('d') => {
            if app.technology_selected < app.technologies.len() {
                let label = app.technologies[app.technology_selected].name.clone();
                App { confirm_delete: true, confirm_delete_label: label, ..app }
            } else {
                app
            }
        },
        Key::Char('e') => {
            if app.technology_selected < app.technologies.len() {
                let name = app.technologies[app.technology_selected].name.clone();
                let version = match &app.technologies[app.technology_selected].version {
                    Some(g) => g.clone(),
                    None => String::new(),
                };
                let id = app.technologies[app.technology_selected].id.clone();
                App {
                    form_name: name,
                    form_version: version,
                    form_field: FormField::Name,
                    form_error: None,
                    editing_item_id: Some(id),
                    editing_technology: true,
                    ..app
                }
            } else {
                app
            }
        },
        _ => app,
    }
}

/// Handles key `key` on the technology screen: a pending deletion first, then the
/// edit form, then the creation form, else the list itself.
pub fn handle_technologies(key: Key, app: App) -> (r: App)
    requires
        store_ready(app),
        key == Key::Enter && !app.confirm_delete && (app.editing_technology || app.creating_technology) ==> app.db is Some,
    ensures
        keeps_session(app, r),
        app.confirm_delete ==> technologies_confirm_step(app, r, key),
        !app.confirm_delete && app.editing_technology ==> technologies_edit_step(app, r, key),
        !app.confirm_delete && !app.editing_technology && app.creating_technology ==> technologies_create_step(app, r, key),
        !app.confirm_delete && !app.editing_technology && !app.creating_technology ==> technologies_browse_step(app, r, key),
{
    if app.confirm_delete {
        technologies_confirm(key, app)
    } else if app.editing_technology {
        technologies_edit(key, app)
    } else if app.creating_technology {
        technologies_create(key, app)
    } else {
        technologies_browse(key, app)
    }
}

} // verus!

verus! {

// ─── URLs ───────────────────────────────────────────────────────────────────

/// The kind of URL that follows `t` when the user cycles through them.
pub open spec fn url_type_after(t: UrlType) -> UrlType {
    match t {
        UrlType::Parameter => UrlType::JavaScript,
        UrlType::JavaScript => UrlType::Endpoint,
        UrlType::Endpoint => UrlType::Other,
        UrlType::Other => UrlType::Parameter,
    }
}

/// The kind of URL that follows `t`.
fn next_url_type(t: UrlType) -> (r: UrlType)
    ensures
        r == url_type_after(t),
{
    match t {
        UrlType::Parameter => UrlType::JavaScript,
        UrlType::JavaScript => UrlType::Endpoint,
        UrlType::Endpoint => UrlType::Other,
        UrlType::Other => UrlType::Parameter,
    }
}

/// The URL under the cursor, if the cursor is on one.
pub open spec fn url_under_cursor(a: App) -> Option<Url> {
    if a.url_selected < a.urls@.len() {
        Some(a.urls@[a.url_selected as int])
    } else {
        None
    }
}

/// Whether `v` is what the URL list shows of subdomain `subdomain_id`: its URLs, or
/// nothing when the store failed.
pub open spec fn urls_shown(t: Store, subdomain_id: Seq<char>, v: Seq<Url>) -> bool {
    v.len() == 0 || urls_listing(t, subdomain_id, v)
}

/// What a key does on the URL screen while a deletion waits for confirmation:
/// Enter deletes the URL under the cursor and reloads the list, Esc drops
/// the deletion.
pub open spec fn urls_confirm_step(o: App, f: App, k: Key) -> bool {
    match k {
        Key::Enter => if o.db is None {
            deletion_dropped(o, f)
        } else {
            match url_under_cursor(o) {
                Some(url) => {
                    &&& (app_tables(f) == app_tables(o) || (app_tables(o).urls.contains_key(url.id@)
                        && app_tables(f) == (Store {
                        urls: app_tables(o).urls.remove(url.id@),
                        ..app_tables(o)
                    })))
                    &&& urls_shown(app_tables(f), url.subdomain_id@, f.urls@)
                    &&& f == (App {
                        db: f.db,
                        urls: f.urls,
                        url_selected: clamped(o.url_selected as int, f.urls@.len() as int) as usize,
                        confirm_delete: false,
                        confirm_delete_label: f.confirm_delete_label,
                        ..o
                    })
                    &&& f.confirm_delete_label@.len() == 0
                },
                None => deletion_dropped(o, f),
            }
        },
        Key::Esc => deletion_dropped(o, f),
        _ => f == o,
    }
}

/// What a key does while URL `o.editing_item_id` is edited: Esc leaves the
/// form, Enter saves the URL and reloads the list of the current
/// subdomain, Tab changes its kind, other keys edit the URL.
pub open spec fn urls_edit_step(o: App, f: App, k: Key) -> bool {
    match k {
        Key::Esc => f == (App {
            editing_url: false,
            form_name: f.form_name,
            form_description: f.form_description,
            form_field: FormField::Name,
            form_error: None,
            ..o
        }) && form_cleared(f),
        Key::Tab => f == (App { form_url_type: url_type_after(o.form_url_type), ..o }),
        Key::Enter => if trim_spec(o.form_name@).len() == 0 {
            form_refused(o, f, "URL é obrigatória"@)
        } else {
            match o.editing_item_id {
                None => f == o,
                Some(id) => {
                    let s0 = app_tables(o);
                    let url = trim_spec(o.form_name@);
                    &&& ({
                        &&& s0.urls.contains_key(id@)
                        &&& !url_taken_by_other(s0, id@, url)
                        &&& app_tables(f) == with_url(
                            s0,
                            id@,
                            (s0.urls[id@].0, url, url_type_text(o.form_url_type), s0.urls[id@].3),
                        )
                        &&& match o.current_subdomain {
                            Some(t) => urls_shown(app_tables(f), t.id@, f.urls@),
                            None => f.urls == o.urls,
                        }
                        &&& f == (App {
                            db: f.db,
                            urls: f.urls,
                            editing_url: false,
                            form_name: f.form_name,
                            form_description: f.form_description,
                            form_field: FormField::Name,
                            form_error: None,
                            ..o
                        })
                        &&& form_cleared(f)
                    } || store_failure_shown(o, f))
                    &&& !s0.urls.contains_key(id@) || url_taken_by_other(s0, id@, url)
                        ==> store_failure_shown(o, f)
                },
            }
        },
        Key::Backspace | Key::Char(_) => name_typed(o, f, k),
        _ => f == o,
    }
}

/// What a key does while a new URL is typed: Esc leaves the form, Enter
/// records the URL on the current subdomain and reloads its list, other keys
/// edit the URL.
pub open spec fn urls_create_step(o: App, f: App, k: Key) -> bool {
    match k {
        Key::Esc => f == (App {
            creating_url: false,
            form_name: f.form_name,
            form_description: f.form_description,
            form_field: FormField::Name,
            form_error: None,
            ..o
        }) && form_cleared(f),
        Key::Tab => f == (App { form_url_type: url_type_after(o.form_url_type), ..o }),
        Key::Enter => if trim_spec(o.form_name@).len() == 0 {
            form_refused(o, f, "URL é obrigatória"@)
        } else {
            match o.current_subdomain {
                None => f == o,
                Some(t) => {
                    let s0 = app_tables(o);
                    let url = trim_spec(o.form_name@);
                    &&& ({
                        &&& exists|id: Seq<char>, now: Seq<char>|
                            !s0.urls.contains_key(id) && app_tables(f) == #[trigger] with_url(
                                s0,
                                id,
                                (t.id@, url, url_type_text(o.form_url_type), now),
                            )
                        &&& urls_shown(app_tables(f), t.id@, f.urls@)
                        &&& f == (App {
                            db: f.db,
                            urls: f.urls,
                            creating_url: false,
                            form_name: f.form_name,
                            form_description: f.form_description,
                            form_field: FormField::Name,
                            form_error: None,
                            ..o
                        })
                        &&& form_cleared(f)
                    } || (app_tables(f) == app_tables(o) && form_refused(
                        App { db: f.db, ..o },
                        f,
                        "URL já existe neste subdomain"@,
                    )))
                    &&& url_taken(s0, t.id@, url) || !s0.subdomains.contains_key(t.id@) ==> (app_tables(f)
                        == app_tables(o) && text_is(f.form_error, "URL já existe neste subdomain"@))
                },
            }
        },
        Key::Backspace | Key::Char(_) => name_typed(o, f, k),
        _ => f == o,
    }
}

/// What a key does on the URL list itself: Esc goes back to the subdomain menu,
/// `↓`/`j` and `↑`/`k` move the cursor, `n` opens a blank form, `d` asks to
/// delete the URL under the cursor, `e` opens it for editing.
pub open spec fn urls_browse_step(o: App, f: App, k: Key) -> bool {
    if k == Key::Esc {
        f == (App { screen: Screen::SubdomainMenu, ..o })
    } else if is_down(k) {
        f == (App { url_selected: next_index(o.url_selected as int, o.urls@.len() as int) as usize, ..o })
    } else if is_up(k) {
        f == (App {
            url_selected: previous_index(o.url_selected as int, o.urls@.len() as int) as usize,
            ..o
        })
    } else if k == Key::Char('n') {
        f == (App {
            creating_url: true,
            form_url_type: UrlType::Other,
            form_name: f.form_name,
            form_description: f.form_description,
            form_field: FormField::Name,
            form_error: None,
            ..o
        }) && form_cleared(f)
    } else if k == Key::Char('d') {
        match url_under_cursor(o) {
            Some(url) => f == (App {
                confirm_delete: true,
                confirm_delete_label: f.confirm_delete_label,
                ..o
            }) && f.confirm_delete_label@ == url.url@,
            None => f == o,
        }
    } else if k == Key::Char('e') {
        match url_under_cursor(o) {
            Some(url) => f == (App {
                form_name: f.form_name,
                form_url_type: url.url_type,
                form_error: None,
                editing_item_id: f.editing_item_id,
                editing_url: true,
                ..o
            }) && f.form_name@ == url.url@ && text_is(f.editing_item_id, url.id@),
            None => f == o,
        }
    } else {
        f == o
    }
}

/// Handles a key while a deletion of a URL waits for confirmation.
fn urls_confirm(key: Key, app: App) -> (r: App)
    requires
        store_ready(app),
    ensures
        keeps_session(app, r),
        urls_confirm_step(app, r, key),
{
    match key {
        Key::Enter if app.db.is_none() => App {
            confirm_delete: false,
            confirm_delete_label: String::new(),
            ..app
        },
        Key::Enter => {
            if app.url_selected < app.urls.len() {
                let url_id = app.urls[app.url_selected].id.clone();
                let sub_id = app.urls[app.url_selected].subdomain_id.clone();
                let mut db = app.db;
                let urls = match &mut db {
                    Some(d) => {
                        let _ = delete_url(d, url_id.as_str());
                        urls_or_empty(d, sub_id.as_str())
                    },
                    None => Vec::new(),
                };
                let sel = clamp(app.url_selected, urls.len());
                App {
                    db,
                    urls,
                    url_selected: sel,
                    confirm_delete: false,
                    confirm_delete_label: String::new(),
                    ..app
                }
            } else {
                App { confirm_delete: false, confirm_delete_label: String::new(), ..app }
            }
        },
        Key::Esc => App { confirm_delete: false, confirm_delete_label: String::new(), ..app },
        _ => app,
    }
}

/// Handles a key while a URL is edited.
fn urls_edit(key: Key, app: App) -> (r: App)
    requires
        store_ready(app),
        key == Key::Enter ==> app.db is Some,
    ensures
        keeps_session(app, r),
        urls_edit_step(app, r, key),
{
    match key {
        Key::Esc => App {
            editing_url: false,
            form_name: String::new(),
            form_description: String::new(),
            form_field: FormField::Name,
            form_error: None,
            ..app
        },
        Key::Tab => {
            let kind = next_url_type(app.form_url_type);
            App { form_url_type: kind, ..app }
        },
        Key::Enter => {
            if is_blank(app.form_name.as_str()) {
                return App { form_error: Some("URL é obrigatória".to_owned()), ..app };
            }
            let id = match &app.editing_item_id {
                Some(id) => id.clone(),
                None => return app,
            };
            let update = UpdateUrl { url: trim_text(app.form_name.as_str()), url_type: app.form_url_type };
            let tid = match &app.current_subdomain {
                Some(t) => Some(t.id.clone()),
                None => None,
            };
            let mut db = app.db;
            let outcome = match &mut db {
                Some(d) => match update_url(d, id.as_str(), update) {
                    Ok(_) => Ok(
                        match tid {
                            Some(t) => Some(urls_or_empty(d, t.as_str())),
                            None => None,
                        },
                    ),
                    Err(e) => Err(failure_text(&e)),
                },
                None => Err(String::new()),
            };
            match outcome {
                Ok(reloaded) => {
                    let urls = match reloaded {
                        Some(v) => v,
                        None => app.urls,
                    };
                    App {
                        db,
                        urls,
                        editing_url: false,
                        form_name: String::new(),
                        form_description: String::new(),
                        form_field: FormField::Name,
                        form_error: None,
                        ..app
                    }
                },
                Err(m) => App { db, form_error: Some(m), ..app },
            }
        },
        Key::Backspace | Key::Char(_) => {
            let mut name = app.form_name;
            type_key(&mut name, key);
            App { form_name: name, form_error: None, ..app }
        },
        _ => app,
    }
}

/// Handles a key while a new URL is typed.
fn urls_create(key: Key, app: App) -> (r: App)
    requires
        store_ready(app),
        key == Key::Enter ==> app.db is Some,
    ensures
        keeps_session(app, r),
        urls_create_step(app, r, key),
{
    match key {
        Key::Esc => App {
            creating_url: false,
            form_name: String::new(),
            form_description: String::new(),
            form_field: FormField::Name,
            form_error: None,
            ..app
        },
        Key::Tab => {
            let kind = next_url_type(app.form_url_type);
            App { form_url_type: kind, ..app }
        },
        Key::Enter => {
            if is_blank(app.form_name.as_str()) {
                return App { form_error: Some("URL é obrigatória".to_owned()), ..app };
            }
            let sub_id = match &app.current_subdomain {
                Some(t) => t.id.clone(),
                None => return app,
            };
            let new = NewUrl {
                subdomain_id: sub_id.clone(),
                url: trim_text(app.form_name.as_str()),
                url_type: app.form_url_type,
            };
            let mut db = app.db;
            let outcome = match &mut db {
                Some(d) => match create_url(d, new) {
                    Ok(_) => Some(urls_or_empty(d, sub_id.as_str())),
                    Err(_) => None,
                },
                None => None,
            };
            match outcome {
                Some(urls) => App {
                    db,
                    urls,
                    creating_url: false,
                    form_name: String::new(),
                    form_description: String::new(),
                    form_field: FormField::Name,
                    form_error: None,
                    ..app
                },
                None => App { db, form_error: Some("URL já existe neste subdomain".to_owned()), ..app },
            }
        },
        Key::Backspace | Key::Char(_) => {
            let mut name = app.form_name;
            type_key(&mut name, key);
            App { form_name: name, form_error: None, ..app }
        },
        _ => app,
    }
}

/// Handles a key on the URL list itself.
fn urls_browse(key: Key, app: App) -> (r: App)
    requires
        store_ready(app),
    ensures
        keeps_session(app, r),
        urls_browse_step(app, r, key),
{
    match key {
        Key::Esc => App { screen: Screen::SubdomainMenu, ..app },
        Key::Down | Key::Char('j') => {
            let sel = step_next(app.url_selected, app.urls.len());
            App { url_selected: sel, ..app }
        },
        Key::Up | Key::Char('k') => {
            let sel = step_previous(app.url_selected, app.urls.len());
            App { url_selected: sel, ..app }
        },
        Key::Char('n') => App {
            creating_url: true,
            form_url_type: UrlType::Other,
            form_name: String::new(),
            form_description: String::new(),
            form_field: FormField::Name,
            form_error: None,
            ..app
        },
        Key::Char('d') => {
            if app.url_selected < app.urls.len() {
                let label = app.urls[app.url_selected].url.clone();
                App { confirm_delete: true, confirm_delete_label: label, ..app }
            } else {
                app
            }
        },
        Key::Char('e') => {
            if app.url_selected < app.urls.len() {
                let url = app.urls[app.url_selected].url.clone();
                let kind = app.urls[app.url_selected].url_type;
                let id = app.urls[app.url_selected].id.clone();
                App {
                    form_name: url,
                    form_url_type: kind,
                    form_error: None,
                    editing_item_id: Some(id),
                    editing_url: true,
                    ..app
                }
            } else {
                app
            }
        },
        _ => app,
    }
}

/// Handles key `key` on the URL screen: a pending deletion first, then the
/// edit form, then the creation form, else the list itself.
pub fn handle_urls(key: Key, app: App) -> (r: App)
    requires
        store_ready(app),
        key == Key::Enter && !app.confirm_delete && (app.editing_url || app.creating_url) ==> app.db is Some,
    ensures
        keeps_session(app, r),
        app.confirm_delete ==> urls_confirm_step(app, r, key),
        !app.confirm_delete && app.editing_url ==> urls_edit_step(app, r, key),
        !app.confirm_delete && !app.editing_url && app.creating_url ==> urls_create_step(app, r, key),
        !app.confirm_delete && !app.editing_url && !app.creating_url ==> urls_browse_step(app, r, key),
{
    if app.confirm_delete {
        urls_confirm(key, app)
    } else if app.editing_url {
        urls_edit(key, app)
    } else if app.creating_url {
        urls_create(key, app)
    } else {
        urls_browse(key, app)
    }
}

} // verus!

verus! {

// ─── screenshots ────────────────────────────────────────────────────────────

/// What the interface is to do after a key on the screenshot screen.
#[derive(Debug)]
pub enum ScreenshotAction {
    /// Nothing beyond the new state.
    Nothing,
    /// Show the image at this path inline in the terminal.
    Preview(String),
    /// Open the image at this path with the system's viewer.
    OpenExternally(String),
}

/// The screenshot under the cursor, if the cursor is on one.
pub open spec fn screenshot_under_cursor(a: App) -> Option<Screenshot> {
    if a.screenshot_selected < a.screenshots@.len() {
        Some(a.screenshots@[a.screenshot_selected as int])
    } else {
        None
    }
}

/// Whether `v` is what the screenshot list shows of subdomain
/// `subdomain_id`: its screenshots, or nothing when the store failed.
pub open spec fn screenshots_shown(t: Store, subdomain_id: Seq<char>, v: Seq<Screenshot>) -> bool {
    v.len() == 0 || screenshots_listing(t, subdomain_id, v)
}

/// Whether `a` is the preview of the file at `path`.
pub open spec fn previews(a: ScreenshotAction, path: Seq<char>) -> bool {
    a matches ScreenshotAction::Preview(p) && p@ == path
}

/// Whether `a` opens the file at `path` with the system's viewer.
pub open spec fn opens(a: ScreenshotAction, path: Seq<char>) -> bool {
    a matches ScreenshotAction::OpenExternally(p) && p@ == path
}

/// What a key does on the screenshot screen while a deletion waits for
/// confirmation: Enter deletes the screenshot under the cursor and reloads
/// the list, Esc drops the deletion.
pub open spec fn screenshots_confirm_step(o: App, f: App, k: Key) -> bool {
    match k {
        Key::Enter => if o.db is None {
            deletion_dropped(o, f)
        } else {
            match screenshot_under_cursor(o) {
                Some(shot) => {
                    &&& (app_tables(f) == app_tables(o) || (app_tables(o).screenshots.contains_key(
                        shot.id@,
                    ) && app_tables(f) == (Store {
                        screenshots: app_tables(o).screenshots.remove(shot.id@),
                        ..app_tables(o)
                    })))
                    &&& screenshots_shown(app_tables(f), shot.subdomain_id@, f.screenshots@)
                    &&& f == (App {
                        db: f.db,
                        screenshots: f.screenshots,
                        screenshot_selected: clamped(
                            o.screenshot_selected as int,
                            f.screenshots@.len() as int,
                        ) as usize,
                        confirm_delete: false,
                        confirm_delete_label: f.confirm_delete_label,
                        ..o
                    })
                    &&& f.confirm_delete_label@.len() == 0
                },
                None => deletion_dropped(o, f),
            }
        },
        Key::Esc => deletion_dropped(o, f),
        _ => f == o,
    }
}

/// What a key does while the path of a new screenshot is typed: Esc leaves
/// the form, Enter records the file for the current subdomain and reloads
/// its list, other keys edit the path.
pub open spec fn screenshots_create_step(o: App, f: App, k: Key) -> bool {
    match k {
        Key::Esc => f == (App {
            creating_screenshot: false,
            form_name: f.form_name,
            form_description: f.form_description,
            form_field: FormField::Name,
            form_error: None,
            ..o
        }) && form_cleared(f),
        Key::Enter => if trim_spec(o.form_name@).len() == 0 {
            form_refused(o, f, "Caminho é obrigatório"@)
        } else {
            match o.current_subdomain {
                None => f == o,
                Some(t) => {
                    let s0 = app_tables(o);
                    let path = trim_spec(o.form_name@);
                    &&& ({
                        &&& exists|id: Seq<char>, now: Seq<char>|
                            !s0.screenshots.contains_key(id) && app_tables(f)
                                == #[trigger] with_screenshot(s0, id, (t.id@, path, now))
                        &&& screenshots_shown(app_tables(f), t.id@, f.screenshots@)
                        &&& f == (App {
                            db: f.db,
                            screenshots: f.screenshots,
                            creating_screenshot: false,
                            form_name: f.form_name,
                            form_description: f.form_description,
                            form_field: FormField::Name,
                            form_error: None,
                            ..o
                        })
                        &&& form_cleared(f)
                    } || (app_tables(f) == app_tables(o) && form_refused(
                        App { db: f.db, ..o },
                        f,
                        "Erro ao salvar screenshot"@,
                    )))
                    &&& !s0.subdomains.contains_key(t.id@) ==> (app_tables(f) == app_tables(o)
                        && text_is(f.form_error, "Erro ao salvar screenshot"@))
                },
            }
        },
        Key::Backspace | Key::Char(_) => name_typed(o, f, k),
        _ => f == o,
    }
}

/// What Enter does on screenshot `path` when a file `present`s there or
/// not, and `kitty` says whether the terminal shows images inline: a missing
/// file or a path without an image extension is refused, an image is shown
/// inline in such a terminal, and elsewhere the user is told to open it
/// externally.
pub open spec fn preview_decision(
    o: App,
    f: App,
    a: ScreenshotAction,
    path: Seq<char>,
    present: bool,
    kitty: bool,
) -> bool {
    if !(present && has_image_extension_spec(path)) {
        a is Nothing && form_refused(o, f, "Arquivo não encontrado ou formato inválido"@)
    } else if kitty {
        f == o && previews(a, path)
    } else {
        a is Nothing && form_refused(
            o,
            f,
            "Terminal não suporta preview — use O para abrir externamente"@,
        )
    }
}

/// What `o` does on screenshot `path` when a file `present`s there or not:
/// an image is opened with the system's viewer, anything else is refused.
pub open spec fn open_decision(o: App, f: App, a: ScreenshotAction, path: Seq<char>, present: bool) -> bool {
    if present && has_image_extension_spec(path) {
        f == o && opens(a, path)
    } else {
        a is Nothing && form_refused(o, f, "Arquivo não encontrado ou formato inválido"@)
    }
}

/// Enter on screenshot `path`, given whether a file `exists` there and
/// whether the terminal is `kitty`.
pub fn screenshot_preview(app: App, path: String, exists: bool, kitty: bool) -> (r: (
    App,
    ScreenshotAction,
))
    ensures
        preview_decision(app, r.0, r.1, path@, exists, kitty),
{
    if !image_ready(path.as_str(), exists) {
        (
            App { form_error: Some("Arquivo não encontrado ou formato inválido".to_owned()), ..app },
            ScreenshotAction::Nothing,
        )
    } else if kitty {
        (app, ScreenshotAction::Preview(path))
    } else {
        (
            App {
                form_error: Some(
                    "Terminal não suporta preview — use O para abrir externamente".to_owned(),
                ),
                ..app
            },
            ScreenshotAction::Nothing,
        )
    }
}

/// `o` on screenshot `path`, given whether a file `exists` there.
pub fn screenshot_open(app: App, path: String, exists: bool) -> (r: (App, ScreenshotAction))
    ensures
        open_decision(app, r.0, r.1, path@, exists),
{
    if image_ready(path.as_str(), exists) {
        (app, ScreenshotAction::OpenExternally(path))
    } else {
        (
            App { form_error: Some("Arquivo não encontrado ou formato inválido".to_owned()), ..app },
            ScreenshotAction::Nothing,
        )
    }
}

/// What a key does on the screenshot list itself: Esc goes back to the
/// subdomain menu, `↓`/`j` and `↑`/`k` move the cursor, `n` opens a blank
/// form, `d` asks to delete the screenshot under the cursor; Enter previews
/// it inline when the terminal can (`kitty`) and `o` opens it with the
/// system's viewer, either only when it is an image file that exists.
pub open spec fn screenshots_browse_step(o: App, f: App, a: ScreenshotAction, k: Key, kitty: bool) -> bool {
    if k == Key::Enter {
        match screenshot_under_cursor(o) {
            Some(shot) => {
                let path = shot.file_path@;
                &&& preview_decision(o, f, a, path, true, kitty) || preview_decision(
                    o,
                    f,
                    a,
                    path,
                    false,
                    kitty,
                )
                &&& !has_image_extension_spec(path) ==> a is Nothing && form_refused(
                    o,
                    f,
                    "Arquivo não encontrado ou formato inválido"@,
                )
            },
            None => f == o && a is Nothing,
        }
    } else if k == Key::Char('o') {
        match screenshot_under_cursor(o) {
            Some(shot) => {
                let path = shot.file_path@;
                &&& open_decision(o, f, a, path, true) || open_decision(o, f, a, path, false)
                &&& !has_image_extension_spec(path) ==> a is Nothing && form_refused(
                    o,
                    f,
                    "Arquivo não encontrado ou formato inválido"@,
                )
            },
            None => f == o && a is Nothing,
        }
    } else {
        &&& a is Nothing
        &&& if k == Key::Esc {
            f == (App { screen: Screen::SubdomainMenu, ..o })
        } else if is_down(k) {
            f == (App {
                screenshot_selected: next_index(
                    o.screenshot_selected as int,
                    o.screenshots@.len() as int,
                ) as usize,
                ..o
            })
        } else if is_up(k) {
            f == (App {
                screenshot_selected: previous_index(
                    o.screenshot_selected as int,
                    o.screenshots@.len() as int,
                ) as usize,
                ..o
            })
        } else if k == Key::Char('n') {
            f == (App {
                creating_screenshot: true,
                form_name: f.form_name,
                form_description: f.form_description,
                form_field: FormField::Name,
                form_error: None,
                ..o
            }) && form_cleared(f)
        } else if k == Key::Char('d') {
            match screenshot_under_cursor(o) {
                Some(shot) => f == (App {
                    confirm_delete: true,
                    confirm_delete_label: f.confirm_delete_label,
                    ..o
                }) && f.confirm_delete_label@ == shot.file_path@,
                None => f == o,
            }
        } else {
            f == o
        }
    }
}

/// Handles a key while a deletion of a screenshot waits for confirmation.
fn screenshots_confirm(key: Key, app: App) -> (r: App)
    requires
        store_ready(app),
    ensures
        keeps_session(app, r),
        screenshots_confirm_step(app, r, key),
{
    match key {
        Key::Enter if app.db.is_none() => App {
            confirm_delete: false,
            confirm_delete_label: String::new(),
            ..app
        },
        Key::Enter => {
            if app.screenshot_selected < app.screenshots.len() {
                let shot_id = app.screenshots[app.screenshot_selected].id.clone();
                let sub_id = app.screenshots[app.screenshot_selected].subdomain_id.clone();
                let mut db = app.db;
                let screenshots = match &mut db {
                    Some(d) => {
                        let _ = delete_screenshot(d, shot_id.as_str());
                        screenshots_or_empty(d, sub_id.as_str())
                    },
                    None => Vec::new(),
                };
                let sel = clamp(app.screenshot_selected, screenshots.len());
                App {
                    db,
                    screenshots,
                    screenshot_selected: sel,
                    confirm_delete: false,
                    confirm_delete_label: String::new(),
                    ..app
                }
            } else {
                App { confirm_delete: false, confirm_delete_label: String::new(), ..app }
            }
        },
        Key::Esc => App { confirm_delete: false, confirm_delete_label: String::new(), ..app },
        _ => app,
    }
}

/// Handles a key while the path of a new screenshot is typed.
fn screenshots_create(key: Key, app: App) -> (r: App)
    requires
        store_ready(app),
        key == Key::Enter ==> app.db is Some,
    ensures
        keeps_session(app, r),
        screenshots_create_step(app, r, key),
{
    match key {
        Key::Esc => App {
            creating_screenshot: false,
            form_name: String::new(),
            form_description: String::new(),
            form_field: FormField::Name,
            form_error: None,
            ..app
        },
        Key::Enter => {
            if is_blank(app.form_name.as_str()) {
                return App { form_error: Some("Caminho é obrigatório".to_owned()), ..app };
            }
            let sub_id = match &app.current_subdomain {
                Some(t) => t.id.clone(),
                None => return app,
            };
            let new = NewScreenshot {
                subdomain_id: sub_id.clone(),
                file_path: trim_text(app.form_name.as_str()),
            };
            let mut db = app.db;
            let outcome = match &mut db {
                Some(d) => match create_screenshot(d, new) {
                    Ok(_) => Some(screenshots_or_empty(d, sub_id.as_str())),
                    Err(_) => None,
                },
                None => None,
            };
            match outcome {
                Some(screenshots) => App {
                    db,
                    screenshots,
                    creating_screenshot: false,
                    form_name: String::new(),
                    form_description: String::new(),
                    form_field: FormField::Name,
                    form_error: None,
                    ..app
                },
                None => App { db, form_error: Some("Erro ao salvar screenshot".to_owned()), ..app },
            }
        },
        Key::Backspace | Key::Char(_) => {
            let mut name = app.form_name;
            type_key(&mut name, key);
            App { form_name: name, form_error: None, ..app }
        },
        _ => app,
    }
}

/// Enter on the screenshot list: the preview of the screenshot under the
/// cursor.
fn screenshots_enter(app: App, kitty: bool) -> (r: (App, ScreenshotAction))
    requires
        store_ready(app),
    ensures
        keeps_session(app, r.0),
        screenshots_browse_step(app, r.0, r.1, Key::Enter, kitty),
{
    if app.screenshot_selected < app.screenshots.len() {
        let path = app.screenshots[app.screenshot_selected].file_path.clone();
        let exists = path_exists(path.as_str());
        let ghost o = app;
        let ghost p = path@;
        assert(p == o.screenshots@[o.screenshot_selected as int].file_path@);
        let r = screenshot_preview(app, path, exists, kitty);
        assert(preview_decision(o, r.0, r.1, p, exists, kitty));
        r
    } else {
        (app, ScreenshotAction::Nothing)
    }
}

/// `o` on the screenshot list: the screenshot under the cursor opened with
/// the system's viewer.
fn screenshots_open_key(app: App) -> (r: (App, ScreenshotAction))
    requires
        store_ready(app),
    ensures
        keeps_session(app, r.0),
        forall|kitty: bool| #[trigger] screenshots_browse_step(app, r.0, r.1, Key::Char('o'), kitty),
{
    if app.screenshot_selected < app.screenshots.len() {
        let path = app.screenshots[app.screenshot_selected].file_path.clone();
        let exists = path_exists(path.as_str());
        let ghost o = app;
        let ghost p = path@;
        assert(p == o.screenshots@[o.screenshot_selected as int].file_path@);
        let r = screenshot_open(app, path, exists);
        assert(open_decision(o, r.0, r.1, p, exists));
        r
    } else {
        (app, ScreenshotAction::Nothing)
    }
}

/// Handles a key on the screenshot list itself.
fn screenshots_browse(key: Key, app: App, kitty: bool) -> (r: (App, ScreenshotAction))
    requires
        store_ready(app),
    ensures
        keeps_session(app, r.0),
        screenshots_browse_step(app, r.0, r.1, key, kitty),
{
    match key {
        Key::Esc => (App { screen: Screen::SubdomainMenu, ..app }, ScreenshotAction::Nothing),
        Key::Down | Key::Char('j') => {
            let sel = step_next(app.screenshot_selected, app.screenshots.len());
            (App { screenshot_selected: sel, ..app }, ScreenshotAction::Nothing)
        },
        Key::Up | Key::Char('k') => {
            let sel = step_previous(app.screenshot_selected, app.screenshots.len());
            (App { screenshot_selected: sel, ..app }, ScreenshotAction::Nothing)
        },
        Key::Char('n') => (
            App {
                creating_screenshot: true,
                form_name: String::new(),
                form_description: String::new(),
                form_field: FormField::Name,
                form_error: None,
                ..app
            },
            ScreenshotAction::Nothing,
        ),
        Key::Enter => screenshots_enter(app, kitty),
        Key::Char('o') => screenshots_open_key(app),
        Key::Char('d') => {
            if app.screenshot_selected < app.screenshots.len() {
                let label = app.screenshots[app.screenshot_selected].file_path.clone();
                (App { confirm_delete: true, confirm_delete_label: label, ..app }, ScreenshotAction::Nothing)
            } else {
                (app, ScreenshotAction::Nothing)
            }
        },
        _ => (app, ScreenshotAction::Nothing),
    }
}

/// Handles key `key` on the screenshot screen, where `kitty` says whether
/// the terminal can show images inline: a pending deletion first, then the
/// creation form, else the list itself. The action says what the interface
/// is to do beyond the new state.
pub fn handle_screenshots(key: Key, app: App, kitty: bool) -> (r: (App, ScreenshotAction))
    requires
        store_ready(app),
        key == Key::Enter && !app.confirm_delete && app.creating_screenshot ==> app.db is Some,
    ensures
        keeps_session(app, r.0),
        app.confirm_delete ==> screenshots_confirm_step(app, r.0, key) && r.1 is Nothing,
        !app.confirm_delete && app.creating_screenshot ==> screenshots_create_step(app, r.0, key)
            && r.1 is Nothing,
        !app.confirm_delete && !app.creating_screenshot ==> screenshots_browse_step(
            app,
            r.0,
            r.1,
            key,
            kitty,
        ),
{
    if app.confirm_delete {
        (screenshots_confirm(key, app), ScreenshotAction::Nothing)
    } else if app.creating_screenshot {
        (screenshots_create(key, app), ScreenshotAction::Nothing)
    } else {
        screenshots_browse(key, app, kitty)
    }
}

} // verus!
