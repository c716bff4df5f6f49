//! The import form, the help screen, and the routing of every key to the
//! screen it is for; the session timeout and the bookkeeping of the inline
//! image preview.

use vstd::prelude::*;
use crate::app::{App, ImportField, Screen, clock_secs};
use crate::error::{RatariaError, message_spec};
use crate::export::{digits, push_digits};
use crate::handle_engagements::{
    Action, ImportRequest, consistent, create_engagement_step, dashboard_step,
    engagements_browse_step, engagements_confirm_step, engagements_edit_step,
    handle_create_engagement, handle_dashboard, handle_home, handle_list_engagements,
    handle_password, home_step, password_step,
};
use crate::handle_items::{
    ScreenshotAction, asns_browse_step, asns_confirm_step, asns_create_step, asns_edit_step,
    handle_asns, handle_ips, handle_screenshots, handle_technologies, handle_urls, ips_browse_step,
    ips_confirm_step, ips_create_step, ips_edit_step, screenshots_browse_step,
    screenshots_confirm_step, screenshots_create_step, technologies_browse_step,
    technologies_confirm_step, technologies_create_step, technologies_edit_step, text_is,
    text_starts, urls_browse_step, urls_confirm_step, urls_create_step, urls_edit_step,
};
use crate::handle_subdomains::{
    handle_subdomain_menu, handle_subdomains, subdomain_menu_step, subdomains_browse_step,
    subdomains_confirm_step, subdomains_create_step, subdomains_edit_step, subdomains_notes_step,
};
use crate::handle_targets::{
    handle_target_menu, handle_targets, target_menu_step, targets_browse_step, targets_confirm_step,
    targets_create_step, targets_edit_step,
};
use crate::keys::{Key, failure_text, optional_text, session_open, trimmed_or_none, type_key, typed};
use crate::report::ImportReport;
use crate::store::opt_view;
use crate::text::{push_text, trim_spec, trim_text};

verus! {

// ─── import form ────────────────────────────────────────────────────────────

/// The field of the import form after Tab: path, target, engagement, and
/// back to the path.
pub open spec fn import_field_after(f: ImportField) -> ImportField {
    match f {
        ImportField::Path => ImportField::Target,
        ImportField::Target => ImportField::Engagement,
        ImportField::Engagement => ImportField::Path,
    }
}

/// Whether `f` is `o` with key `k` typed into the active field of the
/// import form, clearing the last result.
pub open spec fn import_typed(o: App, f: App, k: Key) -> bool {
    match o.import_field {
        ImportField::Path => f == (App { import_path: f.import_path, import_result: None, ..o })
            && f.import_path@ == typed(o.import_path@, k),
        ImportField::Target => f == (App {
            import_target: f.import_target,
            import_result: None,
            ..o
        }) && f.import_target@ == typed(o.import_target@, k),
        ImportField::Engagement => f == (App {
            import_engagement: f.import_engagement,
            import_result: None,
            ..o
        }) && f.import_engagement@ == typed(o.import_engagement@, k),
    }
}

/// The engagement that an import from form `o` goes into: the one typed,
/// else the one in view, else none.
pub open spec fn requested_engagement(o: App) -> Option<Seq<char>> {
    if trim_spec(o.import_engagement@).len() == 0 {
        match o.current_engagement {
            Some(e) => Some(e.name@),
            None => None,
        }
    } else {
        Some(trim_spec(o.import_engagement@))
    }
}

/// Whether `a` asks to import the file that form `o` names.
pub open spec fn requests_import(a: Action, o: App) -> bool {
    a matches Action::Import(req) && req.path@ == trim_spec(o.import_path@) && opt_view(
        req.engagement,
    ) == requested_engagement(o) && opt_view(req.target) == trimmed_or_none(o.import_target@)
}

/// What a key does on the import form: Esc clears it and goes home, Tab
/// moves to the next field, Enter asks to import the named file (a blank
/// path is refused), other keys edit the active field.
pub open spec fn import_step(o: App, f: App, a: Action, k: Key) -> bool {
    match k {
        Key::Esc => {
            &&& a is Nothing
            &&& f == (App {
                import_path: f.import_path,
                import_target: f.import_target,
                import_engagement: f.import_engagement,
                import_result: None,
                import_field: ImportField::Path,
                screen: Screen::Home,
                ..o
            })
            &&& f.import_path@.len() == 0
            &&& f.import_target@.len() == 0
            &&& f.import_engagement@.len() == 0
        },
        Key::Tab => a is Nothing && f == (App { import_field: import_field_after(o.import_field), ..o }),
        Key::Enter => if trim_spec(o.import_path@).len() == 0 {
            a is Nothing && f == (App { import_result: f.import_result, ..o }) && text_is(
                f.import_result,
                "✗ Caminho do arquivo é obrigatório"@,
            )
        } else {
            f == o && requests_import(a, o)
        },
        Key::Backspace | Key::Char(_) => a is Nothing && import_typed(o, f, k),
        _ => a is Nothing && f == o,
    }
}

/// Types key `k` into the active field of the import form.
fn import_form_type(key: Key, app: App) -> (r: App)
    ensures
        import_typed(app, r, key),
{
    match app.import_field {
        ImportField::Path => {
            let mut v = app.import_path;
            type_key(&mut v, key);
            App { import_path: v, import_result: None, ..app }
        },
        ImportField::Target => {
            let mut v = app.import_target;
            type_key(&mut v, key);
            App { import_target: v, import_result: None, ..app }
        },
        ImportField::Engagement => {
            let mut v = app.import_engagement;
            type_key(&mut v, key);
            App { import_engagement: v, import_result: None, ..app }
        },
    }
}

/// The request to import the file that form `app` names.
fn import_request_of(app: &App) -> (r: ImportRequest)
    ensures
        r.path@ == trim_spec(app.import_path@),
        opt_view(r.engagement) == requested_engagement(*app),
        opt_view(r.target) == trimmed_or_none(app.import_target@),
{
    let engagement = match optional_text(app.import_engagement.as_str()) {
        Some(e) => Some(e),
        None => match &app.current_engagement {
            Some(e) => Some(e.name.clone()),
            None => None,
        },
    };
    ImportRequest {
        path: trim_text(app.import_path.as_str()),
        engagement,
        target: optional_text(app.import_target.as_str()),
    }
}

/// Handles key `key` on the import form. Reading and importing the file is
/// the action's; `import_read_failed` and `import_finished` record how it
/// went.
pub fn handle_import(key: Key, app: App) -> (r: (App, Action))
    ensures
        import_step(app, r.0, r.1, key),
{
    match key {
        Key::Esc => (
            App {
                import_path: String::new(),
                import_target: String::new(),
                import_engagement: String::new(),
                import_result: None,
                import_field: ImportField::Path,
                screen: Screen::Home,
                ..app
            },
            Action::Nothing,
        ),
        Key::Tab => {
            let field = match app.import_field {
                ImportField::Path => ImportField::Target,
                ImportField::Target => ImportField::Engagement,
                ImportField::Engagement => ImportField::Path,
            };
            (App { import_field: field, ..app }, Action::Nothing)
        },
        Key::Enter => {
            let path = trim_text(app.import_path.as_str());
            if path.as_str().is_empty() {
                return (
                    App {
                        import_result: Some("✗ Caminho do arquivo é obrigatório".to_owned()),
                        ..app
                    },
                    Action::Nothing,
                );
            }
            let req = import_request_of(&app);
            (app, Action::Import(req))
        },
        Key::Backspace | Key::Char(_) => (import_form_type(key, app), Action::Nothing),
        _ => (app, Action::Nothing),
    }
}

/// Records that the file to import could not be read; `reason` is the
/// message of the error.
pub fn import_read_failed(app: App, reason: &str) -> (r: App)
    ensures
        r == (App { import_result: r.import_result, ..app }),
        text_is(r.import_result, "✗ Erro ao ler arquivo: "@ + reason@),
{
    let mut m = "✗ Erro ao ler arquivo: ".to_owned();
    push_text(&mut m, reason);
    App { import_result: Some(m), ..app }
}

/// The message of a finished import: how many records were added and how
/// many skipped as duplicates.
pub open spec fn import_summary(rep: ImportReport) -> Seq<char> {
    "✓ Importado: "@ + digits(rep.added_sum() as nat) + " adicionados, "@ + digits(
        rep.skipped_sum() as nat,
    ) + " ignorados (duplicatas)"@
}

/// Records how an import went: its counts, or its error.
pub fn import_finished(app: App, outcome: Result<ImportReport, RatariaError>) -> (r: App)
    requires
        outcome matches Ok(rep) ==> rep.added_sum() <= usize::MAX && rep.skipped_sum()
            <= usize::MAX,
    ensures
        r == (App { import_result: r.import_result, ..app }),
        match outcome {
            Ok(rep) => text_is(r.import_result, import_summary(rep)),
            Err(e) => text_starts(r.import_result, "✗ "@) && (message_spec(e) matches Some(m)
                ==> text_is(r.import_result, "✗ "@ + m)),
        },
{
    let m = match &outcome {
        Ok(rep) => {
            let mut m = "✓ Importado: ".to_owned();
            push_digits(&mut m, rep.total_added() as u64);
            push_text(&mut m, " adicionados, ");
            push_digits(&mut m, rep.total_skipped() as u64);
            push_text(&mut m, " ignorados (duplicatas)");
            m
        },
        Err(e) => failure_text(e),
    };
    App { import_result: Some(m), ..app }
}

// ─── help ───────────────────────────────────────────────────────────────────

/// What a key does on the help screen: `?` or Esc goes back to the screen
/// it was opened from (home when none).
pub open spec fn help_step(o: App, f: App, k: Key) -> bool {
    if k == Key::Char('?') || k == Key::Esc {
        f == (App {
            screen: match o.help_previous_screen {
                Some(s) => s,
                None => Screen::Home,
            },
            help_previous_screen: None,
            ..o
        })
    } else {
        f == o
    }
}

/// Handles key `key` on the help screen.
pub fn handle_help(key: Key, app: App) -> (r: App)
    ensures
        help_step(app, r, key),
{
    match key {
        Key::Char('?') | Key::Esc => {
            let screen = match app.help_previous_screen {
                Some(s) => s,
                None => Screen::Home,
            };
            App { screen, help_previous_screen: None, ..app }
        },
        _ => app,
    }
}

} // verus!

verus! {

// ─── routing ────────────────────────────────────────────────────────────────

/// The action of the interface that a screenshot action stands for.
pub open spec fn as_action(sa: ScreenshotAction) -> Action {
    match sa {
        ScreenshotAction::Nothing => Action::Nothing,
        ScreenshotAction::Preview(p) => Action::Preview(p),
        ScreenshotAction::OpenExternally(p) => Action::OpenExternally(p),
    }
}

/// The action of the interface that screenshot action `sa` stands for.
fn screenshot_action(sa: ScreenshotAction) -> (r: Action)
    ensures
        r == as_action(sa),
{
    match sa {
        ScreenshotAction::Nothing => Action::Nothing,
        ScreenshotAction::Preview(p) => Action::Preview(p),
        ScreenshotAction::OpenExternally(p) => Action::OpenExternally(p),
    }
}

/// What a key does on the lists of a target or of a subdomain, by screen
/// and by the form that is open.
#[verifier::opaque]
pub open spec fn list_screen_step(o: App, f: App, a: Action, k: Key, kitty: bool) -> bool {
    match o.screen {
        Screen::Targets => a is Nothing && if o.confirm_delete {
            targets_confirm_step(o, f, k)
        } else if o.editing_target {
            targets_edit_step(o, f, k)
        } else if o.creating_target {
            targets_create_step(o, f, k)
        } else {
            targets_browse_step(o, f, k)
        },
        Screen::Subdomains => a is Nothing && if o.confirm_delete {
            subdomains_confirm_step(o, f, k)
        } else if o.editing_subdomain {
            subdomains_edit_step(o, f, k)
        } else if o.creating_subdomain {
            subdomains_create_step(o, f, k)
        } else if o.editing_notes {
            subdomains_notes_step(o, f, k)
        } else {
            subdomains_browse_step(o, f, k)
        },
        Screen::IPs => a is Nothing && if o.confirm_delete {
            ips_confirm_step(o, f, k)
        } else if o.editing_ip {
            ips_edit_step(o, f, k)
        } else if o.creating_ip {
            ips_create_step(o, f, k)
        } else {
            ips_browse_step(o, f, k)
        },
        Screen::ASNs => a is Nothing && if o.confirm_delete {
            asns_confirm_step(o, f, k)
        } else if o.editing_asn {
            asns_edit_step(o, f, k)
        } else if o.creating_asn {
            asns_create_step(o, f, k)
        } else {
            asns_browse_step(o, f, k)
        },
        Screen::URLs => a is Nothing && if o.confirm_delete {
            urls_confirm_step(o, f, k)
        } else if o.editing_url {
            urls_edit_step(o, f, k)
        } else if o.creating_url {
            urls_create_step(o, f, k)
        } else {
            urls_browse_step(o, f, k)
        },
        Screen::Technologies => a is Nothing && if o.confirm_delete {
            technologies_confirm_step(o, f, k)
        } else if o.editing_technology {
            technologies_edit_step(o, f, k)
        } else if o.creating_technology {
            technologies_create_step(o, f, k)
        } else {
            technologies_browse_step(o, f, k)
        },
        Screen::Screenshots => if o.confirm_delete {
            a is Nothing && screenshots_confirm_step(o, f, k)
        } else if o.creating_screenshot {
            a is Nothing && screenshots_create_step(o, f, k)
        } else {
            exists|sa: ScreenshotAction|
                #[trigger] as_action(sa) == a && screenshots_browse_step(o, f, sa, k, kitty)
        },
        _ => false,
    }
}

/// What a key does on the screens before a target is chosen, and on the
/// menus and the help.
#[verifier::opaque]
pub open spec fn menu_screen_step(o: App, f: App, a: Action, k: Key) -> bool {
    match o.screen {
        Screen::Password => a is Nothing && password_step(o, f, k),
        Screen::Home => a is Nothing && home_step(o, f, k),
        Screen::CreateEngagement => a is Nothing && create_engagement_step(o, f, k),
        Screen::ListEngagements => a is Nothing && if o.confirm_delete {
            engagements_confirm_step(o, f, k)
        } else if o.editing_engagement {
            engagements_edit_step(o, f, k)
        } else {
            engagements_browse_step(o, f, k)
        },
        Screen::Dashboard => dashboard_step(o, f, a, k),
        Screen::TargetMenu => a is Nothing && target_menu_step(o, f, k),
        Screen::SubdomainMenu => a is Nothing && subdomain_menu_step(o, f, k),
        Screen::Import => import_step(o, f, a, k),
        Screen::Help => a is Nothing && help_step(o, f, k),
        _ => false,
    }
}

/// Whether screen `s` lists what was found on a target or a subdomain.
pub open spec fn is_list_screen(s: Screen) -> bool {
    s == Screen::Targets || s == Screen::Subdomains || s == Screen::IPs || s == Screen::ASNs || s
        == Screen::URLs || s == Screen::Technologies || s == Screen::Screenshots
}

/// What a key does on the screen that `o` shows.
pub open spec fn screen_step(o: App, f: App, a: Action, k: Key, kitty: bool) -> bool {
    if is_list_screen(o.screen) {
        list_screen_step(o, f, a, k, kitty)
    } else {
        menu_screen_step(o, f, a, k)
    }
}

/// Routes key `key` to a list screen.
fn route_list_key(key: Key, app: App, kitty: bool) -> (r: (App, Action))
    requires
        session_open(app),
        is_list_screen(app.screen),
    ensures
        session_open(r.0),
        list_screen_step(app, r.0, r.1, key, kitty),
{
    reveal(list_screen_step);
    match app.screen {
        Screen::Targets => (handle_targets(key, app), Action::Nothing),
        Screen::Subdomains => (handle_subdomains(key, app), Action::Nothing),
        Screen::IPs => (handle_ips(key, app), Action::Nothing),
        Screen::ASNs => (handle_asns(key, app), Action::Nothing),
        Screen::URLs => (handle_urls(key, app), Action::Nothing),
        Screen::Technologies => (handle_technologies(key, app), Action::Nothing),
        _ => {
            let (next, sa) = handle_screenshots(key, app, kitty);
            let ghost g = sa;
            let act = screenshot_action(sa);
            assert(as_action(g) == act);
            (next, act)
        },
    }
}

/// Routes key `key` to a screen before a target is chosen, a menu or the
/// help; the store is the file at `db_path`.
fn route_menu_key(key: Key, app: App, db_path: &std::path::PathBuf) -> (r: (App, Action))
    requires
        consistent(app),
        !is_list_screen(app.screen),
    ensures
        consistent(r.0),
        menu_screen_step(app, r.0, r.1, key),
{
    reveal(menu_screen_step);
    match app.screen {
        Screen::Password => (handle_password(key, app, db_path), Action::Nothing),
        Screen::Home => (handle_home(key, app), Action::Nothing),
        Screen::CreateEngagement => (handle_create_engagement(key, app), Action::Nothing),
        Screen::ListEngagements => (handle_list_engagements(key, app), Action::Nothing),
        Screen::Dashboard => handle_dashboard(key, app),
        Screen::TargetMenu => (handle_target_menu(key, app), Action::Nothing),
        Screen::SubdomainMenu => (handle_subdomain_menu(key, app), Action::Nothing),
        Screen::Import => handle_import(key, app),
        _ => (handle_help(key, app), Action::Nothing),
    }
}

/// What a key does once its activity is recorded in `t`: `?` opens the
/// help (but on the password and help screens); any other key goes to the
/// screen shown.
pub open spec fn key_step(t: App, f: App, a: Action, k: Key, kitty: bool) -> bool {
    if opens_help(t.screen, k) {
        a is Nothing && help_opened(t, f)
    } else {
        screen_step(t, f, a, k, kitty)
    }
}

/// Whether key `k` on screen `s` opens the help: `?`, but on the password
/// and help screens.
pub open spec fn opens_help(s: Screen, k: Key) -> bool {
    k == Key::Char('?') && s != Screen::Password && s != Screen::Help
}

/// Whether `f` is `o` with the help shown, remembering the screen it was
/// opened from.
pub open spec fn help_opened(o: App, f: App) -> bool {
    f == (App { help_previous_screen: Some(o.screen), screen: Screen::Help, ..o })
}

/// Shows the help, remembering the screen it was opened from.
fn show_help(app: App) -> (r: App)
    requires
        consistent(app),
        app.screen != Screen::Password,
    ensures
        consistent(r),
        help_opened(app, r),
{
    let prev = app.screen;
    App { help_previous_screen: Some(prev), screen: Screen::Help, ..app }
}

/// Routes key `key` to the screen shown.
fn route_key(key: Key, app: App, db_path: &std::path::PathBuf, kitty: bool) -> (r: (App, Action))
    requires
        consistent(app),
    ensures
        consistent(r.0),
        screen_step(app, r.0, r.1, key, kitty),
{
    let list = match app.screen {
        Screen::Targets | Screen::Subdomains | Screen::IPs | Screen::ASNs | Screen::URLs
        | Screen::Technologies | Screen::Screenshots => true,
        _ => false,
    };
    if list {
        route_list_key(key, app, kitty)
    } else {
        route_menu_key(key, app, db_path)
    }
}

/// Handles key `key`, pressed at time `now` (seconds): the store is the
/// file at `db_path`, and `kitty` says whether the terminal can show images
/// inline. The action says what the interface is to do beyond the new
/// state.
pub fn handle_key(key: Key, app: App, db_path: &std::path::PathBuf, kitty: bool, now: u64) -> (r: (
    App,
    Action,
))
    requires
        consistent(app),
    ensures
        consistent(r.0),
        key_step(App { last_activity: now, ..app }, r.0, r.1, key, kitty),
{
    let app = App { last_activity: now, ..app };
    if key == Key::Char('?') && app.screen != Screen::Password && app.screen != Screen::Help {
        (show_help(app), Action::Nothing)
    } else {
        route_key(key, app, db_path, kitty)
    }
}

// ─── session and preview ────────────────────────────────────────────────────

/// Whether `f` is `o` with its session closed for inactivity: no store, the
/// password screen, a blank password and the reason shown.
pub open spec fn locked(o: App, f: App) -> bool {
    &&& f == (App {
        db: None,
        screen: Screen::Password,
        password_input: f.password_input,
        password_error: f.password_error,
        ..o
    })
    &&& f.password_input@.len() == 0
    &&& text_is(f.password_error, "Sessão expirada por inatividade"@)
}

/// Closes the session when it has been idle for the whole timeout; a state
/// on the password screen, or without a store, is left as it is.
pub fn expire_session(app: App) -> (r: App)
    requires
        consistent(app),
    ensures
        consistent(r),
        r == app || (app.screen != Screen::Password && app.db is Some && locked(app, r)),
{
    let now = clock_secs();
    expire_session_at(app, now)
}

/// Closes the session when, at time `now` (seconds), it has been idle for
/// the whole timeout; a state on the password screen, or without a store, is
/// left as it is.
pub fn expire_session_at(app: App, now: u64) -> (r: App)
    requires
        consistent(app),
    ensures
        consistent(r),
        if app.screen != Screen::Password && app.db is Some && app.expired_at(now as int) {
            locked(app, r)
        } else {
            r == app
        },
{
    if app.screen != Screen::Password && app.db.is_some() && app.session_expired_at(now) {
        App {
            db: None,
            screen: Screen::Password,
            password_input: String::new(),
            password_error: Some("Sessão expirada por inatividade".to_owned()),
            ..app
        }
    } else {
        app
    }
}

/// The path of the screenshot to show inline now, if any: on the
/// screenshot list (no form open), when the one under the cursor is not the
/// one shown.
pub fn preview_to_render(app: &App) -> (r: Option<String>)
    ensures
        opt_view(r) == (if app.screen == Screen::Screenshots && !app.creating_screenshot
            && app.screenshot_last_rendered != Some(app.screenshot_selected)
            && app.screenshot_selected < app.screenshots@.len() {
            Some(app.screenshots@[app.screenshot_selected as int].file_path@)
        } else {
            None
        }),
{
    if app.screen == Screen::Screenshots && !app.creating_screenshot
        && app.screenshot_last_rendered != Some(app.screenshot_selected)
        && app.screenshot_selected < app.screenshots.len() {
        Some(app.screenshots[app.screenshot_selected].file_path.clone())
    } else {
        None
    }
}

/// Records that the screenshot under the cursor is shown inline.
pub fn preview_rendered(app: App) -> (r: App)
    ensures
        r == (App { screenshot_last_rendered: Some(app.screenshot_selected), ..app }),
{
    let sel = app.screenshot_selected;
    App { screenshot_last_rendered: Some(sel), ..app }
}

/// Forgets the inline image once the screenshot list is left; the flag says
/// whether an image was shown and is to be cleared from the terminal.
pub fn preview_left(app: App) -> (r: (App, bool))
    ensures
        if app.screen == Screen::Screenshots && !app.creating_screenshot {
            r == (app, false)
        } else {
            r.0 == (App { screenshot_last_rendered: None, ..app }) && r.1
                == app.screenshot_last_rendered is Some
        },
{
    if app.screen == Screen::Screenshots && !app.creating_screenshot {
        (app, false)
    } else {
        let shown = app.screenshot_last_rendered.is_some();
        (App { screenshot_last_rendered: None, ..app }, shown)
    }
}

} // verus!
