use rataria::handle_items::{screenshot_open, screenshot_preview};
use rataria::handle_session::expire_session_at;
use rataria::app::{App, DashboardIntent, FormField, ImportField, Screen};
use rataria::db::Database;
use rataria::error::RatariaError;
use rataria::handle_engagements::{
    handle_create_engagement, handle_dashboard, handle_home, handle_list_engagements,
    report_saved, Action,
};
use rataria::handle_items::{handle_asns, handle_ips, handle_screenshots, handle_technologies, handle_urls, ScreenshotAction};
use rataria::handle_session::{
    expire_session, handle_help, handle_import, handle_key, import_finished, import_read_failed,
    preview_left, preview_rendered, preview_to_render,
};
use rataria::handle_subdomains::{handle_subdomain_menu, handle_subdomains};
use rataria::handle_targets::{handle_target_menu, handle_targets};
use rataria::keys::Key;
use rataria::models::{NewEngagement, NewSubdomain, NewTarget, SubdomainStatus, UrlType};
use rataria::queries;
use rataria::report::ImportReport;

fn session() -> App {
    let mut app = App::new();
    app.db = Some(Database::open_in_memory().unwrap());
    app.screen = Screen::Home;
    app
}

fn typed(mut app: App, text: &str, f: fn(Key, App) -> App) -> App {
    for c in text.chars() {
        app = f(Key::Char(c), app);
    }
    app
}

/// A session on the IP list of target `x.com` of engagement `E`.
fn on_target(screen: Screen) -> App {
    let mut app = session();
    let db = app.db.as_mut().unwrap();
    let e = queries::create_engagement(db, NewEngagement { name: "E".to_string(), description: None }).unwrap();
    let t = queries::create_target(db, NewTarget { engagement_id: e.id.clone(), domain: "x.com".to_string() }).unwrap();
    app.current_engagement = Some(e);
    app.current_target = Some(t);
    app.screen = screen;
    app
}

fn on_subdomain(screen: Screen) -> App {
    let mut app = on_target(Screen::Subdomains);
    let tid = app.current_target.as_ref().unwrap().id.clone();
    let db = app.db.as_mut().unwrap();
    let s = queries::create_subdomain(
        db,
        NewSubdomain { target_id: tid, subdomain: "a.x.com".to_string(), status_code: None, title: None },
    )
    .unwrap();
    app.current_subdomain = Some(s);
    app.screen = screen;
    app
}

#[test]
fn home_menu_moves_and_opens() {
    let app = session();
    let app = handle_home(Key::Up, app);
    assert_eq!(app.home_selected, 3);
    let app = handle_home(Key::Char('j'), app);
    assert_eq!(app.home_selected, 0);
    let app = handle_home(Key::Down, app);
    let app = handle_home(Key::Enter, app);
    assert_eq!(app.screen, Screen::CreateEngagement);
    let app = handle_home(Key::Char('q'), session());
    assert!(app.should_quit);
}

#[test]
fn engagement_form_creates_and_refuses_duplicates() {
    let mut app = session();
    app.screen = Screen::CreateEngagement;
    let app = handle_create_engagement(Key::Enter, app);
    assert_eq!(app.form_error.as_deref(), Some("Nome é obrigatório"));
    let app = typed(app, "  Acme  ", handle_create_engagement);
    let app = handle_create_engagement(Key::Tab, app);
    assert_eq!(app.form_field, FormField::Description);
    let app = typed(app, "desc", handle_create_engagement);
    let app = handle_create_engagement(Key::Enter, app);
    assert_eq!(app.screen, Screen::Home);
    assert!(app.form_name.is_empty());
    let engs = queries::list_engagements(app.db.as_ref().unwrap()).unwrap();
    assert_eq!(engs.len(), 1);
    assert_eq!(engs[0].name, "Acme");
    assert_eq!(engs[0].description.as_deref(), Some("desc"));
    let mut app = app;
    app.screen = Screen::CreateEngagement;
    let app = typed(app, "Acme", handle_create_engagement);
    let app = handle_create_engagement(Key::Enter, app);
    assert_eq!(app.form_error.as_deref(), Some("Já existe um engagement com esse nome"));
    assert_eq!(app.screen, Screen::CreateEngagement);
}

#[test]
fn engagement_list_opens_edits_and_deletes() {
    let app = on_subdomain(Screen::Home);
    let app = handle_home(Key::Enter, app);
    assert_eq!(app.screen, Screen::ListEngagements);
    assert_eq!(app.engagements.len(), 1);
    let opened = handle_list_engagements(Key::Enter, app);
    assert_eq!(opened.screen, Screen::Dashboard);
    assert_eq!(opened.targets.len(), 1);
    assert_eq!(opened.subdomains.len(), 1);
    let mut app = opened;
    app.screen = Screen::ListEngagements;
    let app = handle_list_engagements(Key::Char('e'), app);
    assert!(app.editing_engagement);
    assert_eq!(app.form_name, "E");
    let app = handle_list_engagements(Key::Backspace, app);
    let app = typed(app, "F", handle_list_engagements);
    let app = handle_list_engagements(Key::Enter, app);
    assert!(!app.editing_engagement);
    assert_eq!(app.engagements[0].name, "F");
    let app = handle_list_engagements(Key::Char('d'), app);
    assert!(app.confirm_delete);
    assert_eq!(app.confirm_delete_label, "F");
    let app = handle_list_engagements(Key::Enter, app);
    assert!(!app.confirm_delete);
    assert!(app.engagements.is_empty());
    let db = app.db.as_ref().unwrap();
    let tid = app.current_target.as_ref().unwrap().id.clone();
    assert!(queries::get_target(db, &tid).unwrap().is_none());
    let sid = app.current_subdomain.as_ref().unwrap().id.clone();
    assert!(queries::get_subdomain(db, &sid).unwrap().is_none());
}

#[test]
fn dashboard_intent_leads_to_the_list() {
    let mut app = on_target(Screen::Dashboard);
    app.dashboard_selected = 2;
    let (app, act) = handle_dashboard(Key::Enter, app);
    assert!(matches!(act, Action::Nothing));
    assert_eq!(app.dashboard_intent, Some(DashboardIntent::IPs));
    assert_eq!(app.screen, Screen::Targets);
    let app = handle_targets(Key::Enter, app);
    assert_eq!(app.screen, Screen::IPs);
    assert_eq!(app.dashboard_intent, None);
    let (app, _) = handle_dashboard(Key::Up, { let mut a = app; a.screen = Screen::Dashboard; a.dashboard_selected = 0; a });
    assert_eq!(app.dashboard_selected, 6);
}

#[test]
fn dashboard_export_asks_to_save() {
    let app = on_target(Screen::Dashboard);
    let (app, act) = handle_dashboard(Key::Char('e'), app);
    match act {
        Action::SaveReport { content, path } => {
            assert!(content.starts_with("# Engagement: E\n\n"));
            assert!(content.contains("## Target: x.com"));
            assert!(path.contains("rataria_e_"));
            assert!(path.ends_with(".md"));
        },
        _ => panic!("expected a report"),
    }
    let app = report_saved(app, "/tmp/r.md", None);
    assert_eq!(app.form_error.as_deref(), Some("✓ Exportado: /tmp/r.md"));
    let app = report_saved(app, "/tmp/r.md", Some("disco cheio".to_string()));
    assert_eq!(app.form_error.as_deref(), Some("✗ Erro ao salvar: disco cheio"));
}

#[test]
fn ip_list_creates_edits_and_deletes() {
    let app = on_target(Screen::IPs);
    let app = handle_ips(Key::Char('n'), app);
    assert!(app.creating_ip);
    let app = handle_ips(Key::Enter, app);
    assert_eq!(app.form_error.as_deref(), Some("IP é obrigatório"));
    let app = typed(app, "1.2.3.4", handle_ips);
    let app = handle_ips(Key::Enter, app);
    assert!(!app.creating_ip);
    assert_eq!(app.ips.len(), 1);
    assert_eq!(app.ips[0].ip, "1.2.3.4");
    let app = handle_ips(Key::Char('n'), app);
    let app = typed(app, "1.2.3.4", handle_ips);
    let app = handle_ips(Key::Enter, app);
    assert_eq!(app.form_error.as_deref(), Some("IP já existe neste target"));
    let app = handle_ips(Key::Esc, app);
    assert!(!app.creating_ip);
    let app = handle_ips(Key::Char('e'), app);
    assert!(app.editing_ip);
    let app = handle_ips(Key::Backspace, app);
    let app = handle_ips(Key::Char('5'), app);
    let app = handle_ips(Key::Enter, app);
    assert!(!app.editing_ip);
    assert_eq!(app.ips[0].ip, "1.2.3.5");
    let app = handle_ips(Key::Char('d'), app);
    assert_eq!(app.confirm_delete_label, "1.2.3.5");
    let app = handle_ips(Key::Esc, app);
    assert!(!app.confirm_delete);
    assert_eq!(app.ips.len(), 1);
    let app = handle_ips(Key::Char('d'), app);
    let app = handle_ips(Key::Enter, app);
    assert!(app.ips.is_empty());
    let app = handle_ips(Key::Esc, app);
    assert_eq!(app.screen, Screen::Dashboard);
}

#[test]
fn asn_form_has_two_fields() {
    let app = on_target(Screen::ASNs);
    let app = handle_asns(Key::Char('n'), app);
    let app = typed(app, "AS1", handle_asns);
    let app = handle_asns(Key::Tab, app);
    let app = typed(app, " Org ", handle_asns);
    let app = handle_asns(Key::Enter, app);
    assert_eq!(app.asns.len(), 1);
    assert_eq!(app.asns[0].org.as_deref(), Some("Org"));
    assert!(app.form_org.is_empty());
    let app = handle_asns(Key::Char('e'), app);
    assert_eq!(app.form_org, "Org");
    let app = handle_asns(Key::Tab, app);
    let app = handle_asns(Key::Backspace, app);
    let app = handle_asns(Key::Backspace, app);
    let app = handle_asns(Key::Backspace, app);
    let app = handle_asns(Key::Enter, app);
    assert_eq!(app.asns[0].org, None);
}

#[test]
fn subdomain_list_cycles_status_and_filters() {
    let app = on_subdomain(Screen::Subdomains);
    let tid = app.current_target.as_ref().unwrap().id.clone();
    let mut app = app;
    app.subdomains = queries::list_subdomains(app.db.as_ref().unwrap(), &tid).unwrap();
    let app = handle_subdomains(Key::Char('s'), app);
    assert_eq!(app.subdomains[0].status, SubdomainStatus::InProgress);
    let app = handle_subdomains(Key::Char('f'), app);
    assert_eq!(app.subdomain_filter, Some(SubdomainStatus::NotVisited));
    let app = handle_subdomains(Key::Char('o'), app);
    assert!(app.editing_notes);
    let app = typed(app, "nota", handle_subdomains);
    let app = handle_subdomains(Key::Enter, app);
    assert!(!app.editing_notes);
    assert_eq!(app.subdomains[0].notes.as_deref(), Some("nota"));
    let app = handle_subdomains(Key::Char('e'), app);
    assert!(app.editing_subdomain);
    let app = handle_subdomains(Key::Tab, app);
    assert_eq!(app.form_field, FormField::StatusCode);
    let app = typed(app, "4x", handle_subdomains);
    let app = handle_subdomains(Key::Enter, app);
    assert_eq!(app.form_error.as_deref(), Some("Status code deve ser um número"));
    let app = handle_subdomains(Key::Backspace, app);
    let app = typed(app, "04", handle_subdomains);
    let app = handle_subdomains(Key::Tab, app);
    let app = typed(app, "Forbidden", handle_subdomains);
    let app = handle_subdomains(Key::Enter, app);
    assert!(!app.editing_subdomain);
    assert_eq!(app.subdomains[0].status_code, Some(404));
    assert_eq!(app.subdomains[0].title.as_deref(), Some("Forbidden"));
    let app = handle_subdomains(Key::Char('e'), app);
    assert_eq!(app.form_status_code, "404");
    let app = handle_subdomains(Key::Esc, app);
    let app = handle_subdomains(Key::Enter, app);
    assert_eq!(app.screen, Screen::SubdomainMenu);
    let app = handle_subdomain_menu(Key::Down, app);
    let app = handle_subdomain_menu(Key::Enter, app);
    assert_eq!(app.screen, Screen::Technologies);
}

#[test]
fn subdomain_creation_refuses_duplicates() {
    let app = on_subdomain(Screen::Subdomains);
    let app = handle_subdomains(Key::Char('n'), app);
    let app = typed(app, "a.x.com", handle_subdomains);
    let app = handle_subdomains(Key::Enter, app);
    assert_eq!(app.form_error.as_deref(), Some("Subdomain já existe neste target"));
    let app = handle_subdomains(Key::Esc, app);
    let app = handle_subdomains(Key::Char('n'), app);
    let app = typed(app, "b.x.com", handle_subdomains);
    let app = handle_subdomains(Key::Enter, app);
    assert_eq!(app.subdomains.len(), 2);
    assert_eq!(app.subdomains[1].subdomain, "b.x.com");
}

#[test]
fn url_kind_cycles_with_tab() {
    let app = on_subdomain(Screen::URLs);
    let app = handle_urls(Key::Char('n'), app);
    assert_eq!(app.form_url_type, UrlType::Other);
    let app = handle_urls(Key::Tab, app);
    assert_eq!(app.form_url_type, UrlType::Parameter);
    let app = handle_urls(Key::Tab, app);
    assert_eq!(app.form_url_type, UrlType::JavaScript);
    let app = typed(app, "https://x.com/a.js", handle_urls);
    let app = handle_urls(Key::Enter, app);
    assert_eq!(app.urls.len(), 1);
    assert_eq!(app.urls[0].url_type, UrlType::JavaScript);
    let app = handle_urls(Key::Esc, app);
    assert_eq!(app.screen, Screen::SubdomainMenu);
}

#[test]
fn technologies_and_screenshots() {
    let app = on_subdomain(Screen::Technologies);
    let app = handle_technologies(Key::Char('n'), app);
    let app = typed(app, "Nginx", handle_technologies);
    let app = handle_technologies(Key::Tab, app);
    let app = typed(app, "1.24", handle_technologies);
    let app = handle_technologies(Key::Enter, app);
    assert_eq!(app.technologies.len(), 1);
    assert_eq!(app.technologies[0].version.as_deref(), Some("1.24"));
    let mut app = app;
    app.screen = Screen::Screenshots;
    let (app, act) = handle_screenshots(Key::Char('n'), app, true);
    assert!(matches!(act, ScreenshotAction::Nothing));
    let app = {
        let mut a = app;
        for c in "/nao/existe.png".chars() {
            a = handle_screenshots(Key::Char(c), a, true).0;
        }
        a
    };
    let (app, _) = handle_screenshots(Key::Enter, app, true);
    assert_eq!(app.screenshots.len(), 1);
    let (app, act) = handle_screenshots(Key::Enter, app, true);
    assert!(matches!(act, ScreenshotAction::Nothing));
    assert_eq!(app.form_error.as_deref(), Some("Arquivo não encontrado ou formato inválido"));
    let (app, act) = handle_screenshots(Key::Char('o'), app, false);
    assert!(matches!(act, ScreenshotAction::Nothing));
    assert_eq!(preview_to_render(&app).as_deref(), Some("/nao/existe.png"));
    let app = preview_rendered(app);
    assert_eq!(preview_to_render(&app), None);
    let mut app = app;
    app.screen = Screen::SubdomainMenu;
    let (app, clear) = preview_left(app);
    assert!(clear);
    assert_eq!(app.screenshot_last_rendered, None);
}

#[test]
fn target_menu_and_target_forms() {
    let mut app = on_target(Screen::Targets);
    let eid = app.current_engagement.as_ref().unwrap().id.clone();
    app.targets = queries::list_targets(app.db.as_ref().unwrap(), &eid).unwrap();
    let app = handle_targets(Key::Char('n'), app);
    let app = handle_targets(Key::Enter, app);
    assert_eq!(app.form_error.as_deref(), Some("Domínio é obrigatório"));
    let app = typed(app, "y.com", handle_targets);
    let app = handle_targets(Key::Enter, app);
    assert_eq!(app.targets.len(), 2);
    let app = handle_targets(Key::Char('e'), app);
    let app = typed(app, ".br", handle_targets);
    let app = handle_targets(Key::Enter, app);
    assert_eq!(app.targets[0].domain, "x.com.br");
    let app = handle_targets(Key::Enter, app);
    assert_eq!(app.screen, Screen::TargetMenu);
    let app = handle_target_menu(Key::Down, app);
    let app = handle_target_menu(Key::Down, app);
    let app = handle_target_menu(Key::Enter, app);
    assert_eq!(app.screen, Screen::ASNs);
}

#[test]
fn keys_route_and_help_returns() {
    let app = on_target(Screen::IPs);
    let path = std::path::PathBuf::from("/nonexistent/rataria.db");
    let (app, act) = handle_key(Key::Char('?'), app, &path, false, 1000);
    assert!(matches!(act, Action::Nothing));
    assert_eq!(app.screen, Screen::Help);
    assert_eq!(app.help_previous_screen, Some(Screen::IPs));
    assert_eq!(app.last_activity, 1000);
    let (app, _) = handle_key(Key::Char('x'), app, &path, false, 1001);
    assert_eq!(app.screen, Screen::Help);
    let (app, _) = handle_key(Key::Esc, app, &path, false, 1002);
    assert_eq!(app.screen, Screen::IPs);
    assert_eq!(app.help_previous_screen, None);
    let app = handle_help(Key::Esc, { let mut a = app; a.screen = Screen::Help; a });
    assert_eq!(app.screen, Screen::Home);
    let (app, _) = handle_key(Key::Char('?'), { let mut a = app; a.screen = Screen::Password; a }, &path, false, 5);
    assert_eq!(app.screen, Screen::Password);
    assert_eq!(app.password_input, "?");
}

#[test]
fn idle_session_is_locked() {
    let app = session();
    let app = expire_session(app);
    assert_eq!(app.screen, Screen::Password);
    assert!(app.db.is_none());
    assert_eq!(app.password_error.as_deref(), Some("Sessão expirada por inatividade"));
    let fresh = App::new();
    let again = expire_session(fresh);
    assert_eq!(again.screen, Screen::Password);
    assert!(again.password_error.is_none());
}

#[test]
fn import_form_requests_and_reports() {
    let mut app = session();
    app.screen = Screen::Import;
    let (app, act) = handle_import(Key::Enter, app);
    assert!(matches!(act, Action::Nothing));
    assert_eq!(app.import_result.as_deref(), Some("✗ Caminho do arquivo é obrigatório"));
    let mut app = app;
    for c in " /tmp/subs.txt ".chars() {
        app = handle_import(Key::Char(c), app).0;
    }
    assert!(app.import_result.is_none());
    let (app, _) = handle_import(Key::Tab, app);
    assert_eq!(app.import_field, ImportField::Target);
    let mut app = app;
    for c in "x.com".chars() {
        app = handle_import(Key::Char(c), app).0;
    }
    let (app, act) = handle_import(Key::Enter, app);
    match act {
        Action::Import(req) => {
            assert_eq!(req.path, "/tmp/subs.txt");
            assert_eq!(req.target.as_deref(), Some("x.com"));
            assert_eq!(req.engagement, None);
        },
        _ => panic!("expected an import"),
    }
    let app = import_read_failed(app, "sem permissão");
    assert_eq!(app.import_result.as_deref(), Some("✗ Erro ao ler arquivo: sem permissão"));
    let mut rep = ImportReport::default();
    rep.subdomains_added = 3;
    rep.ips_skipped = 2;
    let app = import_finished(app, Ok(rep));
    assert_eq!(app.import_result.as_deref(), Some("✓ Importado: 3 adicionados, 2 ignorados (duplicatas)"));
    let app = import_finished(app, Err(RatariaError::ImportError("vazio".to_string())));
    assert_eq!(app.import_result.as_deref(), Some("✗ Erro de importação: vazio"));
    let (app, _) = handle_import(Key::Esc, app);
    assert_eq!(app.screen, Screen::Home);
    assert!(app.import_path.is_empty());
}

#[test]
fn deletion_waits_for_enter_through_handle_key() {
    let path = std::path::PathBuf::from("/nonexistent/rataria.db");
    let app = on_subdomain(Screen::Subdomains);
    let tid = app.current_target.as_ref().unwrap().id.clone();
    let app = App { subdomains: queries::list_subdomains(app.db.as_ref().unwrap(), &tid).unwrap(), ..app };
    let count = |a: &App| queries::list_subdomains(a.db.as_ref().unwrap(), &tid).unwrap().len();
    assert_eq!(count(&app), 1);
    let (app, _) = handle_key(Key::Char('d'), app, &path, false, 10);
    assert!(app.confirm_delete);
    assert_eq!(count(&app), 1);
    let mut app = app;
    for k in [Key::Char('d'), Key::Char('s'), Key::Tab, Key::Down, Key::Backspace] {
        let (next, _) = handle_key(k, app, &path, false, 11);
        assert!(next.confirm_delete);
        assert_eq!(count(&next), 1);
        app = next;
    }
    let (app, _) = handle_key(Key::Esc, app, &path, false, 12);
    assert!(!app.confirm_delete);
    assert_eq!(count(&app), 1);
    let (app, _) = handle_key(Key::Char('d'), app, &path, false, 13);
    let (app, _) = handle_key(Key::Enter, app, &path, false, 14);
    assert_eq!(count(&app), 0);
}

#[test]
fn session_expires_only_after_the_timeout() {
    let mut app = session();
    app.last_activity = 1000;
    let app = expire_session_at(app, 1299);
    assert_eq!(app.screen, Screen::Home);
    assert!(app.db.is_some());
    let app = expire_session_at(app, 1300);
    assert_eq!(app.screen, Screen::Password);
    assert!(app.db.is_none());
    assert_eq!(app.password_error.as_deref(), Some("Sessão expirada por inatividade"));
}

#[test]
fn screenshot_preview_decides_from_file_and_terminal() {
    let (app, act) = screenshot_preview(App::new(), "/x/shot.png".to_string(), true, true);
    assert!(matches!(act, ScreenshotAction::Preview(ref p) if p == "/x/shot.png"));
    assert!(app.form_error.is_none());
    let (app, act) = screenshot_preview(App::new(), "/x/shot.png".to_string(), true, false);
    assert!(matches!(act, ScreenshotAction::Nothing));
    assert_eq!(app.form_error.as_deref(), Some("Terminal não suporta preview — use O para abrir externamente"));
    let (app, act) = screenshot_preview(App::new(), "/x/shot.png".to_string(), false, true);
    assert!(matches!(act, ScreenshotAction::Nothing));
    assert_eq!(app.form_error.as_deref(), Some("Arquivo não encontrado ou formato inválido"));
    let (app, _) = screenshot_preview(App::new(), "/x/notes.txt".to_string(), true, true);
    assert_eq!(app.form_error.as_deref(), Some("Arquivo não encontrado ou formato inválido"));
    let (_, act) = screenshot_open(App::new(), "/x/a.JPG".to_string(), true);
    assert!(matches!(act, ScreenshotAction::OpenExternally(ref p) if p == "/x/a.JPG"));
    let (app, act) = screenshot_open(App::new(), "/x/a.JPG".to_string(), false);
    assert!(matches!(act, ScreenshotAction::Nothing));
    assert_eq!(app.form_error.as_deref(), Some("Arquivo não encontrado ou formato inválido"));
}

#[test]
fn keys_that_do_not_touch_the_store_work_without_one() {
    let mut app = App::new();
    app.subdomain_filter = Some(SubdomainStatus::FalsePositive);
    app.subdomain_selected = 2;
    let app = handle_subdomains(Key::Char('f'), app);
    assert_eq!(app.subdomain_filter, None);
    assert_eq!(app.subdomain_selected, 0);
    assert!(app.db.is_none());
    let mut app = App::new();
    app.creating_url = true;
    app.form_url_type = UrlType::Other;
    let app = handle_urls(Key::Tab, app);
    assert_eq!(app.form_url_type, UrlType::Parameter);
    assert!(app.creating_url);
    assert_eq!(app.form_name, "");
    let mut app = App::new();
    app.creating_ip = true;
    let app = typed(app, "10.0.0.1", handle_ips);
    assert_eq!(app.form_name, "10.0.0.1");
}

#[test]
fn reading_keys_without_a_store_only_navigate() {
    let t = rataria::models::Target {
        id: "t1".to_string(),
        engagement_id: "e1".to_string(),
        domain: "x.com".to_string(),
        created_at: String::new(),
    };
    let mut app = App::new();
    app.screen = Screen::Targets;
    app.targets = vec![t];
    let app = handle_targets(Key::Enter, app);
    assert_eq!(app.screen, Screen::TargetMenu);
    assert_eq!(app.current_target.as_ref().map(|t| t.domain.as_str()), Some("x.com"));
    assert!(app.db.is_none());
    let mut app = App::new();
    app.confirm_delete = true;
    app.confirm_delete_label = "x".to_string();
    let app = handle_ips(Key::Enter, app);
    assert!(!app.confirm_delete);
    assert_eq!(app.confirm_delete_label, "");
}
