use rataria::app::{App, FormField, ImportField, Screen};
use rataria::models::Engagement;

// ── helpers ──────────────────────────────────────────────────────────────

fn make_engagement(name: &str) -> Engagement {
    Engagement {
        id: uuid::Uuid::new_v4().to_string(),
        name: name.to_string(),
        description: None,
        created_at: chrono::Utc::now().naive_utc().to_string(),
        updated_at: chrono::Utc::now().naive_utc().to_string(),
    }
}

// ── testes originais ─────────────────────────────────────────────────────

#[test]
fn test_app_inicia_na_tela_de_senha() {
    let app = App::new();
    assert_eq!(app.screen, Screen::Password);
}

#[test]
fn test_app_inicia_sem_erro() {
    let app = App::new();
    assert!(app.password_error.is_none());
}

#[test]
fn test_app_inicia_sem_db() {
    let app = App::new();
    assert!(app.db.is_none());
}

#[test]
fn test_home_next_navega_para_frente() {
    let mut app = App::new();
    assert_eq!(app.home_selected, 0);
    app.home_next();
    assert_eq!(app.home_selected, 1);
    app.home_next();
    assert_eq!(app.home_selected, 2);
}

#[test]
fn test_home_next_wrap_no_final() {
    let mut app = App::new();
    let total = App::home_menu_items().len();
    for _ in 0..total {
        app.home_next();
    }
    assert_eq!(app.home_selected, 0);
}

#[test]
fn test_home_previous_navega_para_tras() {
    let mut app = App::new();
    app.home_selected = 2;
    app.home_previous();
    assert_eq!(app.home_selected, 1);
    app.home_previous();
    assert_eq!(app.home_selected, 0);
}

#[test]
fn test_home_previous_wrap_no_inicio() {
    let mut app = App::new();
    assert_eq!(app.home_selected, 0);
    app.home_previous();
    assert_eq!(app.home_selected, App::home_menu_items().len() - 1);
}

#[test]
fn test_home_menu_tem_4_itens() {
    assert_eq!(App::home_menu_items().len(), 4);
}

// ── testes de formulário ─────────────────────────────────────────────────

#[test]
fn test_form_inicia_vazio() {
    let app = App::new();
    assert!(app.form_name.is_empty());
    assert!(app.form_description.is_empty());
    assert_eq!(app.form_field, FormField::Name);
    assert!(app.form_error.is_none());
}

#[test]
fn test_reset_form_limpa_tudo() {
    let mut app = App::new();
    app.form_name = "Empresa X".to_string();
    app.form_description = "Descrição".to_string();
    app.form_field = FormField::Description;
    app.form_error = Some("erro".to_string());

    app.reset_form();

    assert!(app.form_name.is_empty());
    assert!(app.form_description.is_empty());
    assert_eq!(app.form_field, FormField::Name);
    assert!(app.form_error.is_none());
}

#[test]
fn test_form_next_field_alterna() {
    let mut app = App::new();
    assert_eq!(app.form_field, FormField::Name);
    app.form_next_field();
    assert_eq!(app.form_field, FormField::Description);
    app.form_next_field();
    assert_eq!(app.form_field, FormField::Name);
}

// ── testes de lista de engagements ────────────────────────────────────────

#[test]
fn test_engagements_next_navega() {
    let mut app = App::new();
    app.engagements = vec![
        make_engagement("A"),
        make_engagement("B"),
        make_engagement("C"),
    ];

    assert_eq!(app.engagement_selected, 0);
    app.engagements_next();
    assert_eq!(app.engagement_selected, 1);
    app.engagements_next();
    assert_eq!(app.engagement_selected, 2);
}

#[test]
fn test_engagements_next_wrap() {
    let mut app = App::new();
    app.engagements = vec![make_engagement("A"), make_engagement("B")];
    app.engagement_selected = 1;

    app.engagements_next();
    assert_eq!(app.engagement_selected, 0);
}

#[test]
fn test_engagements_previous_navega() {
    let mut app = App::new();
    app.engagements = vec![
        make_engagement("A"),
        make_engagement("B"),
        make_engagement("C"),
    ];
    app.engagement_selected = 2;

    app.engagements_previous();
    assert_eq!(app.engagement_selected, 1);
    app.engagements_previous();
    assert_eq!(app.engagement_selected, 0);
}

#[test]
fn test_engagements_previous_wrap() {
    let mut app = App::new();
    app.engagements = vec![make_engagement("A"), make_engagement("B")];
    app.engagement_selected = 0;

    app.engagements_previous();
    assert_eq!(app.engagement_selected, 1);
}

#[test]
fn test_engagements_next_vazio_nao_crasha() {
    let mut app = App::new();
    app.engagements_next();
    assert_eq!(app.engagement_selected, 0);
}

#[test]
fn test_engagements_previous_vazio_nao_crasha() {
    let mut app = App::new();
    app.engagements_previous();
    assert_eq!(app.engagement_selected, 0);
}

#[test]
fn test_selected_engagement_retorna_correto() {
    let mut app = App::new();
    let eng_b = make_engagement("B");
    app.engagements = vec![make_engagement("A"), eng_b.clone(), make_engagement("C")];
    app.engagement_selected = 1;

    let selected = app.selected_engagement().unwrap();
    assert_eq!(selected.name, "B");
    assert_eq!(selected.id, eng_b.id);
}

#[test]
fn test_selected_engagement_vazio_retorna_none() {
    let app = App::new();
    assert!(app.selected_engagement().is_none());
}

// ── helpers de target ────────────────────────────────────────────────────

fn make_target(domain: &str) -> rataria::models::Target {
    rataria::models::Target {
        id: uuid::Uuid::new_v4().to_string(),
        engagement_id: uuid::Uuid::new_v4().to_string(),
        domain: domain.to_string(),
        created_at: chrono::Utc::now().naive_utc().to_string(),
    }
}

// ── testes de dashboard ───────────────────────────────────────────────────

#[test]
fn test_dashboard_inicia_no_primeiro_item() {
    let app = App::new();
    assert_eq!(app.dashboard_selected, 0);
}

#[test]
fn test_dashboard_menu_tem_7_itens() {
    assert_eq!(App::dashboard_menu_items().len(), 7);
}

#[test]
fn test_dashboard_next_navega() {
    let mut app = App::new();
    app.dashboard_next();
    assert_eq!(app.dashboard_selected, 1);
    app.dashboard_next();
    assert_eq!(app.dashboard_selected, 2);
}

#[test]
fn test_dashboard_next_wrap() {
    let mut app = App::new();
    let total = App::dashboard_menu_items().len();
    for _ in 0..total {
        app.dashboard_next();
    }
    assert_eq!(app.dashboard_selected, 0);
}

#[test]
fn test_dashboard_previous_navega() {
    let mut app = App::new();
    app.dashboard_selected = 3;
    app.dashboard_previous();
    assert_eq!(app.dashboard_selected, 2);
    app.dashboard_previous();
    assert_eq!(app.dashboard_selected, 1);
}

#[test]
fn test_dashboard_previous_wrap() {
    let mut app = App::new();
    assert_eq!(app.dashboard_selected, 0);
    app.dashboard_previous();
    assert_eq!(
        app.dashboard_selected,
        App::dashboard_menu_items().len() - 1
    );
}

// ── testes de targets ─────────────────────────────────────────────────────

#[test]
fn test_targets_next_navega() {
    let mut app = App::new();
    app.targets = vec![
        make_target("empresa.com"),
        make_target("subsidiaria.com"),
        make_target("outro.com"),
    ];
    assert_eq!(app.target_selected, 0);
    app.targets_next();
    assert_eq!(app.target_selected, 1);
    app.targets_next();
    assert_eq!(app.target_selected, 2);
}

#[test]
fn test_targets_next_wrap() {
    let mut app = App::new();
    app.targets = vec![make_target("a.com"), make_target("b.com")];
    app.target_selected = 1;
    app.targets_next();
    assert_eq!(app.target_selected, 0);
}

#[test]
fn test_targets_previous_navega() {
    let mut app = App::new();
    app.targets = vec![
        make_target("a.com"),
        make_target("b.com"),
        make_target("c.com"),
    ];
    app.target_selected = 2;
    app.targets_previous();
    assert_eq!(app.target_selected, 1);
    app.targets_previous();
    assert_eq!(app.target_selected, 0);
}

#[test]
fn test_targets_previous_wrap() {
    let mut app = App::new();
    app.targets = vec![make_target("a.com"), make_target("b.com")];
    app.target_selected = 0;
    app.targets_previous();
    assert_eq!(app.target_selected, 1);
}

#[test]
fn test_targets_next_vazio_nao_crasha() {
    let mut app = App::new();
    app.targets_next();
    assert_eq!(app.target_selected, 0);
}

#[test]
fn test_targets_previous_vazio_nao_crasha() {
    let mut app = App::new();
    app.targets_previous();
    assert_eq!(app.target_selected, 0);
}

#[test]
fn test_selected_target_retorna_correto() {
    let mut app = App::new();
    let t = make_target("alvo.com");
    app.targets = vec![make_target("a.com"), t.clone(), make_target("b.com")];
    app.target_selected = 1;
    let selected = app.selected_target().unwrap();
    assert_eq!(selected.domain, "alvo.com");
    assert_eq!(selected.id, t.id);
}

#[test]
fn test_selected_target_vazio_retorna_none() {
    let app = App::new();
    assert!(app.selected_target().is_none());
}

#[test]
fn test_creating_target_inicia_false() {
    let app = App::new();
    assert!(!app.creating_target);
}

// ── helpers de subdomain ──────────────────────────────────────────────────

fn make_subdomain(
    sub: &str,
    status: rataria::models::SubdomainStatus,
) -> rataria::models::Subdomain {
    rataria::models::Subdomain {
        id: uuid::Uuid::new_v4().to_string(),
        target_id: uuid::Uuid::new_v4().to_string(),
        subdomain: sub.to_string(),
        status,
        notes: None,
        status_code: None,
        title: None,
        created_at: chrono::Utc::now().naive_utc().to_string(),
        updated_at: chrono::Utc::now().naive_utc().to_string(),
    }
}

// ── testes de subdomains ──────────────────────────────────────────────────

#[test]
fn test_subdomains_next_navega() {
    let mut app = App::new();
    app.subdomains = vec![
        make_subdomain("api.x.com", rataria::models::SubdomainStatus::NotVisited),
        make_subdomain(
            "admin.x.com",
            rataria::models::SubdomainStatus::NotVisited,
        ),
        make_subdomain("dev.x.com", rataria::models::SubdomainStatus::NotVisited),
    ];
    assert_eq!(app.subdomain_selected, 0);
    app.subdomains_next();
    assert_eq!(app.subdomain_selected, 1);
    app.subdomains_next();
    assert_eq!(app.subdomain_selected, 2);
}

#[test]
fn test_subdomains_next_wrap() {
    let mut app = App::new();
    app.subdomains = vec![
        make_subdomain("a.x.com", rataria::models::SubdomainStatus::NotVisited),
        make_subdomain("b.x.com", rataria::models::SubdomainStatus::NotVisited),
    ];
    app.subdomain_selected = 1;
    app.subdomains_next();
    assert_eq!(app.subdomain_selected, 0);
}

#[test]
fn test_subdomains_previous_navega() {
    let mut app = App::new();
    app.subdomains = vec![
        make_subdomain("a.x.com", rataria::models::SubdomainStatus::NotVisited),
        make_subdomain("b.x.com", rataria::models::SubdomainStatus::NotVisited),
        make_subdomain("c.x.com", rataria::models::SubdomainStatus::NotVisited),
    ];
    app.subdomain_selected = 2;
    app.subdomains_previous();
    assert_eq!(app.subdomain_selected, 1);
    app.subdomains_previous();
    assert_eq!(app.subdomain_selected, 0);
}

#[test]
fn test_subdomains_previous_wrap() {
    let mut app = App::new();
    app.subdomains = vec![
        make_subdomain("a.x.com", rataria::models::SubdomainStatus::NotVisited),
        make_subdomain("b.x.com", rataria::models::SubdomainStatus::NotVisited),
    ];
    app.subdomain_selected = 0;
    app.subdomains_previous();
    assert_eq!(app.subdomain_selected, 1);
}

#[test]
fn test_subdomains_next_vazio_nao_crasha() {
    let mut app = App::new();
    app.subdomains_next();
    assert_eq!(app.subdomain_selected, 0);
}

#[test]
fn test_subdomains_previous_vazio_nao_crasha() {
    let mut app = App::new();
    app.subdomains_previous();
    assert_eq!(app.subdomain_selected, 0);
}

#[test]
fn test_selected_subdomain_retorna_correto() {
    let mut app = App::new();
    let s = make_subdomain("api.x.com", rataria::models::SubdomainStatus::Vulnerable);
    app.subdomains = vec![
        make_subdomain("a.x.com", rataria::models::SubdomainStatus::NotVisited),
        s.clone(),
    ];
    app.subdomain_selected = 1;
    let selected = app.selected_subdomain().unwrap();
    assert_eq!(selected.subdomain, "api.x.com");
    assert_eq!(selected.id, s.id);
}

#[test]
fn test_selected_subdomain_vazio_retorna_none() {
    let app = App::new();
    assert!(app.selected_subdomain().is_none());
}

#[test]
fn test_subdomains_filtered_sem_filtro_retorna_todos() {
    let mut app = App::new();
    app.subdomains = vec![
        make_subdomain("a.x.com", rataria::models::SubdomainStatus::NotVisited),
        make_subdomain("b.x.com", rataria::models::SubdomainStatus::Vulnerable),
        make_subdomain("c.x.com", rataria::models::SubdomainStatus::Reviewed),
    ];
    assert_eq!(app.subdomains_filtered().len(), 3);
}

#[test]
fn test_subdomains_filtered_com_filtro() {
    let mut app = App::new();
    app.subdomains = vec![
        make_subdomain("a.x.com", rataria::models::SubdomainStatus::NotVisited),
        make_subdomain("b.x.com", rataria::models::SubdomainStatus::Vulnerable),
        make_subdomain("c.x.com", rataria::models::SubdomainStatus::Vulnerable),
    ];
    app.subdomain_filter = Some(rataria::models::SubdomainStatus::Vulnerable);
    assert_eq!(app.subdomains_filtered().len(), 2);
}

#[test]
fn test_subdomains_filter_none_inicial() {
    let app = App::new();
    assert!(app.subdomain_filter.is_none());
}

#[test]
fn test_editing_notes_inicia_false() {
    let app = App::new();
    assert!(!app.editing_notes);
}

// ── testes de target menu ─────────────────────────────────────────────────

#[test]
fn test_target_menu_tem_3_itens() {
    assert_eq!(App::target_menu_items().len(), 3);
}

#[test]
fn test_target_menu_next_wrap() {
    let mut app = App::new();
    let total = App::target_menu_items().len();
    for _ in 0..total {
        app.target_menu_next();
    }
    assert_eq!(app.target_menu_selected, 0);
}

#[test]
fn test_target_menu_previous_wrap() {
    let mut app = App::new();
    app.target_menu_previous();
    assert_eq!(app.target_menu_selected, App::target_menu_items().len() - 1);
}

// ── testes de subdomain menu ──────────────────────────────────────────────

#[test]
fn test_subdomain_menu_tem_3_itens() {
    assert_eq!(App::subdomain_menu_items().len(), 3);
}

#[test]
fn test_subdomain_menu_next_wrap() {
    let mut app = App::new();
    let total = App::subdomain_menu_items().len();
    for _ in 0..total {
        app.subdomain_menu_next();
    }
    assert_eq!(app.subdomain_menu_selected, 0);
}

#[test]
fn test_subdomain_menu_previous_wrap() {
    let mut app = App::new();
    app.subdomain_menu_previous();
    assert_eq!(
        app.subdomain_menu_selected,
        App::subdomain_menu_items().len() - 1
    );
}

// ── testes de IPs ─────────────────────────────────────────────────────────

fn make_ip(ip: &str) -> rataria::models::Ip {
    rataria::models::Ip {
        id: uuid::Uuid::new_v4().to_string(),
        target_id: uuid::Uuid::new_v4().to_string(),
        ip: ip.to_string(),
        created_at: chrono::Utc::now().naive_utc().to_string(),
    }
}

#[test]
fn test_ips_next_navega() {
    let mut app = App::new();
    app.ips = vec![make_ip("1.1.1.1"), make_ip("2.2.2.2"), make_ip("3.3.3.3")];
    app.ips_next();
    assert_eq!(app.ip_selected, 1);
}

#[test]
fn test_ips_next_wrap() {
    let mut app = App::new();
    app.ips = vec![make_ip("1.1.1.1"), make_ip("2.2.2.2")];
    app.ip_selected = 1;
    app.ips_next();
    assert_eq!(app.ip_selected, 0);
}

#[test]
fn test_ips_previous_wrap() {
    let mut app = App::new();
    app.ips = vec![make_ip("1.1.1.1"), make_ip("2.2.2.2")];
    app.ips_previous();
    assert_eq!(app.ip_selected, 1);
}

#[test]
fn test_ips_vazio_nao_crasha() {
    let mut app = App::new();
    app.ips_next();
    app.ips_previous();
    assert_eq!(app.ip_selected, 0);
}

#[test]
fn test_selected_ip_retorna_correto() {
    let mut app = App::new();
    let ip = make_ip("8.8.8.8");
    app.ips = vec![make_ip("1.1.1.1"), ip.clone()];
    app.ip_selected = 1;
    assert_eq!(app.selected_ip().unwrap().ip, "8.8.8.8");
}

#[test]
fn test_selected_ip_vazio_retorna_none() {
    let app = App::new();
    assert!(app.selected_ip().is_none());
}

// ── testes de ASNs ────────────────────────────────────────────────────────

fn make_asn(asn: &str) -> rataria::models::Asn {
    rataria::models::Asn {
        id: uuid::Uuid::new_v4().to_string(),
        target_id: uuid::Uuid::new_v4().to_string(),
        asn: asn.to_string(),
        org: None,
        created_at: chrono::Utc::now().naive_utc().to_string(),
    }
}

#[test]
fn test_asns_next_navega() {
    let mut app = App::new();
    app.asns = vec![make_asn("AS111"), make_asn("AS222"), make_asn("AS333")];
    app.asns_next();
    assert_eq!(app.asn_selected, 1);
}

#[test]
fn test_asns_next_wrap() {
    let mut app = App::new();
    app.asns = vec![make_asn("AS111"), make_asn("AS222")];
    app.asn_selected = 1;
    app.asns_next();
    assert_eq!(app.asn_selected, 0);
}

#[test]
fn test_asns_previous_wrap() {
    let mut app = App::new();
    app.asns = vec![make_asn("AS111"), make_asn("AS222")];
    app.asns_previous();
    assert_eq!(app.asn_selected, 1);
}

#[test]
fn test_asns_vazio_nao_crasha() {
    let mut app = App::new();
    app.asns_next();
    app.asns_previous();
    assert_eq!(app.asn_selected, 0);
}

#[test]
fn test_selected_asn_retorna_correto() {
    let mut app = App::new();
    let asn = make_asn("AS99999");
    app.asns = vec![make_asn("AS111"), asn.clone()];
    app.asn_selected = 1;
    assert_eq!(app.selected_asn().unwrap().asn, "AS99999");
}

#[test]
fn test_selected_asn_vazio_retorna_none() {
    let app = App::new();
    assert!(app.selected_asn().is_none());
}

// ── testes de URLs ────────────────────────────────────────────────────────

fn make_url(url: &str) -> rataria::models::Url {
    rataria::models::Url {
        id: uuid::Uuid::new_v4().to_string(),
        subdomain_id: uuid::Uuid::new_v4().to_string(),
        url: url.to_string(),
        url_type: rataria::models::UrlType::Other,
        created_at: chrono::Utc::now().naive_utc().to_string(),
    }
}

#[test]
fn test_urls_next_navega() {
    let mut app = App::new();
    app.urls = vec![make_url("https://a.com"), make_url("https://b.com")];
    app.urls_next();
    assert_eq!(app.url_selected, 1);
}

#[test]
fn test_urls_next_wrap() {
    let mut app = App::new();
    app.urls = vec![make_url("https://a.com"), make_url("https://b.com")];
    app.url_selected = 1;
    app.urls_next();
    assert_eq!(app.url_selected, 0);
}

#[test]
fn test_urls_vazio_nao_crasha() {
    let mut app = App::new();
    app.urls_next();
    app.urls_previous();
    assert_eq!(app.url_selected, 0);
}

#[test]
fn test_selected_url_retorna_correto() {
    let mut app = App::new();
    let url = make_url("https://api.empresa.com/v1");
    app.urls = vec![make_url("https://a.com"), url.clone()];
    app.url_selected = 1;
    assert_eq!(
        app.selected_url().unwrap().url,
        "https://api.empresa.com/v1"
    );
}

#[test]
fn test_selected_url_vazio_retorna_none() {
    let app = App::new();
    assert!(app.selected_url().is_none());
}

// ── testes de Technologies ────────────────────────────────────────────────

fn make_technology(name: &str) -> rataria::models::Technology {
    rataria::models::Technology {
        id: uuid::Uuid::new_v4().to_string(),
        subdomain_id: uuid::Uuid::new_v4().to_string(),
        name: name.to_string(),
        version: None,
        created_at: chrono::Utc::now().naive_utc().to_string(),
    }
}

#[test]
fn test_technologies_next_navega() {
    let mut app = App::new();
    app.technologies = vec![
        make_technology("WordPress"),
        make_technology("React"),
        make_technology("Nginx"),
    ];
    app.technologies_next();
    assert_eq!(app.technology_selected, 1);
}

#[test]
fn test_technologies_next_wrap() {
    let mut app = App::new();
    app.technologies = vec![make_technology("WordPress"), make_technology("React")];
    app.technology_selected = 1;
    app.technologies_next();
    assert_eq!(app.technology_selected, 0);
}

#[test]
fn test_technologies_vazio_nao_crasha() {
    let mut app = App::new();
    app.technologies_next();
    app.technologies_previous();
    assert_eq!(app.technology_selected, 0);
}

#[test]
fn test_selected_technology_retorna_correto() {
    let mut app = App::new();
    let tech = make_technology("Laravel");
    app.technologies = vec![make_technology("WordPress"), tech.clone()];
    app.technology_selected = 1;
    assert_eq!(app.selected_technology().unwrap().name, "Laravel");
}

#[test]
fn test_selected_technology_vazio_retorna_none() {
    let app = App::new();
    assert!(app.selected_technology().is_none());
}

// ── testes de import form ─────────────────────────────────────────────────

#[test]
fn test_import_form_inicia_vazio() {
    let app = App::new();
    assert!(app.import_path.is_empty());
    assert!(app.import_target.is_empty());
    assert!(app.import_engagement.is_empty());
    assert!(app.import_result.is_none());
    assert_eq!(app.import_field, ImportField::Path);
}

#[test]
fn test_reset_import_form() {
    let mut app = App::new();
    app.import_path = "/tmp/subs.txt".to_string();
    app.import_target = "empresa.com".to_string();
    app.import_engagement = "Test".to_string();
    app.import_result = Some("ok".to_string());
    app.import_field = ImportField::Target;

    app.reset_import_form();

    assert!(app.import_path.is_empty());
    assert!(app.import_target.is_empty());
    assert!(app.import_engagement.is_empty());
    assert!(app.import_result.is_none());
    assert_eq!(app.import_field, ImportField::Path);
}

#[test]
fn app_help_returns_to_the_screen_it_came_from() {
    let mut app = App::new();
    app.screen = Screen::Targets;
    app.open_help();
    assert_eq!(app.screen, Screen::Help);
    assert_eq!(app.help_previous_screen, Some(Screen::Targets));
    app.close_help();
    assert_eq!(app.screen, Screen::Targets);
    assert!(app.help_previous_screen.is_none());
}

#[test]
fn app_close_help_without_origin_goes_home() {
    let mut app = App::new();
    app.screen = Screen::Help;
    app.close_help();
    assert_eq!(app.screen, Screen::Home);
}

#[test]
fn app_confirm_delete_is_asked_and_dropped() {
    let mut app = App::new();
    app.ask_confirm_delete("api.x.com");
    assert!(app.confirm_delete);
    assert_eq!(app.confirm_delete_label, "api.x.com");
    app.cancel_confirm_delete();
    assert!(!app.confirm_delete);
    assert!(app.confirm_delete_label.is_empty());
}

#[test]
fn app_session_expires_after_five_minutes_idle() {
    let mut app = App::new();
    app.touch_at(1_000);
    assert!(!app.session_expired_at(1_000));
    assert!(!app.session_expired_at(1_299));
    assert!(app.session_expired_at(1_300));
    assert!(!app.session_expired_at(10));
    app.update_activity();
    assert!(!app.is_session_expired());
}

#[test]
fn app_lock_session_closes_store_and_asks_password() {
    let mut app = App::new();
    app.screen = Screen::Dashboard;
    app.password_input = "segredo".to_string();
    app.lock_session();
    assert!(app.db.is_none());
    assert_eq!(app.screen, Screen::Password);
    assert!(app.password_input.is_empty());
    assert!(app.password_error.is_some());
}

#[test]
fn app_menus_list_their_entries() {
    assert_eq!(
        App::home_menu_items(),
        vec!["Abrir engagement existente", "Criar novo engagement", "Importar dados", "Sair"]
    );
    assert_eq!(App::target_menu_items(), vec!["Subdomains", "IPs", "ASNs"]);
    assert_eq!(App::subdomain_menu_items(), vec!["URLs", "Technologies", "Screenshots"]);
    assert_eq!(App::dashboard_menu_items()[6], "Screenshots");
}

#[test]
fn app_next_then_previous_comes_back() {
    let mut app = App::new();
    for start in 0..7 {
        app.dashboard_selected = start;
        app.dashboard_next();
        app.dashboard_previous();
        assert_eq!(app.dashboard_selected, start);
    }
}

#[test]
fn app_screenshots_navigation_wraps() {
    let mut app = App::new();
    app.screenshots_next();
    assert_eq!(app.screenshot_selected, 0);
    app.screenshots = vec![
        rataria::models::Screenshot {
            id: "a".to_string(),
            subdomain_id: "s".to_string(),
            file_path: "/tmp/a.png".to_string(),
            created_at: "t".to_string(),
        },
        rataria::models::Screenshot {
            id: "b".to_string(),
            subdomain_id: "s".to_string(),
            file_path: "/tmp/b.png".to_string(),
            created_at: "t".to_string(),
        },
    ];
    app.screenshots_previous();
    assert_eq!(app.screenshot_selected, 1);
    app.screenshots_next();
    assert_eq!(app.screenshot_selected, 0);
}

#[test]
fn app_form_next_field_from_other_fields_goes_to_name() {
    let mut app = App::new();
    app.form_field = FormField::Title;
    app.form_next_field();
    assert_eq!(app.form_field, FormField::Name);
    let _ = ImportField::Engagement;
}
