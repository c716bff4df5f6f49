use rataria::db::Database;
use rataria::export::{
    default_report_path, export_engagement_markdown, render_engagement_markdown, report_path,
    safe_report_name, SubdomainReport, TargetReport,
};
use rataria::models::{
    Engagement, NewAsn, NewEngagement, NewIp, NewSubdomain, NewTarget, NewTechnology, NewUrl,
    SubdomainStatus, UpdateSubdomain, UrlType,
};
use rataria::queries;

fn setup() -> Database {
    Database::open_in_memory().unwrap()
}

fn create_full_engagement(db: &mut Database) -> Engagement {
    let eng = queries::create_engagement(
        db,
        NewEngagement {
            name: "Bug Bounty Q1".to_string(),
            description: Some("Programa de bug bounty".to_string()),
        },
    )
    .unwrap();

    let target = queries::create_target(
        db,
        NewTarget { engagement_id: eng.id.clone(), domain: "empresa.com".to_string() },
    )
    .unwrap();

    queries::create_ip(db, NewIp { target_id: target.id.clone(), ip: "192.168.1.1".to_string() })
        .unwrap();

    queries::create_asn(
        db,
        NewAsn {
            target_id: target.id.clone(),
            asn: "AS12345".to_string(),
            org: Some("Empresa XPTO".to_string()),
        },
    )
    .unwrap();

    let sub = queries::create_subdomain(
        db,
        NewSubdomain {
            target_id: target.id.clone(),
            subdomain: "api.empresa.com".to_string(),
            status_code: Some(200),
            title: Some("API Principal".to_string()),
        },
    )
    .unwrap();

    queries::update_subdomain(
        db,
        &sub.id,
        UpdateSubdomain {
            status: Some(SubdomainStatus::Vulnerable),
            notes: Some("SQLi encontrado".to_string()),
            status_code: None,
            title: None,
            subdomain: None,
        },
    )
    .unwrap();

    queries::create_technology(
        db,
        NewTechnology {
            subdomain_id: sub.id.clone(),
            name: "Nginx".to_string(),
            version: Some("1.24".to_string()),
        },
    )
    .unwrap();

    queries::create_url(
        db,
        NewUrl {
            subdomain_id: sub.id.clone(),
            url: "https://api.empresa.com/v1/users".to_string(),
            url_type: UrlType::Endpoint,
        },
    )
    .unwrap();

    eng
}

#[test]
fn test_export_contem_nome_engagement() {
    let mut db = setup();
    let eng = create_full_engagement(&mut db);
    let md = export_engagement_markdown(&db, &eng.id).unwrap();
    assert!(md.contains("Bug Bounty Q1"));
}

#[test]
fn test_export_contem_descricao() {
    let mut db = setup();
    let eng = create_full_engagement(&mut db);
    let md = export_engagement_markdown(&db, &eng.id).unwrap();
    assert!(md.contains("Programa de bug bounty"));
}

#[test]
fn test_export_contem_target() {
    let mut db = setup();
    let eng = create_full_engagement(&mut db);
    let md = export_engagement_markdown(&db, &eng.id).unwrap();
    assert!(md.contains("empresa.com"));
}

#[test]
fn test_export_contem_ip() {
    let mut db = setup();
    let eng = create_full_engagement(&mut db);
    let md = export_engagement_markdown(&db, &eng.id).unwrap();
    assert!(md.contains("192.168.1.1"));
}

#[test]
fn test_export_contem_asn() {
    let mut db = setup();
    let eng = create_full_engagement(&mut db);
    let md = export_engagement_markdown(&db, &eng.id).unwrap();
    assert!(md.contains("AS12345"));
    assert!(md.contains("Empresa XPTO"));
}

#[test]
fn test_export_contem_subdomain() {
    let mut db = setup();
    let eng = create_full_engagement(&mut db);
    let md = export_engagement_markdown(&db, &eng.id).unwrap();
    assert!(md.contains("api.empresa.com"));
}

#[test]
fn test_export_contem_status_subdomain() {
    let mut db = setup();
    let eng = create_full_engagement(&mut db);
    let md = export_engagement_markdown(&db, &eng.id).unwrap();
    assert!(md.contains("vulnerable"));
}

#[test]
fn test_export_contem_notas() {
    let mut db = setup();
    let eng = create_full_engagement(&mut db);
    let md = export_engagement_markdown(&db, &eng.id).unwrap();
    assert!(md.contains("SQLi encontrado"));
}

#[test]
fn test_export_contem_technology() {
    let mut db = setup();
    let eng = create_full_engagement(&mut db);
    let md = export_engagement_markdown(&db, &eng.id).unwrap();
    assert!(md.contains("Nginx"));
    assert!(md.contains("1.24"));
}

#[test]
fn test_export_contem_url() {
    let mut db = setup();
    let eng = create_full_engagement(&mut db);
    let md = export_engagement_markdown(&db, &eng.id).unwrap();
    assert!(md.contains("https://api.empresa.com/v1/users"));
    assert!(md.contains("endpoint"));
}

#[test]
fn test_export_engagement_inexistente_falha() {
    let db = setup();
    let result = export_engagement_markdown(&db, "id-inexistente");
    assert!(result.is_err());
}

#[test]
fn test_export_engagement_sem_targets() {
    let mut db = setup();
    let eng = queries::create_engagement(
        &mut db,
        NewEngagement { name: "Vazio".to_string(), description: None },
    )
    .unwrap();
    let md = export_engagement_markdown(&db, &eng.id).unwrap();
    assert!(md.contains("Nenhum target cadastrado"));
}

#[test]
fn test_default_report_path_contem_nome() {
    let path = default_report_path("Bug Bounty Q1").unwrap();
    assert!(path.contains("bug_bounty_q1"));
    assert!(path.ends_with(".md"));
}

#[test]
fn test_default_report_path_sanitiza_caracteres() {
    let path = default_report_path("Empresa & Cia!").unwrap();
    assert!(!path.contains('&'));
    assert!(!path.contains('!'));
}

#[test]
fn export_has_exact_layout() {
    let mut db = setup();
    let eng = create_full_engagement(&mut db);
    let md = export_engagement_markdown(&db, &eng.id).unwrap();
    let (head, rest) = md.split_once("**Gerado em:** ").unwrap();
    assert_eq!(head, "# Engagement: Bug Bounty Q1\n\n**Descrição:** Programa de bug bounty\n\n");
    let (_, body) = rest.split_once("\n\n").unwrap();
    let expected = "---\n\n## Target: empresa.com\n\n### IPs\n\n- 192.168.1.1\n\n### ASNs\n\n- AS12345 — Empresa XPTO\n\n### Subdomains\n\n#### api.empresa.com\n\n- **Status:** vulnerable\n- **HTTP:** 200 API Principal\n- **Notas:** SQLi encontrado\n\n**Technologies:**\n\n- Nginx v1.24\n\n**URLs:**\n\n- endpoint: https://api.empresa.com/v1/users\n\n---\n\n";
    assert_eq!(body, expected);
}

#[test]
fn render_without_targets_and_negative_code() {
    let eng = Engagement {
        id: "e".to_string(),
        name: "N".to_string(),
        description: None,
        created_at: String::new(),
        updated_at: String::new(),
    };
    let md = render_engagement_markdown(&eng, "T", &vec![]);
    assert_eq!(md, "# Engagement: N\n\n**Gerado em:** T\n\n---\n\n*Nenhum target cadastrado.*\n");
    let sub = rataria::models::Subdomain {
        id: "s".to_string(),
        target_id: "t".to_string(),
        subdomain: "a.x".to_string(),
        status: SubdomainStatus::NotVisited,
        notes: None,
        status_code: Some(-7),
        title: None,
        created_at: String::new(),
        updated_at: String::new(),
    };
    let target = rataria::models::Target {
        id: "t".to_string(),
        engagement_id: "e".to_string(),
        domain: "x".to_string(),
        created_at: String::new(),
    };
    let reps = vec![TargetReport {
        target,
        ips: vec![],
        asns: vec![],
        subdomains: vec![SubdomainReport { subdomain: sub, technologies: vec![], urls: vec![] }],
    }];
    let md = render_engagement_markdown(&eng, "T", &reps);
    assert!(md.ends_with("## Target: x\n\n### Subdomains\n\n#### a.x\n\n- **Status:** not-visited\n- **HTTP:** -7 \n\n---\n\n"));
}

#[test]
fn report_file_name_parts() {
    assert_eq!(safe_report_name("Bug Bounty Q1"), "bug_bounty_q1");
    assert_eq!(safe_report_name("Empresa & Cia!"), "empresa___cia_");
    assert_eq!(safe_report_name("a-b_c"), "a-b_c");
    assert_eq!(report_path(Some("/home/u".to_string()), "x", "20250101_000000"), "/home/u/rataria_x_20250101_000000.md");
    assert_eq!(report_path(None, "x", "T"), "./rataria_x_T.md");
}
