use rataria::app::App;
use rataria::models::{Asn, Ip, Screenshot, Subdomain, SubdomainStatus, Target, Technology, Url, UrlType};
use rataria::overview::{
    format_asns, format_ips, format_screenshots, format_screenshots_marked, format_subdomains,
    format_targets, format_technologies, format_urls, join_lines,
};

fn target(domain: &str) -> Target {
    Target {
        id: "t".to_string(),
        engagement_id: "e".to_string(),
        domain: domain.to_string(),
        created_at: String::new(),
    }
}

fn subdomain(name: &str, code: Option<i32>, status: SubdomainStatus) -> Subdomain {
    Subdomain {
        id: "s".to_string(),
        target_id: "t".to_string(),
        subdomain: name.to_string(),
        status,
        notes: None,
        status_code: code,
        title: None,
        created_at: String::new(),
        updated_at: String::new(),
    }
}

#[test]
fn empty_sections_say_so() {
    let app = App::new();
    assert_eq!(format_targets(&app), "  Nenhum target cadastrado.");
    assert_eq!(format_subdomains(&app), "  Nenhum subdomain cadastrado.");
    assert_eq!(format_ips(&app), "  Nenhum IP cadastrado.");
    assert_eq!(format_asns(&app), "  Nenhum ASN cadastrado.");
    assert_eq!(format_urls(&app), "  Nenhum URL cadastrado.");
    assert_eq!(format_technologies(&app), "  Nenhuma tecnologia cadastrada.");
    assert_eq!(format_screenshots(&app), "  Nenhuma screenshot cadastrada.");
}

#[test]
fn lines_are_joined_without_a_trailing_break() {
    assert_eq!(join_lines(&vec![]), "");
    assert_eq!(join_lines(&vec!["a".to_string()]), "a");
    assert_eq!(join_lines(&vec!["a".to_string(), "b".to_string(), "c".to_string()]), "a\nb\nc");
}

#[test]
fn targets_and_subdomains_are_listed() {
    let mut app = App::new();
    app.targets = vec![target("a.com"), target("b.com")];
    assert_eq!(format_targets(&app), "  • a.com\n  • b.com");
    app.subdomains = vec![
        subdomain("api.a.com", Some(200), SubdomainStatus::Vulnerable),
        subdomain("dev.a.com", None, SubdomainStatus::NotVisited),
        subdomain("neg.a.com", Some(-1), SubdomainStatus::FalsePositive),
    ];
    assert_eq!(
        format_subdomains(&app),
        "  • api.a.com [200] — vulnerable\n  • dev.a.com — not-visited\n  • neg.a.com [-1] — false-positive"
    );
}

#[test]
fn details_are_listed() {
    let mut app = App::new();
    app.ips = vec![Ip { id: "i".into(), target_id: "t".into(), ip: "1.2.3.4".into(), created_at: String::new() }];
    app.asns = vec![
        Asn { id: "a".into(), target_id: "t".into(), asn: "AS1".into(), org: Some("Org".into()), created_at: String::new() },
        Asn { id: "b".into(), target_id: "t".into(), asn: "AS2".into(), org: None, created_at: String::new() },
    ];
    app.urls = vec![Url {
        id: "u".into(),
        subdomain_id: "s".into(),
        url: "https://a.com/x?id=1".into(),
        url_type: UrlType::Parameter,
        created_at: String::new(),
    }];
    app.technologies = vec![
        Technology { id: "t".into(), subdomain_id: "s".into(), name: "nginx".into(), version: Some("1.2".into()), created_at: String::new() },
        Technology { id: "u".into(), subdomain_id: "s".into(), name: "php".into(), version: None, created_at: String::new() },
    ];
    assert_eq!(format_ips(&app), "  • 1.2.3.4");
    assert_eq!(format_asns(&app), "  • AS1 — Org\n  • AS2");
    assert_eq!(format_urls(&app), "  • [parameter] https://a.com/x?id=1");
    assert_eq!(format_technologies(&app), "  • nginx v1.2\n  • php");
}

#[test]
fn screenshots_are_marked_by_presence() {
    let mut app = App::new();
    app.screenshots = vec![
        Screenshot { id: "1".into(), subdomain_id: "s".into(), file_path: "/a.png".into(), created_at: String::new() },
        Screenshot { id: "2".into(), subdomain_id: "s".into(), file_path: "/nao/existe.png".into(), created_at: String::new() },
    ];
    assert_eq!(format_screenshots_marked(&app, &vec![true, false]), "  ✓ /a.png\n  ✗ /nao/existe.png");
    let shown = format_screenshots(&app);
    assert!(shown.ends_with("  ✗ /nao/existe.png"));
}
