use rataria::db::Database;
use rataria::queries;
use rataria::ratazana::{
    check_ratazana_file, import, RatazanaAsn, RatazanaFile, RatazanaSubdomain, RatazanaTechnology,
    RatazanaUrl,
};

fn setup() -> Database {
    Database::open_in_memory().unwrap()
}

fn sample() -> RatazanaFile {
    RatazanaFile {
        rataria_version: "1.0".to_string(),
        target: "empresa.com".to_string(),
        engagement_name: "Bug Bounty Q1".to_string(),
        timestamp: "2025-01-01T00:00:00Z".to_string(),
        subdomains: vec![RatazanaSubdomain {
            subdomain: "api.empresa.com".to_string(),
            status_code: Some(200),
            title: Some("API".to_string()),
            technologies: vec![RatazanaTechnology { name: "Nginx".to_string(), version: Some("1.24".to_string()) }],
            urls: vec![RatazanaUrl { url: "https://api.empresa.com/v1".to_string(), url_type: "endpoint".to_string() }],
            sources: vec!["subfinder".to_string()],
        }],
        ips: vec!["1.1.1.1".to_string()],
        asns: vec![RatazanaAsn { asn: "AS12345".to_string(), org: Some("XPTO".to_string()) }],
    }
}

fn empty_scan(version: &str, target: &str) -> RatazanaFile {
    RatazanaFile {
        rataria_version: version.to_string(),
        target: target.to_string(),
        engagement_name: "X".to_string(),
        timestamp: String::new(),
        subdomains: vec![],
        ips: vec![],
        asns: vec![],
    }
}

#[test]
fn test_parse_valido() {
    let f = check_ratazana_file(sample()).unwrap();
    assert_eq!(f.rataria_version, "1.0");
    assert_eq!(f.target, "empresa.com");
}

#[test]
fn test_parse_versao_vazia_falha() {
    assert!(check_ratazana_file(empty_scan("", "x.com")).is_err());
}

#[test]
fn test_parse_target_vazio_falha() {
    assert!(check_ratazana_file(empty_scan("1.0", "")).is_err());
}

#[test]
fn test_import_cria_engagement_e_target() {
    let mut db = setup();
    let f = check_ratazana_file(sample()).unwrap();
    import(&mut db, &f).unwrap();
    let engs = queries::list_engagements(&db).unwrap();
    assert_eq!(engs.len(), 1);
    assert_eq!(engs[0].name, "Bug Bounty Q1");
}

#[test]
fn test_import_report_correto() {
    let mut db = setup();
    let f = check_ratazana_file(sample()).unwrap();
    let r = import(&mut db, &f).unwrap();
    assert_eq!(r.subdomains_added, 1);
    assert_eq!(r.ips_added, 1);
    assert_eq!(r.asns_added, 1);
    assert_eq!(r.technologies_added, 1);
    assert_eq!(r.urls_added, 1);
}

#[test]
fn ratazana_test_import_deduplicacao() {
    let mut db = setup();
    let f = check_ratazana_file(sample()).unwrap();
    import(&mut db, &f).unwrap();
    let r2 = import(&mut db, &f).unwrap();
    assert_eq!(r2.subdomains_skipped, 1);
    assert_eq!(r2.ips_skipped, 1);
    assert_eq!(r2.asns_skipped, 1);
}

#[test]
fn test_import_nao_duplica_engagement() {
    let mut db = setup();
    let f = check_ratazana_file(sample()).unwrap();
    import(&mut db, &f).unwrap();
    import(&mut db, &f).unwrap();
    assert_eq!(queries::list_engagements(&db).unwrap().len(), 1);
}

#[test]
fn blank_engagement_name_is_refused() {
    let mut f = empty_scan("1.0", "x.com");
    f.engagement_name = "   ".to_string();
    assert!(check_ratazana_file(f).is_err());
}

#[test]
fn imported_urls_keep_their_kind() {
    let mut db = setup();
    let f = check_ratazana_file(sample()).unwrap();
    import(&mut db, &f).unwrap();
    let engs = queries::list_engagements(&db).unwrap();
    let targets = queries::list_targets(&db, &engs[0].id).unwrap();
    let subs = queries::list_subdomains(&db, &targets[0].id).unwrap();
    assert_eq!(subs[0].status_code, Some(200));
    let urls = queries::list_urls(&db, &subs[0].id).unwrap();
    assert_eq!(urls[0].url_type.as_str(), "endpoint");
    let techs = queries::list_technologies(&db, &subs[0].id).unwrap();
    assert_eq!(techs[0].version.as_deref(), Some("1.24"));
}

#[test]
fn ratazana_counts_fit_for_ordinary_files() {
    assert!(rataria::ratazana::ratazana_counts_fit(&sample()));
}
