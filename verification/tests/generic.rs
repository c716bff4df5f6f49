use rataria::error::RatariaError;
use rataria::importer::{record_ip, record_subdomain};
use rataria::report::ImportReport;
use rataria::db::Database;
use rataria::generic::{
    check_generic_file, import, parse_txt, GenericAsn, GenericFile, GenericSubdomain,
    GenericSubdomainFull, GenericTechnology, GenericUrl,
};
use rataria::queries;

#[test]
fn test_parse_txt_basico() {
    let txt = "api.empresa.com\nadmin.empresa.com\ndev.empresa.com";
    let f = parse_txt(txt, "empresa.com", None).unwrap();
    assert_eq!(f.subdomains.len(), 3);
    assert_eq!(f.target, "empresa.com");
}

#[test]
fn test_parse_txt_ignora_linhas_vazias() {
    let txt = "api.empresa.com\n\n\nadmin.empresa.com\n";
    let f = parse_txt(txt, "empresa.com", None).unwrap();
    assert_eq!(f.subdomains.len(), 2);
}

#[test]
fn test_parse_txt_ignora_comentarios() {
    let txt = "# gerado pelo subfinder\napi.empresa.com\n# outro comentário\nadmin.empresa.com";
    let f = parse_txt(txt, "empresa.com", None).unwrap();
    assert_eq!(f.subdomains.len(), 2);
}

#[test]
fn test_parse_txt_target_vazio_falha() {
    let txt = "api.empresa.com";
    assert!(parse_txt(txt, "", None).is_err());
}

#[test]
fn test_parse_txt_vazio_falha() {
    assert!(parse_txt("", "empresa.com", None).is_err());
}

#[test]
fn test_parse_txt_com_engagement() {
    let txt = "api.empresa.com";
    let f = parse_txt(txt, "empresa.com", Some("Meu Engagement")).unwrap();
    assert_eq!(f.engagement, Some("Meu Engagement".to_string()));
}

#[test]
fn parse_txt_trims_entries_and_handles_crlf() {
    let txt = "  api.x.com  \r\n\t# comment\r\n\r\n dev.x.com\r\n   \n";
    let f = parse_txt(txt, "x.com", None).unwrap();
    let names: Vec<&str> = f.subdomains.iter().map(|s| s.subdomain_str()).collect();
    assert_eq!(names, vec!["api.x.com", "dev.x.com"]);
    assert!(f.ips.is_empty());
    assert!(f.asns.is_empty());
    assert!(f.engagement.is_none());
}

#[test]
fn parse_txt_blank_target_fails_and_comment_only_fails() {
    assert!(parse_txt("a.x.com", "   ", None).is_err());
    assert!(parse_txt("# only\n#comments\n\n", "x.com", None).is_err());
}

fn file(target: &str, subs: Vec<GenericSubdomain>) -> GenericFile {
    GenericFile { target: target.to_string(), engagement: None, subdomains: subs, ips: vec![], asns: vec![] }
}

#[test]
fn test_parse_json_target_vazio_falha() {
    let f = file("", vec![GenericSubdomain::Simple("api.x.com".to_string())]);
    assert!(check_generic_file(f).is_err());
}

#[test]
fn test_parse_json_sem_subdomains_falha() {
    assert!(check_generic_file(file("x.com", vec![])).is_err());
}

#[test]
fn test_parse_json_subdomains_mistos() {
    let f = file(
        "empresa.com",
        vec![
            GenericSubdomain::Simple("api.empresa.com".to_string()),
            GenericSubdomain::Full(GenericSubdomainFull {
                subdomain: "admin.empresa.com".to_string(),
                status_code: Some(403),
                title: None,
                technologies: vec![],
                urls: vec![],
            }),
        ],
    );
    let f = check_generic_file(f).unwrap();
    assert_eq!(f.subdomains.len(), 2);
    assert_eq!(f.subdomains[0].subdomain_str(), "api.empresa.com");
    assert_eq!(f.subdomains[1].subdomain_str(), "admin.empresa.com");
}

fn setup() -> Database {
    Database::open_in_memory().unwrap()
}

fn simple(names: &[&str]) -> Vec<GenericSubdomain> {
    names.iter().map(|n| GenericSubdomain::Simple(n.to_string())).collect()
}

#[test]
fn test_parse_json_minimo() {
    let f = file("empresa.com", simple(&["api.empresa.com", "admin.empresa.com"]));
    let f = check_generic_file(f).unwrap();
    assert_eq!(f.target, "empresa.com");
    assert_eq!(f.subdomains.len(), 2);
}

#[test]
fn test_parse_json_completo() {
    let f = GenericFile {
        target: "empresa.com".to_string(),
        engagement: Some("Bug Bounty".to_string()),
        subdomains: vec![GenericSubdomain::Full(GenericSubdomainFull {
            subdomain: "api.empresa.com".to_string(),
            status_code: Some(200),
            title: Some("API".to_string()),
            technologies: vec![GenericTechnology { name: "Nginx".to_string(), version: Some("1.24".to_string()) }],
            urls: vec![GenericUrl { url: "https://api.empresa.com/v1".to_string(), url_type: Some("endpoint".to_string()) }],
        })],
        ips: vec!["1.1.1.1".to_string()],
        asns: vec![GenericAsn { asn: "AS123".to_string(), org: Some("XPTO".to_string()) }],
    };
    let f = check_generic_file(f).unwrap();
    assert_eq!(f.ips.len(), 1);
    assert_eq!(f.asns.len(), 1);
}

#[test]
fn test_import_json_minimo() {
    let mut db = setup();
    let f = check_generic_file(file("x.com", simple(&["api.x.com", "admin.x.com"]))).unwrap();
    let r = import(&mut db, &f, Some("Test")).unwrap();
    assert_eq!(r.subdomains_added, 2);
}

#[test]
fn test_import_txt() {
    let mut db = setup();
    let txt = "api.x.com\nadmin.x.com\ndev.x.com";
    let f = parse_txt(txt, "x.com", None).unwrap();
    let r = import(&mut db, &f, Some("Test")).unwrap();
    assert_eq!(r.subdomains_added, 3);
}

#[test]
fn generic_test_import_deduplicacao() {
    let mut db = setup();
    let f = check_generic_file(file("x.com", simple(&["api.x.com"]))).unwrap();
    import(&mut db, &f, Some("Test")).unwrap();
    let r2 = import(&mut db, &f, Some("Test")).unwrap();
    assert_eq!(r2.subdomains_skipped, 1);
    assert_eq!(r2.subdomains_added, 0);
}

#[test]
fn test_import_usa_engagement_do_arquivo() {
    let mut db = setup();
    let mut f = file("x.com", simple(&["api.x.com"]));
    f.engagement = Some("Do Arquivo".to_string());
    let f = check_generic_file(f).unwrap();
    import(&mut db, &f, None).unwrap();
    let engs = queries::list_engagements(&db).unwrap();
    assert_eq!(engs[0].name, "Do Arquivo");
}

#[test]
fn test_import_engagement_parametro_tem_prioridade() {
    let mut db = setup();
    let mut f = file("x.com", simple(&["api.x.com"]));
    f.engagement = Some("Do Arquivo".to_string());
    let f = check_generic_file(f).unwrap();
    import(&mut db, &f, Some("Prioritário")).unwrap();
    let engs = queries::list_engagements(&db).unwrap();
    assert_eq!(engs[0].name, "Prioritário");
}

#[test]
fn test_import_completo_com_techs_e_urls() {
    let mut db = setup();
    let f = file(
        "x.com",
        vec![GenericSubdomain::Full(GenericSubdomainFull {
            subdomain: "api.x.com".to_string(),
            status_code: Some(200),
            title: Some("API".to_string()),
            technologies: vec![GenericTechnology { name: "Rails".to_string(), version: Some("7.0".to_string()) }],
            urls: vec![GenericUrl { url: "https://api.x.com/v1".to_string(), url_type: Some("endpoint".to_string()) }],
        })],
    );
    let f = check_generic_file(f).unwrap();
    let r = import(&mut db, &f, Some("Test")).unwrap();
    assert_eq!(r.subdomains_added, 1);
    assert_eq!(r.technologies_added, 1);
    assert_eq!(r.urls_added, 1);
}

#[test]
fn import_without_engagement_uses_imported() {
    let mut db = setup();
    let f = check_generic_file(file("x.com", simple(&["a.x.com"]))).unwrap();
    import(&mut db, &f, None).unwrap();
    let engs = queries::list_engagements(&db).unwrap();
    assert_eq!(engs.len(), 1);
    assert_eq!(engs[0].name, "Imported");
}

#[test]
fn import_into_existing_target_counts_ips_and_asns() {
    let mut db = setup();
    let mut f = file("x.com", simple(&["a.x.com"]));
    f.ips = vec!["10.0.0.1".to_string(), "10.0.0.1".to_string()];
    f.asns = vec![GenericAsn { asn: "AS1".to_string(), org: None }];
    let f = check_generic_file(f).unwrap();
    let r = import(&mut db, &f, Some("E")).unwrap();
    assert_eq!(r.ips_added, 1);
    assert_eq!(r.ips_skipped, 1);
    assert_eq!(r.asns_added, 1);
    let r2 = import(&mut db, &f, Some("E")).unwrap();
    assert_eq!(r2.total_added(), 0);
    assert_eq!(r2.total_skipped(), 4);
    let engs = queries::list_engagements(&db).unwrap();
    assert_eq!(engs.len(), 1);
    let targets = queries::list_targets(&db, &engs[0].id).unwrap();
    assert_eq!(targets.len(), 1);
}

#[test]
fn generic_counts_fit_for_ordinary_files() {
    let f = parse_txt("api.x.com\nadmin.x.com", "x.com", None).unwrap();
    assert!(rataria::generic::generic_counts_fit(&f));
    assert!(rataria::importer::sum_fits(&vec![1, 2, 3]));
    assert!(!rataria::importer::sum_fits(&vec![usize::MAX, 1]));
    assert!(rataria::importer::sum_fits(&vec![usize::MAX, 0]));
}

#[test]
fn reimport_reuses_engagement_and_target_and_keeps_asn_org() {
    let mut db = setup();
    let mut f = file("x.com", simple(&["api.x.com"]));
    f.ips = vec!["10.0.0.1".to_string()];
    f.asns = vec![GenericAsn { asn: "AS1".to_string(), org: Some("Org".to_string()) }];
    let f = check_generic_file(f).unwrap();
    let r1 = import(&mut db, &f, Some("Test")).unwrap();
    assert_eq!((r1.ips_added, r1.asns_added, r1.subdomains_added), (1, 1, 1));
    let r2 = import(&mut db, &f, Some("Test")).unwrap();
    assert_eq!((r2.ips_added, r2.asns_added, r2.subdomains_added), (0, 0, 0));
    assert_eq!((r2.ips_skipped, r2.asns_skipped, r2.subdomains_skipped), (1, 1, 1));
    let engs = queries::list_engagements(&db).unwrap();
    assert_eq!(engs.len(), 1);
    assert!(engs[0].description.is_none());
    let targets = queries::list_targets(&db, &engs[0].id).unwrap();
    assert_eq!(targets.len(), 1);
    let asns = queries::list_asns(&db, &targets[0].id).unwrap();
    assert_eq!(asns[0].org.as_deref(), Some("Org"));
    let subs = queries::list_subdomains(&db, &targets[0].id).unwrap();
    assert_eq!(subs[0].status, rataria::models::SubdomainStatus::NotVisited);
}

#[test]
fn fresh_store_in_memory_is_empty() {
    let db = setup();
    assert!(queries::list_engagements(&db).unwrap().is_empty());
}

#[test]
fn record_steps_count_what_the_store_answered() {
    let rep = ImportReport::default();
    let ip = rataria::models::Ip {
        id: "i".to_string(),
        target_id: "t".to_string(),
        ip: "1.1.1.1".to_string(),
        created_at: String::new(),
    };
    let rep = record_ip(rep, &Ok(ip));
    assert_eq!((rep.ips_added, rep.ips_skipped), (1, 0));
    let rep = record_ip(rep, &Err(RatariaError::NotFound("x".to_string())));
    assert_eq!((rep.ips_added, rep.ips_skipped), (1, 1));
    let rep = record_subdomain(rep, &Err(RatariaError::ImportError("dup".to_string())));
    assert_eq!((rep.subdomains_added, rep.subdomains_skipped), (0, 1));
    assert_eq!((rep.ips_added, rep.ips_skipped), (1, 1));
}

#[test]
fn added_counts_match_rows_written() {
    let mut db = setup();
    let f = check_generic_file(file("x.com", simple(&["a.x.com", "b.x.com"]))).unwrap();
    let r = import(&mut db, &f, Some("E")).unwrap();
    let engs = queries::list_engagements(&db).unwrap();
    let targets = queries::list_targets(&db, &engs[0].id).unwrap();
    let subs = queries::list_subdomains(&db, &targets[0].id).unwrap();
    assert_eq!(r.subdomains_added, subs.len());
    assert_eq!(r.subdomains_added, 2);
}
