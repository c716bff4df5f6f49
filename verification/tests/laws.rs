use rataria::db::Database;
use rataria::models::{NewEngagement, NewIp, NewSubdomain, NewTarget, NewTechnology};
use rataria::queries;

#[test]
fn deleting_a_target_deletes_what_it_holds_only() {
    let mut db = Database::open_in_memory().unwrap();
    let e = queries::create_engagement(&mut db, NewEngagement { name: "E".to_string(), description: None }).unwrap();
    let t1 = queries::create_target(&mut db, NewTarget { engagement_id: e.id.clone(), domain: "a.com".to_string() }).unwrap();
    let t2 = queries::create_target(&mut db, NewTarget { engagement_id: e.id.clone(), domain: "b.com".to_string() }).unwrap();
    let s1 = queries::create_subdomain(&mut db, NewSubdomain { target_id: t1.id.clone(), subdomain: "x.a.com".to_string(), status_code: None, title: None }).unwrap();
    let s2 = queries::create_subdomain(&mut db, NewSubdomain { target_id: t2.id.clone(), subdomain: "x.b.com".to_string(), status_code: None, title: None }).unwrap();
    queries::create_technology(&mut db, NewTechnology { subdomain_id: s1.id.clone(), name: "T".to_string(), version: None }).unwrap();
    queries::create_ip(&mut db, NewIp { target_id: t1.id.clone(), ip: "1.1.1.1".to_string() }).unwrap();
    queries::create_ip(&mut db, NewIp { target_id: t2.id.clone(), ip: "1.1.1.1".to_string() }).unwrap();
    queries::delete_target(&mut db, &t1.id).unwrap();
    assert!(queries::get_target(&db, &t1.id).unwrap().is_none());
    assert!(queries::get_subdomain(&db, &s1.id).unwrap().is_none());
    assert!(queries::list_technologies(&db, &s1.id).unwrap().is_empty());
    assert!(queries::list_ips(&db, &t1.id).unwrap().is_empty());
    assert!(queries::get_subdomain(&db, &s2.id).unwrap().is_some());
    assert_eq!(queries::list_ips(&db, &t2.id).unwrap().len(), 1);
    assert_eq!(queries::list_targets(&db, &e.id).unwrap().len(), 1);
    assert!(queries::delete_target(&mut db, &t1.id).is_err());
}

#[test]
fn names_stay_unique() {
    let mut db = Database::open_in_memory().unwrap();
    let e = queries::create_engagement(&mut db, NewEngagement { name: "E".to_string(), description: None }).unwrap();
    let f = queries::create_engagement(&mut db, NewEngagement { name: "F".to_string(), description: None }).unwrap();
    assert!(queries::create_engagement(&mut db, NewEngagement { name: "E".to_string(), description: None }).is_err());
    assert!(queries::update_engagement(&mut db, &f.id, "E", None).is_err());
    assert_eq!(queries::update_engagement(&mut db, &e.id, "E", Some("d")).unwrap().name, "E");
    let t = queries::create_target(&mut db, NewTarget { engagement_id: e.id.clone(), domain: "a.com".to_string() }).unwrap();
    let a = queries::create_ip(&mut db, NewIp { target_id: t.id.clone(), ip: "1.1.1.1".to_string() }).unwrap();
    let b = queries::create_ip(&mut db, NewIp { target_id: t.id.clone(), ip: "2.2.2.2".to_string() }).unwrap();
    assert!(queries::update_ip(&mut db, &b.id, rataria::models::UpdateIp { ip: "1.1.1.1".to_string() }).is_err());
    assert!(queries::update_ip(&mut db, &a.id, rataria::models::UpdateIp { ip: "1.1.1.1".to_string() }).is_ok());
    let ips = queries::list_ips(&db, &t.id).unwrap();
    assert_eq!(ips.iter().map(|i| i.ip.as_str()).collect::<Vec<_>>(), vec!["1.1.1.1", "2.2.2.2"]);
}

#[test]
fn deleting_an_engagement_leaves_the_others() {
    let mut db = Database::open_in_memory().unwrap();
    let e = queries::create_engagement(&mut db, NewEngagement { name: "E".to_string(), description: None }).unwrap();
    let f = queries::create_engagement(&mut db, NewEngagement { name: "F".to_string(), description: None }).unwrap();
    let te = queries::create_target(&mut db, NewTarget { engagement_id: e.id.clone(), domain: "a.com".to_string() }).unwrap();
    let tf = queries::create_target(&mut db, NewTarget { engagement_id: f.id.clone(), domain: "a.com".to_string() }).unwrap();
    queries::delete_engagement(&mut db, &e.id).unwrap();
    assert!(queries::get_engagement(&db, &e.id).unwrap().is_none());
    assert!(queries::get_target(&db, &te.id).unwrap().is_none());
    assert!(queries::get_target(&db, &tf.id).unwrap().is_some());
    assert_eq!(queries::list_engagements(&db).unwrap().len(), 1);
}
