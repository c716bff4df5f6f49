use rataria::report::ImportReport;

#[test]
fn test_report_default_zeros() {
    let r = ImportReport::default();
    assert_eq!(r.total_added(), 0);
    assert_eq!(r.total_skipped(), 0);
}

#[test]
fn test_report_total_added() {
    let r = ImportReport {
        subdomains_added: 2,
        ips_added: 3,
        asns_added: 1,
        urls_added: 5,
        technologies_added: 4,
        ..Default::default()
    };
    assert_eq!(r.total_added(), 15);
}

#[test]
fn test_report_total_skipped() {
    let r = ImportReport {
        subdomains_skipped: 1,
        ips_skipped: 2,
        ..Default::default()
    };
    assert_eq!(r.total_skipped(), 3);
}

#[test]
fn test_report_merge() {
    let mut r1 = ImportReport {
        subdomains_added: 2,
        ips_added: 1,
        ..Default::default()
    };
    let r2 = ImportReport {
        subdomains_added: 3,
        ips_skipped: 1,
        ..Default::default()
    };
    r1.merge(r2);
    assert_eq!(r1.subdomains_added, 5);
    assert_eq!(r1.ips_added, 1);
    assert_eq!(r1.ips_skipped, 1);
}

#[test]
fn report_merge_adds_every_count_and_the_totals() {
    let mut a = ImportReport {
        subdomains_added: 1,
        subdomains_skipped: 2,
        ips_added: 3,
        ips_skipped: 4,
        asns_added: 5,
        asns_skipped: 6,
        urls_added: 7,
        urls_skipped: 8,
        technologies_added: 9,
        technologies_skipped: 10,
    };
    let b = a.clone();
    let before_added = a.total_added();
    let before_skipped = a.total_skipped();
    a.merge(b.clone());
    assert_eq!(a.total_added(), before_added + b.total_added());
    assert_eq!(a.total_skipped(), before_skipped + b.total_skipped());
    assert_eq!(a.technologies_skipped, 20);
    assert_eq!(a.urls_added, 14);
}

#[test]
fn report_merge_with_default_changes_nothing() {
    let mut a = ImportReport { asns_added: 4, urls_skipped: 2, ..Default::default() };
    let before = a.clone();
    a.merge(ImportReport::default());
    assert_eq!(a, before);
}
