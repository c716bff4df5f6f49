use rataria::models::{next_status_filter, SubdomainStatus, UrlType};

#[test]
fn status_text_round_trips() {
    for s in [
        SubdomainStatus::NotVisited,
        SubdomainStatus::InProgress,
        SubdomainStatus::Reviewed,
        SubdomainStatus::Vulnerable,
        SubdomainStatus::FalsePositive,
    ] {
        assert_eq!(SubdomainStatus::from_str(s.as_str()), s);
    }
    assert_eq!(SubdomainStatus::Vulnerable.as_str(), "vulnerable");
    assert_eq!(SubdomainStatus::FalsePositive.as_str(), "false-positive");
    assert_eq!(SubdomainStatus::from_str("whatever"), SubdomainStatus::NotVisited);
    assert_eq!(SubdomainStatus::from_str("Vulnerable"), SubdomainStatus::NotVisited);
}

#[test]
fn url_type_text_round_trips() {
    for t in [UrlType::Parameter, UrlType::JavaScript, UrlType::Endpoint, UrlType::Other] {
        assert_eq!(UrlType::from_str(t.as_str()), t);
    }
    assert_eq!(UrlType::JavaScript.as_str(), "javascript");
    assert_eq!(UrlType::from_str("unknown"), UrlType::Other);
}

#[test]
fn status_cycle_has_five_steps() {
    let mut s = SubdomainStatus::NotVisited;
    let mut seen = vec![];
    for _ in 0..5 {
        seen.push(s);
        s = s.next();
    }
    assert_eq!(s, SubdomainStatus::NotVisited);
    assert_eq!(seen[3], SubdomainStatus::Vulnerable);
}

#[test]
fn status_filter_cycle_passes_through_none() {
    let mut f = None;
    f = next_status_filter(f);
    assert_eq!(f, Some(SubdomainStatus::NotVisited));
    for _ in 0..4 {
        f = next_status_filter(f);
    }
    assert_eq!(f, Some(SubdomainStatus::FalsePositive));
    assert_eq!(next_status_filter(f), None);
}
