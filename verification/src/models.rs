//! The records that the tracker stores: engagements, targets, subdomains and
//! what is found on them. Timestamps are kept as the text the store holds.

use vstd::prelude::*;
use crate::text::same_text;

verus! {

/// A pentest, red-team or bug-bounty engagement.
#[derive(Debug, Clone)]
pub struct Engagement {
    pub id: String,
    pub name: String,
    pub description: Option<String>,
    pub created_at: String,
    pub updated_at: String,
}

/// New domain of a target.
#[derive(Debug, Clone)]
pub struct UpdateTarget {
    pub domain: String,
}

/// New address of an IP record.
#[derive(Debug, Clone)]
pub struct UpdateIp {
    pub ip: String,
}

/// New contents of an ASN record.
#[derive(Debug, Clone)]
pub struct UpdateAsn {
    pub asn: String,
    pub org: Option<String>,
}

/// New contents of a URL record.
#[derive(Debug, Clone)]
pub struct UpdateUrl {
    pub url: String,
    pub url_type: UrlType,
}

/// New contents of a technology record.
#[derive(Debug, Clone)]
pub struct UpdateTechnology {
    pub name: String,
    pub version: Option<String>,
}

/// What is needed to create an engagement.
#[derive(Debug, Clone)]
pub struct NewEngagement {
    pub name: String,
    pub description: Option<String>,
}

/// A main domain under an engagement.
#[derive(Debug, Clone)]
pub struct Target {
    pub id: String,
    pub engagement_id: String,
    pub domain: String,
    pub created_at: String,
}

/// What is needed to create a target.
#[derive(Debug, Clone)]
pub struct NewTarget {
    pub engagement_id: String,
    pub domain: String,
}

/// How far the review of a subdomain has gone.
#[derive(Debug, Clone, Copy, PartialEq, Eq, Structural)]
pub enum SubdomainStatus {
    NotVisited,
    InProgress,
    Reviewed,
    Vulnerable,
    FalsePositive,
}

/// The text under which a status is stored.
pub open spec fn status_text(s: SubdomainStatus) -> Seq<char> {
    match s {
        SubdomainStatus::NotVisited => "not-visited"@,
        SubdomainStatus::InProgress => "in-progress"@,
        SubdomainStatus::Reviewed => "reviewed"@,
        SubdomainStatus::Vulnerable => "vulnerable"@,
        SubdomainStatus::FalsePositive => "false-positive"@,
    }
}

/// The status that a stored text denotes; unknown text reads as not visited.
pub open spec fn status_from_text(t: Seq<char>) -> SubdomainStatus {
    if t == "in-progress"@ {
        SubdomainStatus::InProgress
    } else if t == "reviewed"@ {
        SubdomainStatus::Reviewed
    } else if t == "vulnerable"@ {
        SubdomainStatus::Vulnerable
    } else if t == "false-positive"@ {
        SubdomainStatus::FalsePositive
    } else {
        SubdomainStatus::NotVisited
    }
}

/// The status that follows `s` when the user cycles through them.
pub open spec fn status_after(s: SubdomainStatus) -> SubdomainStatus {
    match s {
        SubdomainStatus::NotVisited => SubdomainStatus::InProgress,
        SubdomainStatus::InProgress => SubdomainStatus::Reviewed,
        SubdomainStatus::Reviewed => SubdomainStatus::Vulnerable,
        SubdomainStatus::Vulnerable => SubdomainStatus::FalsePositive,
        SubdomainStatus::FalsePositive => SubdomainStatus::NotVisited,
    }
}

/// The status filter that follows `f`: none, then each status in turn, then none again.
pub open spec fn filter_after(f: Option<SubdomainStatus>) -> Option<SubdomainStatus> {
    match f {
        None => Some(SubdomainStatus::NotVisited),
        Some(SubdomainStatus::FalsePositive) => None,
        Some(s) => Some(status_after(s)),
    }
}

impl SubdomainStatus {
    /// The text under which this status is stored.
    pub fn as_str(&self) -> (r: &'static str)
        ensures
            r@ == status_text(*self),
    {
        match self {
            SubdomainStatus::NotVisited => "not-visited",
            SubdomainStatus::InProgress => "in-progress",
            SubdomainStatus::Reviewed => "reviewed",
            SubdomainStatus::Vulnerable => "vulnerable",
            SubdomainStatus::FalsePositive => "false-positive",
        }
    }

    /// The status that `s` denotes; any unknown text gives `NotVisited`.
    pub fn from_str(s: &str) -> (r: Self)
        ensures
            r == status_from_text(s@),
    {
        if same_text(s, "in-progress") {
            SubdomainStatus::InProgress
        } else if same_text(s, "reviewed") {
            SubdomainStatus::Reviewed
        } else if same_text(s, "vulnerable") {
            SubdomainStatus::Vulnerable
        } else if same_text(s, "false-positive") {
            SubdomainStatus::FalsePositive
        } else {
            SubdomainStatus::NotVisited
        }
    }

    /// The next status in the review cycle.
    pub fn next(&self) -> (r: Self)
        ensures
            r == status_after(*self),
    {
        match self {
            SubdomainStatus::NotVisited => SubdomainStatus::InProgress,
            SubdomainStatus::InProgress => SubdomainStatus::Reviewed,
            SubdomainStatus::Reviewed => SubdomainStatus::Vulnerable,
            SubdomainStatus::Vulnerable => SubdomainStatus::FalsePositive,
            SubdomainStatus::FalsePositive => SubdomainStatus::NotVisited,
        }
    }
}

/// The filter that follows `f` in the filter cycle of the subdomain list.
pub fn next_status_filter(f: Option<SubdomainStatus>) -> (r: Option<SubdomainStatus>)
    ensures
        r == filter_after(f),
{
    match f {
        None => Some(SubdomainStatus::NotVisited),
        Some(SubdomainStatus::FalsePositive) => None,
        Some(s) => Some(s.next()),
    }
}

/// A subdomain found under a target.
#[derive(Debug, Clone)]
pub struct Subdomain {
    pub id: String,
    pub target_id: String,
    pub subdomain: String,
    pub status: SubdomainStatus,
    pub notes: Option<String>,
    pub status_code: Option<i32>,
    pub title: Option<String>,
    pub created_at: String,
    pub updated_at: String,
}

/// What is needed to create a subdomain.
#[derive(Debug, Clone)]
pub struct NewSubdomain {
    pub target_id: String,
    pub subdomain: String,
    pub status_code: Option<i32>,
    pub title: Option<String>,
}

/// A partial change to a subdomain: each `None` keeps the current value.
#[derive(Debug, Clone)]
pub struct UpdateSubdomain {
    pub status: Option<SubdomainStatus>,
    pub notes: Option<String>,
    pub status_code: Option<i32>,
    pub title: Option<String>,
    pub subdomain: Option<String>,
}

/// A label on a subdomain.
#[derive(Debug, Clone)]
pub struct Tag {
    pub id: String,
    pub subdomain_id: String,
    pub name: String,
    pub created_at: String,
}

/// What is needed to create a tag.
#[derive(Debug, Clone)]
pub struct NewTag {
    pub subdomain_id: String,
    pub name: String,
}

/// A technology seen on a subdomain.
#[derive(Debug, Clone)]
pub struct Technology {
    pub id: String,
    pub subdomain_id: String,
    pub name: String,
    pub version: Option<String>,
    pub created_at: String,
}

/// What is needed to create a technology record.
#[derive(Debug, Clone)]
pub struct NewTechnology {
    pub subdomain_id: String,
    pub name: String,
    pub version: Option<String>,
}

/// The kind of a URL found on a subdomain.
#[derive(Debug, Clone, Copy, PartialEq, Eq, Structural)]
pub enum UrlType {
    Parameter,
    JavaScript,
    Endpoint,
    Other,
}

/// The text under which a URL kind is stored.
pub open spec fn url_type_text(t: UrlType) -> Seq<char> {
    match t {
        UrlType::Parameter => "parameter"@,
        UrlType::JavaScript => "javascript"@,
        UrlType::Endpoint => "endpoint"@,
        UrlType::Other => "other"@,
    }
}

/// The URL kind that a text denotes; unknown text reads as `Other`.
pub open spec fn url_type_from_text(t: Seq<char>) -> UrlType {
    if t == "parameter"@ {
        UrlType::Parameter
    } else if t == "javascript"@ {
        UrlType::JavaScript
    } else if t == "endpoint"@ {
        UrlType::Endpoint
    } else {
        UrlType::Other
    }
}

impl UrlType {
    /// The text under which this kind is stored.
    pub fn as_str(&self) -> (r: &'static str)
        ensures
            r@ == url_type_text(*self),
    {
        match self {
            UrlType::Parameter => "parameter",
            UrlType::JavaScript => "javascript",
            UrlType::Endpoint => "endpoint",
            UrlType::Other => "other",
        }
    }

    /// The kind that `s` denotes; any unknown text gives `Other`.
    pub fn from_str(s: &str) -> (r: Self)
        ensures
            r == url_type_from_text(s@),
    {
        if same_text(s, "parameter") {
            UrlType::Parameter
        } else if same_text(s, "javascript") {
            UrlType::JavaScript
        } else if same_text(s, "endpoint") {
            UrlType::Endpoint
        } else {
            UrlType::Other
        }
    }
}

/// A URL found on a subdomain.
#[derive(Debug, Clone)]
pub struct Url {
    pub id: String,
    pub subdomain_id: String,
    pub url: String,
    pub url_type: UrlType,
    pub created_at: String,
}

/// What is needed to create a URL record.
#[derive(Debug, Clone)]
pub struct NewUrl {
    pub subdomain_id: String,
    pub url: String,
    pub url_type: UrlType,
}

/// An IP address of a target.
#[derive(Debug, Clone)]
pub struct Ip {
    pub id: String,
    pub target_id: String,
    pub ip: String,
    pub created_at: String,
}

/// What is needed to create an IP record.
#[derive(Debug, Clone)]
pub struct NewIp {
    pub target_id: String,
    pub ip: String,
}

/// An autonomous system of a target.
#[derive(Debug, Clone)]
pub struct Asn {
    pub id: String,
    pub target_id: String,
    pub asn: String,
    pub org: Option<String>,
    pub created_at: String,
}

/// What is needed to create an ASN record.
#[derive(Debug, Clone)]
pub struct NewAsn {
    pub target_id: String,
    pub asn: String,
    pub org: Option<String>,
}

/// A screenshot file of a subdomain.
#[derive(Debug, Clone)]
pub struct Screenshot {
    pub id: String,
    pub subdomain_id: String,
    pub file_path: String,
    pub created_at: String,
}

/// What is needed to create a screenshot record.
#[derive(Debug, Clone)]
pub struct NewScreenshot {
    pub subdomain_id: String,
    pub file_path: String,
}

/// Reading back the stored text of a status gives the status again.
pub proof fn lemma_status_text_roundtrip(s: SubdomainStatus)
    ensures
        status_from_text(status_text(s)) == s,
{
    reveal_strlit("not-visited");
    reveal_strlit("in-progress");
    reveal_strlit("reviewed");
    reveal_strlit("vulnerable");
    reveal_strlit("false-positive");
    assert("not-visited"@[0] != "in-progress"@[0]);
    assert("not-visited"@.len() != "reviewed"@.len());
    assert("not-visited"@.len() != "vulnerable"@.len());
    assert("not-visited"@.len() != "false-positive"@.len());
    assert("reviewed"@.len() != "in-progress"@.len());
    assert("vulnerable"@.len() != "in-progress"@.len());
    assert("vulnerable"@.len() != "reviewed"@.len());
    assert("false-positive"@.len() != "in-progress"@.len());
    assert("false-positive"@.len() != "reviewed"@.len());
    assert("false-positive"@.len() != "vulnerable"@.len());
}

/// The stored texts of distinct statuses differ.
pub proof fn lemma_status_text_injective(a: SubdomainStatus, b: SubdomainStatus)
    ensures
        status_text(a) == status_text(b) <==> a == b,
{
    lemma_status_text_roundtrip(a);
    lemma_status_text_roundtrip(b);
}

/// Any text that names a status is the stored text of the status it denotes.
pub proof fn lemma_status_from_known_text(t: Seq<char>)
    requires
        t == "not-visited"@ || t == "in-progress"@ || t == "reviewed"@ || t == "vulnerable"@
            || t == "false-positive"@,
    ensures
        status_text(status_from_text(t)) == t,
{
    reveal_strlit("not-visited");
    reveal_strlit("in-progress");
    reveal_strlit("reviewed");
    reveal_strlit("vulnerable");
    reveal_strlit("false-positive");
}

/// Cycling five times through the review statuses comes back to the start, and
/// no shorter cycle does.
pub proof fn lemma_status_cycle(s: SubdomainStatus)
    ensures
        status_after(status_after(status_after(status_after(status_after(s))))) == s,
        status_after(s) != s,
        status_after(status_after(s)) != s,
        status_after(status_after(status_after(s))) != s,
        status_after(status_after(status_after(status_after(s)))) != s,
{
}

/// Cycling six times through the status filter comes back to the start.
pub proof fn lemma_filter_cycle(f: Option<SubdomainStatus>)
    ensures
        filter_after(filter_after(filter_after(filter_after(filter_after(filter_after(f))))))
            == f,
{
}

/// Reading back the stored text of a URL kind gives the kind again.
pub proof fn lemma_url_type_text_roundtrip(t: UrlType)
    ensures
        url_type_from_text(url_type_text(t)) == t,
{
    reveal_strlit("parameter");
    reveal_strlit("javascript");
    reveal_strlit("endpoint");
    reveal_strlit("other");
    assert("javascript"@[0] != "parameter"@[0]);
    assert("endpoint"@[0] != "parameter"@[0]);
    assert("endpoint"@[0] != "javascript"@[0]);
    assert("other"@[0] != "parameter"@[0]);
    assert("other"@[0] != "javascript"@[0]);
    assert("other"@[0] != "endpoint"@[0]);
}

/// Any text that names a URL kind is the stored text of the kind it denotes.
pub proof fn lemma_url_type_from_known_text(t: Seq<char>)
    requires
        t == "parameter"@ || t == "javascript"@ || t == "endpoint"@ || t == "other"@,
    ensures
        url_type_text(url_type_from_text(t)) == t,
{
    reveal_strlit("parameter");
    reveal_strlit("javascript");
    reveal_strlit("endpoint");
    reveal_strlit("other");
}

/// A copy of an optional text.
pub fn copy_text(o: &Option<String>) -> (r: Option<String>)
    ensures
        r == *o,
{
    match o {
        Some(s) => Some(s.clone()),
        None => None,
    }
}

impl Engagement {
    /// A copy of this record.
    pub fn duplicate(&self) -> (r: Engagement)
        ensures
            r == *self,
    {
        Engagement {
            id: self.id.clone(),
            name: self.name.clone(),
            description: copy_text(&self.description),
            created_at: self.created_at.clone(),
            updated_at: self.updated_at.clone(),
        }
    }
}

impl Target {
    /// A copy of this record.
    pub fn duplicate(&self) -> (r: Target)
        ensures
            r == *self,
    {
        Target {
            id: self.id.clone(),
            engagement_id: self.engagement_id.clone(),
            domain: self.domain.clone(),
            created_at: self.created_at.clone(),
        }
    }
}

impl Subdomain {
    /// A copy of this record.
    pub fn duplicate(&self) -> (r: Subdomain)
        ensures
            r == *self,
    {
        Subdomain {
            id: self.id.clone(),
            target_id: self.target_id.clone(),
            subdomain: self.subdomain.clone(),
            status: self.status,
            notes: copy_text(&self.notes),
            status_code: self.status_code,
            title: copy_text(&self.title),
            created_at: self.created_at.clone(),
            updated_at: self.updated_at.clone(),
        }
    }
}

} // verus!
