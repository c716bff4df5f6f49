//! The model of the tracker's tables: what each table holds, keyed by row id,
//! and how each write changes it.
//!
//! A store is owned by the one connection that opened it; the model is what
//! that connection reads back.

use vstd::prelude::*;
use crate::models::{Engagement, Target, Tag, Technology, Ip, Asn, Screenshot};

verus! {

/// The rows of `engagements`: id to (name, description, created_at, updated_at).
pub uninterp spec fn engagement_rows(c: rusqlite::Connection) -> Map<
    Seq<char>,
    (Seq<char>, Option<Seq<char>>, Seq<char>, Seq<char>),
>;

/// The rows of `targets`: id to (engagement_id, domain, created_at).
pub uninterp spec fn target_rows(c: rusqlite::Connection) -> Map<
    Seq<char>,
    (Seq<char>, Seq<char>, Seq<char>),
>;

/// The rows of `subdomains`: id to (target_id, subdomain, status, notes,
/// status_code, title, created_at, updated_at).
pub uninterp spec fn subdomain_rows(c: rusqlite::Connection) -> Map<
    Seq<char>,
    (
        Seq<char>,
        Seq<char>,
        Seq<char>,
        Option<Seq<char>>,
        Option<i32>,
        Option<Seq<char>>,
        Seq<char>,
        Seq<char>,
    ),
>;

/// The rows of `tags`: id to (subdomain_id, name, created_at).
pub uninterp spec fn tag_rows(c: rusqlite::Connection) -> Map<
    Seq<char>,
    (Seq<char>, Seq<char>, Seq<char>),
>;

/// The rows of `technologies`: id to (subdomain_id, name, version, created_at).
pub uninterp spec fn technology_rows(c: rusqlite::Connection) -> Map<
    Seq<char>,
    (Seq<char>, Seq<char>, Option<Seq<char>>, Seq<char>),
>;

/// The rows of `urls`: id to (subdomain_id, url, url_type, created_at).
pub uninterp spec fn url_rows(c: rusqlite::Connection) -> Map<
    Seq<char>,
    (Seq<char>, Seq<char>, Seq<char>, Seq<char>),
>;

/// The rows of `ips`: id to (target_id, ip, created_at).
pub uninterp spec fn ip_rows(c: rusqlite::Connection) -> Map<
    Seq<char>,
    (Seq<char>, Seq<char>, Seq<char>),
>;

/// The rows of `asns`: id to (target_id, asn, org, created_at).
pub uninterp spec fn asn_rows(c: rusqlite::Connection) -> Map<
    Seq<char>,
    (Seq<char>, Seq<char>, Option<Seq<char>>, Seq<char>),
>;

/// The rows of `screenshots`: id to (subdomain_id, file_path, created_at).
pub uninterp spec fn screenshot_rows(c: rusqlite::Connection) -> Map<
    Seq<char>,
    (Seq<char>, Seq<char>, Seq<char>),
>;

/// Whether the connection enforces foreign keys (`PRAGMA foreign_keys = ON`).
pub uninterp spec fn foreign_keys_enforced(c: rusqlite::Connection) -> bool;

/// An engagement row: name, description, created_at, updated_at.
pub type EngRow = (Seq<char>, Option<Seq<char>>, Seq<char>, Seq<char>);

/// A target row: engagement_id, domain, created_at.
pub type TargetRow = (Seq<char>, Seq<char>, Seq<char>);

/// A subdomain row: target_id, subdomain, status, notes, status_code, title,
/// created_at, updated_at.
pub type SubRow = (
    Seq<char>,
    Seq<char>,
    Seq<char>,
    Option<Seq<char>>,
    Option<i32>,
    Option<Seq<char>>,
    Seq<char>,
    Seq<char>,
);

/// A tag row: subdomain_id, name, created_at.
pub type TagRow = (Seq<char>, Seq<char>, Seq<char>);

/// A technology row: subdomain_id, name, version, created_at.
pub type TechRow = (Seq<char>, Seq<char>, Option<Seq<char>>, Seq<char>);

/// A URL row: subdomain_id, url, url_type, created_at.
pub type UrlRow = (Seq<char>, Seq<char>, Seq<char>, Seq<char>);

/// An IP row: target_id, ip, created_at.
pub type IpRow = (Seq<char>, Seq<char>, Seq<char>);

/// An ASN row: target_id, asn, org, created_at.
pub type AsnRow = (Seq<char>, Seq<char>, Option<Seq<char>>, Seq<char>);

/// A screenshot row: subdomain_id, file_path, created_at.
pub type ShotRow = (Seq<char>, Seq<char>, Seq<char>);

/// All the tables of a store.
#[verifier::ext_equal]
pub struct Store {
    pub engagements: Map<Seq<char>, EngRow>,
    pub targets: Map<Seq<char>, TargetRow>,
    pub subdomains: Map<Seq<char>, SubRow>,
    pub tags: Map<Seq<char>, TagRow>,
    pub technologies: Map<Seq<char>, TechRow>,
    pub urls: Map<Seq<char>, UrlRow>,
    pub ips: Map<Seq<char>, IpRow>,
    pub asns: Map<Seq<char>, AsnRow>,
    pub screenshots: Map<Seq<char>, ShotRow>,
}

/// The tables that connection `c` holds.
pub open spec fn store_of(c: rusqlite::Connection) -> Store {
    Store {
        engagements: engagement_rows(c),
        targets: target_rows(c),
        subdomains: subdomain_rows(c),
        tags: tag_rows(c),
        technologies: technology_rows(c),
        urls: url_rows(c),
        ips: ip_rows(c),
        asns: asn_rows(c),
        screenshots: screenshot_rows(c),
    }
}

/// Whether a text value of an optional column holds `o`.
pub open spec fn opt_view(o: Option<String>) -> Option<Seq<char>> {
    match o {
        Some(s) => Some(s@),
        None => None,
    }
}

/// Whether some engagement other than `id` is named `name`.
pub open spec fn engagement_name_taken(s: Store, name: Seq<char>, except: Seq<char>) -> bool {
    exists|k: Seq<char>| #[trigger]
        s.engagements.contains_key(k) && k != except && s.engagements[k].0 == name
}

/// Whether some subdomain of `target_id` is named `name`.
pub open spec fn subdomain_name_taken(s: Store, target_id: Seq<char>, name: Seq<char>) -> bool {
    exists|k: Seq<char>| #[trigger]
        s.subdomains.contains_key(k) && s.subdomains[k].0 == target_id && s.subdomains[k].1 == name
}

/// Whether subdomain `subdomain_id` has a tag named `name`.
pub open spec fn tag_name_taken(s: Store, subdomain_id: Seq<char>, name: Seq<char>) -> bool {
    exists|k: Seq<char>| #[trigger]
        s.tags.contains_key(k) && s.tags[k].0 == subdomain_id && s.tags[k].1 == name
}

/// Whether subdomain `subdomain_id` already lists `url`.
pub open spec fn url_taken(s: Store, subdomain_id: Seq<char>, url: Seq<char>) -> bool {
    exists|k: Seq<char>| #[trigger]
        s.urls.contains_key(k) && s.urls[k].0 == subdomain_id && s.urls[k].1 == url
}

/// Whether target `target_id` already lists `ip`.
pub open spec fn ip_taken(s: Store, target_id: Seq<char>, ip: Seq<char>) -> bool {
    exists|k: Seq<char>| #[trigger]
        s.ips.contains_key(k) && s.ips[k].0 == target_id && s.ips[k].1 == ip
}

/// Whether target `target_id` already lists `asn`.
pub open spec fn asn_taken(s: Store, target_id: Seq<char>, asn: Seq<char>) -> bool {
    exists|k: Seq<char>| #[trigger]
        s.asns.contains_key(k) && s.asns[k].0 == target_id && s.asns[k].1 == asn
}

impl Store {
    /// The store after removing the subdomains whose ids are in `gone`, with
    /// everything that hangs from them.
    pub open spec fn without_subdomains(self, gone: Set<Seq<char>>) -> Store {
        Store {
            subdomains: self.subdomains.remove_keys(gone),
            tags: self.tags.filter_keys(|k: Seq<char>| !gone.contains(self.tags[k].0)),
            technologies: self.technologies.filter_keys(
                |k: Seq<char>| !gone.contains(self.technologies[k].0),
            ),
            urls: self.urls.filter_keys(|k: Seq<char>| !gone.contains(self.urls[k].0)),
            screenshots: self.screenshots.filter_keys(
                |k: Seq<char>| !gone.contains(self.screenshots[k].0),
            ),
            ..self
        }
    }

    /// The store after removing the targets whose ids are in `gone`, with
    /// everything that hangs from them.
    pub open spec fn without_targets(self, gone: Set<Seq<char>>) -> Store {
        let subs = self.subdomains.dom().filter(
            |k: Seq<char>| gone.contains(self.subdomains[k].0),
        );
        Store {
            targets: self.targets.remove_keys(gone),
            ips: self.ips.filter_keys(|k: Seq<char>| !gone.contains(self.ips[k].0)),
            asns: self.asns.filter_keys(|k: Seq<char>| !gone.contains(self.asns[k].0)),
            ..self
        }.without_subdomains(subs)
    }

    /// The store after deleting engagement `id` and everything under it.
    pub open spec fn delete_engagement(self, id: Seq<char>) -> Store {
        let targets = self.targets.dom().filter(|k: Seq<char>| self.targets[k].0 == id);
        Store { engagements: self.engagements.remove(id), ..self }.without_targets(targets)
    }

    /// The store after deleting target `id` and everything under it.
    pub open spec fn delete_target(self, id: Seq<char>) -> Store {
        self.without_targets(set![id])
    }

    /// The store after deleting subdomain `id` and everything under it.
    pub open spec fn delete_subdomain(self, id: Seq<char>) -> Store {
        self.without_subdomains(set![id])
    }
}


/// Text order of the store: character by character, by code point (the
/// order of SQLite's default collation on UTF-8 text), a prefix first.
pub open spec fn text_le(a: Seq<char>, b: Seq<char>) -> bool
    decreases a.len(),
{
    if a.len() == 0 {
        true
    } else if b.len() == 0 {
        false
    } else if a[0] != b[0] {
        (a[0] as u32) < (b[0] as u32)
    } else {
        text_le(a.drop_first(), b.drop_first())
    }
}

/// Whether `keys` is in ascending text order.
pub open spec fn ascending(keys: Seq<Seq<char>>) -> bool {
    forall|i: int, j: int| 0 <= i < j < keys.len() ==> text_le(#[trigger] keys[i], #[trigger] keys[j])
}

/// Whether `keys` is in descending text order.
pub open spec fn descending(keys: Seq<Seq<char>>) -> bool {
    forall|i: int, j: int| 0 <= i < j < keys.len() ==> text_le(#[trigger] keys[j], #[trigger] keys[i])
}

/// Whether the listing `ids`/`vals` holds each row of `table` that `keep`
/// selects exactly once, and nothing else.
pub open spec fn lists_exactly<V>(
    ids: Seq<Seq<char>>,
    vals: Seq<V>,
    table: Map<Seq<char>, V>,
    keep: spec_fn(Seq<char>, V) -> bool,
) -> bool {
    &&& ids.len() == vals.len()
    &&& ids.no_duplicates()
    &&& forall|i: int|
        0 <= i < ids.len() ==> table.contains_key(#[trigger] ids[i]) && table[ids[i]] == vals[i]
            && keep(ids[i], vals[i])
    &&& forall|k: Seq<char>| #[trigger]
        table.contains_key(k) && keep(k, table[k]) ==> ids.contains(k)
}

/// The row of an engagement record.
pub open spec fn engagement_row(e: Engagement) -> EngRow {
    (e.name@, opt_view(e.description), e.created_at@, e.updated_at@)
}

/// The row of a target record.
pub open spec fn target_row(t: Target) -> TargetRow {
    (t.engagement_id@, t.domain@, t.created_at@)
}

/// The row of a tag record.
pub open spec fn tag_row(t: Tag) -> TagRow {
    (t.subdomain_id@, t.name@, t.created_at@)
}

/// The row of a technology record.
pub open spec fn technology_row(t: Technology) -> TechRow {
    (t.subdomain_id@, t.name@, opt_view(t.version), t.created_at@)
}

/// The row of an IP record.
pub open spec fn ip_row(t: Ip) -> IpRow {
    (t.target_id@, t.ip@, t.created_at@)
}

/// The row of an ASN record.
pub open spec fn asn_row(t: Asn) -> AsnRow {
    (t.target_id@, t.asn@, opt_view(t.org), t.created_at@)
}

/// The row of a screenshot record.
pub open spec fn screenshot_row(t: Screenshot) -> ShotRow {
    (t.subdomain_id@, t.file_path@, t.created_at@)
}

/// A subdomain row as the store returns it: id, target_id, subdomain,
/// status, notes, status_code, title, created_at, updated_at.
pub type SubRecord = (
    String,
    String,
    String,
    String,
    Option<String>,
    Option<i32>,
    Option<String>,
    String,
    String,
);

/// A URL row as the store returns it: id, subdomain_id, url, url_type, created_at.
pub type UrlRecord = (String, String, String, String, String);

/// The row of a returned subdomain.
pub open spec fn sub_record_row(r: SubRecord) -> SubRow {
    (r.1@, r.2@, r.3@, opt_view(r.4), r.5, opt_view(r.6), r.7@, r.8@)
}

/// The row of a returned URL.
pub open spec fn url_record_row(r: UrlRecord) -> UrlRow {
    (r.1@, r.2@, r.3@, r.4@)
}

} // verus!

verus! {

/// Whether some engagement is named `name`.
pub open spec fn engagement_named(s: Store, name: Seq<char>) -> bool {
    exists|k: Seq<char>| #[trigger] s.engagements.contains_key(k) && s.engagements[k].0 == name
}

/// Whether an IP row other than `id`, under the same target as row `id`,
/// holds `ip`.
pub open spec fn ip_taken_by_other(s: Store, id: Seq<char>, ip: Seq<char>) -> bool {
    exists|k: Seq<char>| #[trigger]
        s.ips.contains_key(k) && k != id && s.ips[k].0 == s.ips[id].0 && s.ips[k].1 == ip
}

/// Whether an ASN row other than `id`, under the same target as row `id`,
/// holds `asn`.
pub open spec fn asn_taken_by_other(s: Store, id: Seq<char>, asn: Seq<char>) -> bool {
    exists|k: Seq<char>| #[trigger]
        s.asns.contains_key(k) && k != id && s.asns[k].0 == s.asns[id].0 && s.asns[k].1 == asn
}

/// Whether a URL row other than `id`, under the same subdomain as row `id`,
/// holds `url`.
pub open spec fn url_taken_by_other(s: Store, id: Seq<char>, url: Seq<char>) -> bool {
    exists|k: Seq<char>| #[trigger]
        s.urls.contains_key(k) && k != id && s.urls[k].0 == s.urls[id].0 && s.urls[k].1 == url
}

} // verus!
