//! Reading and writing the tracker's records.

use vstd::prelude::*;
use crate::db::Database;
use crate::error::RatariaError;
use crate::ids::{new_record_id, now_text};
use crate::models::{
    Engagement, NewEngagement, NewSubdomain, NewTarget, Subdomain, SubdomainStatus, Target,
    UpdateSubdomain, NewTag, Tag, NewTechnology, Technology, NewIp, Ip, NewAsn, Asn, NewUrl, Url,
    UrlType, NewScreenshot, Screenshot, url_type_from_text, url_type_text, UpdateTarget, UpdateIp,
    UpdateAsn, UpdateUrl, UpdateTechnology,
    status_from_text, status_text,
};
use crate::sql::{
    engagement_ids, insert_engagement_row, select_engagement, select_engagements,
    update_engagement_row, delete_engagement_row, with_engagement, target_ids, insert_target_row,
    select_targets, select_target, delete_target_row, with_target, sub_record_ids,
    insert_subdomain_row, select_subdomains, with_subdomain, select_subdomain, update_subdomain_row,
    delete_subdomain_row, select_subdomains_with_status, tag_ids, insert_tag_row, select_tags,
    delete_tag_row, delete_tag_rows_named, with_tag, technology_ids, insert_technology_row,
    select_technologies, delete_technology_row, with_technology, ip_ids, insert_ip_row, select_ips,
    with_ip, asn_ids, insert_asn_row, select_asns, with_asn, insert_url_row, select_urls, with_url,
    url_record_ids, screenshot_ids, insert_screenshot_row, select_screenshots, with_screenshot,
    update_target_row, update_ip_row, update_asn_row, update_url_row, update_technology_row,
    delete_ip_row, delete_asn_row, delete_url_row, delete_screenshot_row,
};
use crate::store::{
    EngRow, SubRecord, SubRow, TargetRow, ascending, descending, engagement_name_taken,
    engagement_named, engagement_row, lists_exactly, opt_view, sub_record_row,
    subdomain_name_taken, target_row, Store, TagRow, TechRow, tag_name_taken, tag_row,
    technology_row, IpRow, AsnRow, UrlRow, UrlRecord, ShotRow, ip_row, asn_row, ip_taken, asn_taken,
    url_taken, url_record_row, screenshot_row, ip_taken_by_other, asn_taken_by_other,
    url_taken_by_other,
};

verus! {

/// The text of an optional string slice.
pub open spec fn str_view(o: Option<&str>) -> Option<Seq<char>> {
    match o {
        Some(d) => Some(d@),
        None => None,
    }
}

/// Whether `v` is the listing of the targets of engagement `engagement_id`:
/// each exactly once, oldest first.
pub open spec fn targets_listing(t: Store, engagement_id: Seq<char>, v: Seq<Target>) -> bool {
    &&& lists_exactly(
        target_ids(v),
        v.map_values(|e: Target| target_row(e)),
        t.targets,
        |k: Seq<char>, row: TargetRow| row.0 == engagement_id,
    )
    &&& ascending(v.map_values(|e: Target| e.created_at@))
}

/// Whether `v` is the listing of the subdomains of target `target_id`: each
/// exactly once, by name.
pub open spec fn subdomains_listing(t: Store, target_id: Seq<char>, v: Seq<Subdomain>) -> bool {
    &&& lists_subdomains(v, t.subdomains, |row: SubRow| row.0 == target_id)
    &&& ascending(v.map_values(|s: Subdomain| s.subdomain@))
}

/// Whether `v` is the listing of the technologies of subdomain
/// `subdomain_id`: each exactly once, by name.
pub open spec fn technologies_listing(t: Store, subdomain_id: Seq<char>, v: Seq<Technology>) -> bool {
    &&& lists_exactly(
        technology_ids(v),
        v.map_values(|e: Technology| technology_row(e)),
        t.technologies,
        |k: Seq<char>, row: TechRow| row.0 == subdomain_id,
    )
    &&& ascending(v.map_values(|e: Technology| e.name@))
}

/// Whether `v` is the listing of the IPs of target `target_id`: each exactly
/// once, in text order.
pub open spec fn ips_listing(t: Store, target_id: Seq<char>, v: Seq<Ip>) -> bool {
    &&& lists_exactly(
        ip_ids(v),
        v.map_values(|e: Ip| ip_row(e)),
        t.ips,
        |k: Seq<char>, row: IpRow| row.0 == target_id,
    )
    &&& ascending(v.map_values(|e: Ip| e.ip@))
}

/// Whether `v` is the listing of the ASNs of target `target_id`: each
/// exactly once, in text order.
pub open spec fn asns_listing(t: Store, target_id: Seq<char>, v: Seq<Asn>) -> bool {
    &&& lists_exactly(
        asn_ids(v),
        v.map_values(|e: Asn| asn_row(e)),
        t.asns,
        |k: Seq<char>, row: AsnRow| row.0 == target_id,
    )
    &&& ascending(v.map_values(|e: Asn| e.asn@))
}

/// Whether `v` is the listing of the URLs of subdomain `subdomain_id`: each
/// exactly once, in text order.
pub open spec fn urls_listing(t: Store, subdomain_id: Seq<char>, v: Seq<Url>) -> bool {
    &&& v.map_values(|u: Url| u.id@).no_duplicates()
    &&& forall|i: int|
        0 <= i < v.len() ==> t.urls.contains_key(#[trigger] v[i].id@) && url_is_row(
            v[i],
            v[i].id@,
            t.urls[v[i].id@],
        ) && t.urls[v[i].id@].0 == subdomain_id
    &&& forall|k: Seq<char>| #[trigger]
        t.urls.contains_key(k) && t.urls[k].0 == subdomain_id ==> v.map_values(|u: Url| u.id@).contains(k)
    &&& ascending(v.map_values(|u: Url| u.url@))
}

/// A fresh record id and the current time, or the error of the random
/// source or of the clock.
fn fresh_stamp() -> (r: Result<(String, String), RatariaError>)
    ensures
        r matches Ok(p) ==> p.0@.len() == 36,
        r matches Err(e) ==> e is IoError,
{
    let id = match new_record_id() {
        Ok(i) => i,
        Err(e) => return Err(RatariaError::IoError(e)),
    };
    match now_text() {
        Ok(t) => Ok((id, t)),
        Err(e) => Err(RatariaError::IoError(e)),
    }
}

/// The current time, or the error of the clock.
fn stamp_now() -> (r: Result<String, RatariaError>)
    ensures
        r matches Err(e) ==> e is IoError,
{
    match now_text() {
        Ok(t) => Ok(t),
        Err(e) => Err(RatariaError::IoError(e)),
    }
}

/// Creates an engagement with a fresh id, stamped with the current time.
///
/// It fails, leaving the store as it was, when another engagement has the
/// same name, or when the store refuses the row.
pub fn create_engagement(db: &mut Database, new: NewEngagement) -> (r: Result<
    Engagement,
    RatariaError,
>)
    requires
        old(db).wf(),
    ensures
        final(db).wf(),
        engagement_named(old(db).tables(), new.name@) ==> r is Err,
        r matches Ok(e) ==> {
            &&& e.name@ == new.name@
            &&& opt_view(e.description) == opt_view(new.description)
            &&& e.id@.len() == 36
            &&& e.created_at@ == e.updated_at@
            &&& !old(db).tables().engagements.contains_key(e.id@)
            &&& final(db).tables() == with_engagement(old(db).tables(), e.id@, engagement_row(e))
        },
        r matches Err(e) ==> (e is Database || e is IoError) && final(db).tables() == old(db).tables(),
{
    let (id, now) = match fresh_stamp() {
        Ok(p) => p,
        Err(e) => return Err(e),
    };
    match insert_engagement_row(
        &mut db.conn,
        id.as_str(),
        new.name.as_str(),
        &new.description,
        now.as_str(),
    ) {
        Ok(_) => {
            let created_at = now.clone();
            Ok(Engagement {
                id,
                name: new.name,
                description: new.description,
                created_at,
                updated_at: now,
            })
        },
        Err(e) => Err(RatariaError::Database(e)),
    }
}

/// Every engagement, newest first.
pub fn list_engagements(db: &Database) -> (r: Result<Vec<Engagement>, RatariaError>)
    ensures
        r matches Ok(v) ==> lists_exactly(
            engagement_ids(v@),
            v@.map_values(|e: Engagement| engagement_row(e)),
            db.tables().engagements,
            |k: Seq<char>, row: EngRow| true,
        ) && descending(v@.map_values(|e: Engagement| e.created_at@)),
        r matches Err(e) ==> e is Database,
{
    match select_engagements(&db.conn) {
        Ok(v) => Ok(v),
        Err(e) => Err(RatariaError::Database(e)),
    }
}

/// The engagement with id `id`, if there is one.
pub fn get_engagement(db: &Database, id: &str) -> (r: Result<Option<Engagement>, RatariaError>)
    ensures
        r matches Ok(Some(e)) ==> e.id@ == id@ && db.tables().engagements.contains_key(id@)
            && db.tables().engagements[id@] == engagement_row(e),
        r matches Ok(None) ==> !db.tables().engagements.contains_key(id@),
        r matches Err(e) ==> e is Database,
{
    match select_engagement(&db.conn, id) {
        Ok(v) => {
            let mut v = v;
            if v.len() == 0 {
                assert(!db.tables().engagements.contains_key(id@)) by {
                    if db.tables().engagements.contains_key(id@) {
                        assert(engagement_ids(v@).contains(id@));
                    }
                }
                Ok(None)
            } else {
                assert(engagement_ids(v@)[0] == v@[0].id@);
                let e = v.remove(0);
                Ok(Some(e))
            }
        },
        Err(e) => Err(RatariaError::Database(e)),
    }
}

/// Renames engagement `id` and replaces its description, stamping the time.
///
/// It fails with `NotFound`, changing nothing, when there is no such
/// engagement; it fails when another engagement has the new name.
pub fn update_engagement(db: &mut Database, id: &str, name: &str, description: Option<&str>) -> (r:
    Result<Engagement, RatariaError>)
    requires
        old(db).wf(),
    ensures
        final(db).wf(),
        old(db).tables().engagements.contains_key(id@) && engagement_name_taken(
            old(db).tables(),
            name@,
            id@,
        ) ==> r is Err,
        r matches Ok(e) ==> {
            &&& old(db).tables().engagements.contains_key(id@)
            &&& e.id@ == id@
            &&& e.name@ == name@
            &&& opt_view(e.description) == match description {
                Some(d) => Some(d@),
                None => None,
            }
            &&& e.created_at@ == old(db).tables().engagements[id@].2
            &&& final(db).tables() == with_engagement(old(db).tables(), id@, engagement_row(e))
        },
        r matches Err(RatariaError::NotFound(_)) ==> !old(db).tables().engagements.contains_key(id@)
            && final(db).tables() == old(db).tables(),
        !old(db).tables().engagements.contains_key(id@) ==> r is Err && final(db).tables() == old(
            db,
        ).tables(),
        old(db).tables().engagements.contains_key(id@) && engagement_name_taken(
            old(db).tables(),
            name@,
            id@,
        ) ==> final(db).tables() == old(db).tables(),
        final(db).tables() == old(db).tables() || (old(db).tables().engagements.contains_key(id@)
            && exists|now: Seq<char>|
            final(db).tables() == #[trigger] with_engagement(
                old(db).tables(),
                id@,
                (name@, str_view(description), old(db).tables().engagements[id@].2, now),
            )),
{
    let now = match stamp_now() {
        Ok(t) => t,
        Err(e) => return Err(e),
    };
    let rows_affected = match update_engagement_row(&mut db.conn, id, name, description, now.as_str()) {
        Ok(n) => n,
        Err(e) => return Err(RatariaError::Database(e)),
    };
    if rows_affected == 0 {
        return Err(RatariaError::NotFound("Engagement não encontrado".to_owned()));
    }
    assert(db.tables() == with_engagement(
        old(db).tables(),
        id@,
        (name@, str_view(description), old(db).tables().engagements[id@].2, now@),
    ));
    match get_engagement(db, id) {
        Ok(Some(e)) => Ok(e),
        Ok(None) => Err(RatariaError::NotFound("Engagement não encontrado".to_owned())),
        Err(e) => Err(e),
    }
}

/// Deletes engagement `id` and, in cascade, its targets and all they hold.
///
/// It fails with `NotFound`, changing nothing, when there is no such engagement.
pub fn delete_engagement(db: &mut Database, id: &str) -> (r: Result<(), RatariaError>)
    requires
        old(db).wf(),
    ensures
        final(db).wf(),
        r is Ok ==> old(db).tables().engagements.contains_key(id@) && final(db).tables()
            == old(db).tables().delete_engagement(id@),
        r matches Err(RatariaError::NotFound(_)) ==> !old(db).tables().engagements.contains_key(id@),
        !old(db).tables().engagements.contains_key(id@) ==> r is Err && (r->Err_0 is NotFound
            || r->Err_0 is Database),
        r matches Err(e) ==> e is NotFound || e is Database,
        r is Err ==> final(db).tables() == old(db).tables(),
{
    match delete_engagement_row(&mut db.conn, id) {
        Ok(0) => Err(RatariaError::NotFound("Engagement não encontrado".to_owned())),
        Ok(_) => Ok(()),
        Err(e) => Err(RatariaError::Database(e)),
    }
}

} // verus!

verus! {

// ─── targets ────────────────────────────────────────────────────────────────

/// Creates a target with a fresh id under engagement `new.engagement_id`.
///
/// It fails, leaving the store as it was, when that engagement does not
/// exist, or when the store refuses the row.
pub fn create_target(db: &mut Database, new: NewTarget) -> (r: Result<Target, RatariaError>)
    requires
        old(db).wf(),
    ensures
        final(db).wf(),
        !old(db).tables().engagements.contains_key(new.engagement_id@) ==> r is Err,
        r matches Ok(t) ==> {
            &&& t.engagement_id@ == new.engagement_id@
            &&& t.domain@ == new.domain@
            &&& t.id@.len() == 36
            &&& !old(db).tables().targets.contains_key(t.id@)
            &&& final(db).tables() == with_target(old(db).tables(), t.id@, target_row(t))
        },
        r matches Err(e) ==> (e is Database || e is IoError) && final(db).tables() == old(db).tables(),
{
    let (id, now) = match fresh_stamp() {
        Ok(p) => p,
        Err(e) => return Err(e),
    };
    match insert_target_row(
        &mut db.conn,
        id.as_str(),
        new.engagement_id.as_str(),
        new.domain.as_str(),
        now.as_str(),
    ) {
        Ok(_) => Ok(Target {
            id,
            engagement_id: new.engagement_id,
            domain: new.domain,
            created_at: now,
        }),
        Err(e) => Err(RatariaError::Database(e)),
    }
}

/// The targets of engagement `engagement_id`, oldest first.
pub fn list_targets(db: &Database, engagement_id: &str) -> (r: Result<Vec<Target>, RatariaError>)
    ensures
        r matches Ok(v) ==> targets_listing(db.tables(), engagement_id@, v@),
        r matches Err(e) ==> e is Database,
{
    match select_targets(&db.conn, engagement_id) {
        Ok(v) => Ok(v),
        Err(e) => Err(RatariaError::Database(e)),
    }
}

/// The target with id `id`, if there is one.
pub fn get_target(db: &Database, id: &str) -> (r: Result<Option<Target>, RatariaError>)
    ensures
        r matches Ok(Some(t)) ==> t.id@ == id@ && db.tables().targets.contains_key(id@)
            && db.tables().targets[id@] == target_row(t),
        r matches Ok(None) ==> !db.tables().targets.contains_key(id@),
        r matches Err(e) ==> e is Database,
{
    match select_target(&db.conn, id) {
        Ok(v) => {
            let mut v = v;
            if v.len() == 0 {
                assert(!db.tables().targets.contains_key(id@)) by {
                    if db.tables().targets.contains_key(id@) {
                        assert(target_ids(v@).contains(id@));
                    }
                }
                Ok(None)
            } else {
                assert(target_ids(v@)[0] == v@[0].id@);
                let t = v.remove(0);
                Ok(Some(t))
            }
        },
        Err(e) => Err(RatariaError::Database(e)),
    }
}

/// Deletes target `id` and, in cascade, its subdomains, IPs and ASNs and all
/// they hold. It fails with `NotFound`, changing nothing, when there is no
/// such target.
pub fn delete_target(db: &mut Database, id: &str) -> (r: Result<(), RatariaError>)
    requires
        old(db).wf(),
    ensures
        final(db).wf(),
        r is Ok ==> old(db).tables().targets.contains_key(id@) && final(db).tables()
            == old(db).tables().delete_target(id@),
        r matches Err(RatariaError::NotFound(_)) ==> !old(db).tables().targets.contains_key(id@),
        r is Err ==> final(db).tables() == old(db).tables(),
{
    match delete_target_row(&mut db.conn, id) {
        Ok(0) => Err(RatariaError::NotFound("Target não encontrado".to_owned())),
        Ok(_) => Ok(()),
        Err(e) => Err(RatariaError::Database(e)),
    }
}

// ─── subdomains ─────────────────────────────────────────────────────────────

/// Whether record `s` is the subdomain row `row` stored under `id`, its
/// status read back from the stored text.
pub open spec fn subdomain_is_row(s: Subdomain, id: Seq<char>, row: SubRow) -> bool {
    &&& s.id@ == id
    &&& s.target_id@ == row.0
    &&& s.subdomain@ == row.1
    &&& s.status == status_from_text(row.2)
    &&& opt_view(s.notes) == row.3
    &&& s.status_code == row.4
    &&& opt_view(s.title) == row.5
    &&& s.created_at@ == row.6
    &&& s.updated_at@ == row.7
}

/// Whether `v` lists each subdomain row of `table` that `keep` selects
/// exactly once, and nothing else.
pub open spec fn lists_subdomains(
    v: Seq<Subdomain>,
    table: Map<Seq<char>, SubRow>,
    keep: spec_fn(SubRow) -> bool,
) -> bool {
    &&& v.map_values(|s: Subdomain| s.id@).no_duplicates()
    &&& forall|i: int|
        0 <= i < v.len() ==> table.contains_key(#[trigger] v[i].id@) && subdomain_is_row(
            v[i],
            v[i].id@,
            table[v[i].id@],
        ) && keep(table[v[i].id@])
    &&& forall|k: Seq<char>| #[trigger]
        table.contains_key(k) && keep(table[k]) ==> v.map_values(|s: Subdomain| s.id@).contains(k)
}

/// The record of a subdomain row returned by the store.
pub fn subdomain_from_record(r: SubRecord) -> (s: Subdomain)
    ensures
        subdomain_is_row(s, r.0@, sub_record_row(r)),
{
    let status = SubdomainStatus::from_str(r.3.as_str());
    Subdomain {
        id: r.0,
        target_id: r.1,
        subdomain: r.2,
        status,
        notes: r.4,
        status_code: r.5,
        title: r.6,
        created_at: r.7,
        updated_at: r.8,
    }
}

/// The records of subdomain rows returned by the store, in the same order.
pub fn subdomains_from_records(rows: Vec<SubRecord>) -> (v: Vec<Subdomain>)
    ensures
        v@.len() == rows@.len(),
        forall|i: int|
            0 <= i < v@.len() ==> subdomain_is_row(
                #[trigger] v@[i],
                rows@[i].0@,
                sub_record_row(rows@[i]),
            ),
{
    let mut out: Vec<Subdomain> = Vec::new();
    let mut rows = rows;
    let ghost all = rows@;
    while rows.len() > 0
        invariant
            rows@.len() + out@.len() == all.len(),
            rows@ == all.skip(out@.len() as int),
            forall|i: int|
                0 <= i < out@.len() ==> subdomain_is_row(
                    #[trigger] out@[i],
                    all[i].0@,
                    sub_record_row(all[i]),
                ),
        decreases rows@.len(),
    {
        let ghost k = out@.len() as int;
        assert(rows@[0] == all[k]);
        let r = rows.remove(0);
        assert(rows@ =~= all.skip(k + 1));
        out.push(subdomain_from_record(r));
    }
    out
}

/// Creates a subdomain with a fresh id under target `new.target_id`, not yet
/// visited and without notes.
///
/// It fails, leaving the store as it was, when the target already has a
/// subdomain of that name or does not exist, or when the store refuses the row.
pub fn create_subdomain(db: &mut Database, new: NewSubdomain) -> (r: Result<
    Subdomain,
    RatariaError,
>)
    requires
        old(db).wf(),
    ensures
        final(db).wf(),
        subdomain_name_taken(old(db).tables(), new.target_id@, new.subdomain@)
            || !old(db).tables().targets.contains_key(new.target_id@) ==> r is Err,
        r matches Ok(s) ==> {
            &&& s.target_id@ == new.target_id@
            &&& s.subdomain@ == new.subdomain@
            &&& s.status == SubdomainStatus::NotVisited
            &&& s.notes is None
            &&& s.status_code == new.status_code
            &&& opt_view(s.title) == opt_view(new.title)
            &&& s.id@.len() == 36
            &&& s.created_at@ == s.updated_at@
            &&& !old(db).tables().subdomains.contains_key(s.id@)
            &&& final(db).tables() == with_subdomain(
                old(db).tables(),
                s.id@,
                (
                    s.target_id@,
                    s.subdomain@,
                    status_text(s.status),
                    None,
                    s.status_code,
                    opt_view(s.title),
                    s.created_at@,
                    s.updated_at@,
                ),
            )
        },
        r matches Err(e) ==> (e is Database || e is IoError) && final(db).tables() == old(db).tables(),
{
    let (id, now) = match fresh_stamp() {
        Ok(p) => p,
        Err(e) => return Err(e),
    };
    let status = SubdomainStatus::NotVisited;
    match insert_subdomain_row(
        &mut db.conn,
        id.as_str(),
        new.target_id.as_str(),
        new.subdomain.as_str(),
        status.as_str(),
        new.status_code,
        &new.title,
        now.as_str(),
    ) {
        Ok(_) => {
            let created_at = now.clone();
            Ok(Subdomain {
                id,
                target_id: new.target_id,
                subdomain: new.subdomain,
                status,
                notes: None,
                status_code: new.status_code,
                title: new.title,
                created_at,
                updated_at: now,
            })
        },
        Err(e) => Err(RatariaError::Database(e)),
    }
}

/// The subdomains of target `target_id`, by name.
pub fn list_subdomains(db: &Database, target_id: &str) -> (r: Result<Vec<Subdomain>, RatariaError>)
    ensures
        r matches Ok(v) ==> subdomains_listing(db.tables(), target_id@, v@),
        r matches Err(e) ==> e is Database,
{
    match select_subdomains(&db.conn, target_id) {
        Ok(rows) => {
            let v = subdomains_from_records(rows);
            assert(v@.map_values(|s: Subdomain| s.id@) =~= sub_record_ids(rows@));
            assert(v@.map_values(|s: Subdomain| s.subdomain@) =~= rows@.map_values(
                |e: SubRecord| e.2@,
            ));
            assert forall|i: int| 0 <= i < v@.len() implies #[trigger] v@[i].id@ == sub_record_ids(
                rows@,
            )[i] by {}
            Ok(v)
        },
        Err(e) => Err(RatariaError::Database(e)),
    }
}

} // verus!

verus! {

/// The subdomain with id `id`, if there is one.
pub fn get_subdomain(db: &Database, id: &str) -> (r: Result<Option<Subdomain>, RatariaError>)
    ensures
        r matches Ok(Some(s)) ==> db.tables().subdomains.contains_key(id@) && subdomain_is_row(
            s,
            id@,
            db.tables().subdomains[id@],
        ),
        r matches Ok(None) ==> !db.tables().subdomains.contains_key(id@),
        r matches Err(e) ==> e is Database,
{
    match select_subdomain(&db.conn, id) {
        Ok(v) => {
            let mut v = v;
            if v.len() == 0 {
                assert(!db.tables().subdomains.contains_key(id@)) by {
                    if db.tables().subdomains.contains_key(id@) {
                        assert(sub_record_ids(v@).contains(id@));
                    }
                }
                Ok(None)
            } else {
                assert(sub_record_ids(v@)[0] == v@[0].0@);
                let row = v.remove(0);
                Ok(Some(subdomain_from_record(row)))
            }
        },
        Err(e) => Err(RatariaError::Database(e)),
    }
}

/// The text of `a` when given, else that of `b`.
pub open spec fn or_view(a: Option<String>, b: Option<String>) -> Option<Seq<char>> {
    match a {
        Some(x) => Some(x@),
        None => opt_view(b),
    }
}

/// A copy of an optional text.
pub fn copy_opt_text(o: &Option<String>) -> (r: Option<String>)
    ensures
        opt_view(r) == opt_view(*o),
{
    match o {
        Some(s) => Some(s.clone()),
        None => None,
    }
}

/// The values a subdomain takes under `update`: each field given in the
/// update replaces the current one, each field left out keeps it.
pub fn merge_subdomain_update(current: &Subdomain, update: UpdateSubdomain) -> (r: (
    SubdomainStatus,
    Option<String>,
    Option<i32>,
    Option<String>,
))
    ensures
        r.0 == match update.status {
            Some(s) => s,
            None => current.status,
        },
        opt_view(r.1) == or_view(update.notes, current.notes),
        r.2 == match update.status_code {
            Some(c) => Some(c),
            None => current.status_code,
        },
        opt_view(r.3) == or_view(update.title, current.title),
{
    let status = match update.status {
        Some(s) => s,
        None => current.status,
    };
    let notes = match update.notes {
        Some(n) => Some(n),
        None => copy_opt_text(&current.notes),
    };
    let status_code = match update.status_code {
        Some(c) => Some(c),
        None => current.status_code,
    };
    let title = match update.title {
        Some(t) => Some(t),
        None => copy_opt_text(&current.title),
    };
    (status, notes, status_code, title)
}

/// The row that subdomain row `row` becomes under `update` at time `now`.
pub open spec fn updated_sub_row(row: SubRow, update: UpdateSubdomain, now: Seq<char>) -> SubRow {
    (
        row.0,
        row.1,
        status_text(
            match update.status {
                Some(s) => s,
                None => status_from_text(row.2),
            },
        ),
        match update.notes {
            Some(n) => Some(n@),
            None => row.3,
        },
        match update.status_code {
            Some(c) => Some(c),
            None => row.4,
        },
        match update.title {
            Some(t) => Some(t@),
            None => row.5,
        },
        row.6,
        now,
    )
}

/// Applies `update` to subdomain `id`: the status, notes, status code and
/// title that it gives replace the stored ones, the others stay, and the
/// time is stamped. The name is never changed here.
///
/// It fails with `NotFound`, changing nothing, when there is no such subdomain.
pub fn update_subdomain(db: &mut Database, id: &str, update: UpdateSubdomain) -> (r: Result<
    Subdomain,
    RatariaError,
>)
    requires
        old(db).wf(),
    ensures
        final(db).wf(),
        r matches Ok(s) ==> {
            &&& old(db).tables().subdomains.contains_key(id@)
            &&& final(db).tables() == with_subdomain(
                old(db).tables(),
                id@,
                updated_sub_row(old(db).tables().subdomains[id@], update, s.updated_at@),
            )
            &&& subdomain_is_row(s, id@, final(db).tables().subdomains[id@])
        },
        r matches Err(RatariaError::NotFound(_)) ==> !old(db).tables().subdomains.contains_key(id@)
            && final(db).tables() == old(db).tables(),
        !old(db).tables().subdomains.contains_key(id@) ==> r is Err && (r->Err_0 is NotFound
            || r->Err_0 is Database),
        r matches Err(e) ==> e is NotFound || e is Database || e is IoError,
        final(db).tables() == old(db).tables() || (old(db).tables().subdomains.contains_key(id@)
            && exists|now: Seq<char>|
            final(db).tables() == #[trigger] with_subdomain(
                old(db).tables(),
                id@,
                updated_sub_row(old(db).tables().subdomains[id@], update, now),
            )),
{
    let current = match get_subdomain(db, id) {
        Ok(Some(s)) => s,
        Ok(None) => return Err(RatariaError::NotFound("Subdomain não encontrado".to_owned())),
        Err(e) => return Err(e),
    };
    let now = match stamp_now() {
        Ok(t) => t,
        Err(e) => return Err(e),
    };
    let ghost update_view = update;
    let (status, notes, status_code, title) = merge_subdomain_update(&current, update);
    match update_subdomain_row(
        &mut db.conn,
        id,
        status.as_str(),
        &notes,
        status_code,
        &title,
        now.as_str(),
    ) {
        Ok(_) => {},
        Err(e) => return Err(RatariaError::Database(e)),
    }
    assert(final(db).tables().subdomains[id@] == updated_sub_row(
        old(db).tables().subdomains[id@],
        update_view,
        now@,
    )) by {
        assert(db.tables().subdomains[id@] == updated_sub_row(
            old(db).tables().subdomains[id@],
            update_view,
            now@,
        ));
    }
    assert(final(db).tables() == with_subdomain(
        old(db).tables(),
        id@,
        updated_sub_row(old(db).tables().subdomains[id@], update_view, now@),
    ));
    match get_subdomain(db, id) {
        Ok(Some(s)) => Ok(s),
        Ok(None) => Err(RatariaError::NotFound("Subdomain não encontrado".to_owned())),
        Err(e) => Err(e),
    }
}

} // verus!

verus! {

/// Deletes subdomain `id` and, in cascade, its tags, technologies, URLs and
/// screenshots. It fails with `NotFound`, changing nothing, when there is no
/// such subdomain.
pub fn delete_subdomain(db: &mut Database, id: &str) -> (r: Result<(), RatariaError>)
    requires
        old(db).wf(),
    ensures
        final(db).wf(),
        r is Ok ==> old(db).tables().subdomains.contains_key(id@) && final(db).tables()
            == old(db).tables().delete_subdomain(id@),
        r matches Err(RatariaError::NotFound(_)) ==> !old(db).tables().subdomains.contains_key(id@),
        r is Err ==> final(db).tables() == old(db).tables(),
{
    match delete_subdomain_row(&mut db.conn, id) {
        Ok(0) => Err(RatariaError::NotFound("Subdomain não encontrado".to_owned())),
        Ok(_) => Ok(()),
        Err(e) => Err(RatariaError::Database(e)),
    }
}

/// The subdomains of target `target_id` with status `status`, by name.
pub fn list_subdomains_by_status(db: &Database, target_id: &str, status: SubdomainStatus) -> (r:
    Result<Vec<Subdomain>, RatariaError>)
    ensures
        r matches Ok(v) ==> lists_subdomains(
            v@,
            db.tables().subdomains,
            |row: SubRow| row.0 == target_id@ && row.2 == status_text(status),
        ) && ascending(v@.map_values(|s: Subdomain| s.subdomain@)),
        r matches Err(e) ==> e is Database,
{
    match select_subdomains_with_status(&db.conn, target_id, status.as_str()) {
        Ok(rows) => {
            let v = subdomains_from_records(rows);
            assert(v@.map_values(|s: Subdomain| s.id@) =~= sub_record_ids(rows@));
            assert(v@.map_values(|s: Subdomain| s.subdomain@) =~= rows@.map_values(
                |e: SubRecord| e.2@,
            ));
            assert forall|i: int| 0 <= i < v@.len() implies #[trigger] v@[i].id@ == sub_record_ids(
                rows@,
            )[i] by {}
            Ok(v)
        },
        Err(e) => Err(RatariaError::Database(e)),
    }
}

// ─── tags ───────────────────────────────────────────────────────────────────

/// Tags subdomain `new.subdomain_id` with `new.name`.
///
/// It fails, leaving the store as it was, when the subdomain already has that
/// tag or does not exist, or when the store refuses the row.
pub fn create_tag(db: &mut Database, new: NewTag) -> (r: Result<Tag, RatariaError>)
    requires
        old(db).wf(),
    ensures
        final(db).wf(),
        tag_name_taken(old(db).tables(), new.subdomain_id@, new.name@)
            || !old(db).tables().subdomains.contains_key(new.subdomain_id@) ==> r is Err,
        r matches Ok(t) ==> {
            &&& t.subdomain_id@ == new.subdomain_id@
            &&& t.name@ == new.name@
            &&& t.id@.len() == 36
            &&& !old(db).tables().tags.contains_key(t.id@)
            &&& final(db).tables() == with_tag(old(db).tables(), t.id@, tag_row(t))
        },
        r matches Err(e) ==> (e is Database || e is IoError) && final(db).tables() == old(db).tables(),
{
    let (id, now) = match fresh_stamp() {
        Ok(p) => p,
        Err(e) => return Err(e),
    };
    match insert_tag_row(
        &mut db.conn,
        id.as_str(),
        new.subdomain_id.as_str(),
        new.name.as_str(),
        now.as_str(),
    ) {
        Ok(_) => Ok(Tag { id, subdomain_id: new.subdomain_id, name: new.name, created_at: now }),
        Err(e) => Err(RatariaError::Database(e)),
    }
}

/// The tags of subdomain `subdomain_id`, by name.
pub fn list_tags(db: &Database, subdomain_id: &str) -> (r: Result<Vec<Tag>, RatariaError>)
    ensures
        r matches Ok(v) ==> lists_exactly(
            tag_ids(v@),
            v@.map_values(|e: Tag| tag_row(e)),
            db.tables().tags,
            |k: Seq<char>, row: TagRow| row.0 == subdomain_id@,
        ) && ascending(v@.map_values(|e: Tag| e.name@)),
        r matches Err(e) ==> e is Database,
{
    match select_tags(&db.conn, subdomain_id) {
        Ok(v) => Ok(v),
        Err(e) => Err(RatariaError::Database(e)),
    }
}

/// Deletes tag `id`. It fails with `NotFound`, changing nothing, when there
/// is no such tag.
pub fn delete_tag(db: &mut Database, id: &str) -> (r: Result<(), RatariaError>)
    requires
        old(db).wf(),
    ensures
        final(db).wf(),
        r is Ok ==> old(db).tables().tags.contains_key(id@) && final(db).tables() == (Store {
            tags: old(db).tables().tags.remove(id@),
            ..old(db).tables()
        }),
        r matches Err(RatariaError::NotFound(_)) ==> !old(db).tables().tags.contains_key(id@),
        r is Err ==> final(db).tables() == old(db).tables(),
{
    match delete_tag_row(&mut db.conn, id) {
        Ok(0) => Err(RatariaError::NotFound("Tag não encontrada".to_owned())),
        Ok(_) => Ok(()),
        Err(e) => Err(RatariaError::Database(e)),
    }
}

/// Removes tag `name` from subdomain `subdomain_id`. It fails with
/// `NotFound`, changing nothing, when the subdomain has no such tag.
pub fn delete_tag_by_name(db: &mut Database, subdomain_id: &str, name: &str) -> (r: Result<
    (),
    RatariaError,
>)
    requires
        old(db).wf(),
    ensures
        final(db).wf(),
        r is Ok ==> tag_name_taken(old(db).tables(), subdomain_id@, name@) && final(db).tables()
            == (Store {
            tags: old(db).tables().tags.filter_keys(
                |k: Seq<char>|
                    !(old(db).tables().tags[k].0 == subdomain_id@ && old(db).tables().tags[k].1
                        == name@),
            ),
            ..old(db).tables()
        }),
        r matches Err(RatariaError::NotFound(_)) ==> !tag_name_taken(
            old(db).tables(),
            subdomain_id@,
            name@,
        ),
        r is Err ==> final(db).tables() == old(db).tables(),
{
    match delete_tag_rows_named(&mut db.conn, subdomain_id, name) {
        Ok(0) => Err(RatariaError::NotFound("Tag não encontrada".to_owned())),
        Ok(_) => Ok(()),
        Err(e) => Err(RatariaError::Database(e)),
    }
}

// ─── technologies ───────────────────────────────────────────────────────────

/// Records a technology on subdomain `new.subdomain_id`.
///
/// It fails, leaving the store as it was, when the subdomain does not exist
/// or when the store refuses the row.
pub fn create_technology(db: &mut Database, new: NewTechnology) -> (r: Result<
    Technology,
    RatariaError,
>)
    requires
        old(db).wf(),
    ensures
        final(db).wf(),
        !old(db).tables().subdomains.contains_key(new.subdomain_id@) ==> r is Err,
        r matches Ok(t) ==> {
            &&& t.subdomain_id@ == new.subdomain_id@
            &&& t.name@ == new.name@
            &&& opt_view(t.version) == opt_view(new.version)
            &&& t.id@.len() == 36
            &&& !old(db).tables().technologies.contains_key(t.id@)
            &&& final(db).tables() == with_technology(old(db).tables(), t.id@, technology_row(t))
        },
        r matches Err(e) ==> (e is Database || e is IoError) && final(db).tables() == old(db).tables(),
{
    let (id, now) = match fresh_stamp() {
        Ok(p) => p,
        Err(e) => return Err(e),
    };
    match insert_technology_row(
        &mut db.conn,
        id.as_str(),
        new.subdomain_id.as_str(),
        new.name.as_str(),
        &new.version,
        now.as_str(),
    ) {
        Ok(_) => Ok(
            Technology {
                id,
                subdomain_id: new.subdomain_id,
                name: new.name,
                version: new.version,
                created_at: now,
            },
        ),
        Err(e) => Err(RatariaError::Database(e)),
    }
}

/// The technologies of subdomain `subdomain_id`, by name.
pub fn list_technologies(db: &Database, subdomain_id: &str) -> (r: Result<
    Vec<Technology>,
    RatariaError,
>)
    ensures
        r matches Ok(v) ==> technologies_listing(db.tables(), subdomain_id@, v@),
        r matches Err(e) ==> e is Database,
{
    match select_technologies(&db.conn, subdomain_id) {
        Ok(v) => Ok(v),
        Err(e) => Err(RatariaError::Database(e)),
    }
}

/// Deletes technology `id`. It fails with `NotFound`, changing nothing, when
/// there is no such record.
pub fn delete_technology(db: &mut Database, id: &str) -> (r: Result<(), RatariaError>)
    requires
        old(db).wf(),
    ensures
        final(db).wf(),
        r is Ok ==> old(db).tables().technologies.contains_key(id@) && final(db).tables() == (Store {
            technologies: old(db).tables().technologies.remove(id@),
            ..old(db).tables()
        }),
        r matches Err(RatariaError::NotFound(_)) ==> !old(db).tables().technologies.contains_key(
            id@,
        ),
        r is Err ==> final(db).tables() == old(db).tables(),
{
    match delete_technology_row(&mut db.conn, id) {
        Ok(0) => Err(RatariaError::NotFound("Technology não encontrada".to_owned())),
        Ok(_) => Ok(()),
        Err(e) => Err(RatariaError::Database(e)),
    }
}

} // verus!

verus! {

// ─── ips ────────────────────────────────────────────────────────────────────

/// Records IP `new.ip` on target `new.target_id`.
///
/// It fails, leaving the store as it was, when the target already lists that
/// IP or does not exist, or when the store refuses the row.
pub fn create_ip(db: &mut Database, new: NewIp) -> (r: Result<Ip, RatariaError>)
    requires
        old(db).wf(),
    ensures
        final(db).wf(),
        ip_taken(old(db).tables(), new.target_id@, new.ip@) || !old(db).tables().targets.contains_key(
            new.target_id@,
        ) ==> r is Err,
        r matches Ok(t) ==> {
            &&& t.target_id@ == new.target_id@
            &&& t.ip@ == new.ip@
            &&& t.id@.len() == 36
            &&& !old(db).tables().ips.contains_key(t.id@)
            &&& final(db).tables() == with_ip(old(db).tables(), t.id@, ip_row(t))
        },
        r matches Err(e) ==> (e is Database || e is IoError) && final(db).tables() == old(db).tables(),
{
    let (id, now) = match fresh_stamp() {
        Ok(p) => p,
        Err(e) => return Err(e),
    };
    match insert_ip_row(&mut db.conn, id.as_str(), new.target_id.as_str(), new.ip.as_str(), now.as_str()) {
        Ok(_) => Ok(Ip { id, target_id: new.target_id, ip: new.ip, created_at: now }),
        Err(e) => Err(RatariaError::Database(e)),
    }
}

/// The IPs of target `target_id`, in text order.
pub fn list_ips(db: &Database, target_id: &str) -> (r: Result<Vec<Ip>, RatariaError>)
    ensures
        r matches Ok(v) ==> ips_listing(db.tables(), target_id@, v@),
        r matches Err(e) ==> e is Database,
{
    match select_ips(&db.conn, target_id) {
        Ok(v) => Ok(v),
        Err(e) => Err(RatariaError::Database(e)),
    }
}

// ─── asns ───────────────────────────────────────────────────────────────────

/// Records ASN `new.asn` on target `new.target_id`.
///
/// It fails, leaving the store as it was, when the target already lists that
/// ASN or does not exist, or when the store refuses the row.
pub fn create_asn(db: &mut Database, new: NewAsn) -> (r: Result<Asn, RatariaError>)
    requires
        old(db).wf(),
    ensures
        final(db).wf(),
        asn_taken(old(db).tables(), new.target_id@, new.asn@)
            || !old(db).tables().targets.contains_key(new.target_id@) ==> r is Err,
        r matches Ok(t) ==> {
            &&& t.target_id@ == new.target_id@
            &&& t.asn@ == new.asn@
            &&& opt_view(t.org) == opt_view(new.org)
            &&& t.id@.len() == 36
            &&& !old(db).tables().asns.contains_key(t.id@)
            &&& final(db).tables() == with_asn(old(db).tables(), t.id@, asn_row(t))
        },
        r matches Err(e) ==> (e is Database || e is IoError) && final(db).tables() == old(db).tables(),
{
    let (id, now) = match fresh_stamp() {
        Ok(p) => p,
        Err(e) => return Err(e),
    };
    match insert_asn_row(
        &mut db.conn,
        id.as_str(),
        new.target_id.as_str(),
        new.asn.as_str(),
        &new.org,
        now.as_str(),
    ) {
        Ok(_) => Ok(Asn { id, target_id: new.target_id, asn: new.asn, org: new.org, created_at: now }),
        Err(e) => Err(RatariaError::Database(e)),
    }
}

/// The ASNs of target `target_id`, in text order.
pub fn list_asns(db: &Database, target_id: &str) -> (r: Result<Vec<Asn>, RatariaError>)
    ensures
        r matches Ok(v) ==> asns_listing(db.tables(), target_id@, v@),
        r matches Err(e) ==> e is Database,
{
    match select_asns(&db.conn, target_id) {
        Ok(v) => Ok(v),
        Err(e) => Err(RatariaError::Database(e)),
    }
}

// ─── urls ───────────────────────────────────────────────────────────────────

/// Whether record `u` is the URL row `row` stored under `id`, its kind read
/// back from the stored text.
pub open spec fn url_is_row(u: Url, id: Seq<char>, row: UrlRow) -> bool {
    &&& u.id@ == id
    &&& u.subdomain_id@ == row.0
    &&& u.url@ == row.1
    &&& u.url_type == url_type_from_text(row.2)
    &&& u.created_at@ == row.3
}

/// The record of a URL row returned by the store.
pub fn url_from_record(r: UrlRecord) -> (u: Url)
    ensures
        url_is_row(u, r.0@, url_record_row(r)),
{
    let kind = UrlType::from_str(r.3.as_str());
    Url { id: r.0, subdomain_id: r.1, url: r.2, url_type: kind, created_at: r.4 }
}

/// Records URL `new.url` of kind `new.url_type` on subdomain `new.subdomain_id`.
///
/// It fails, leaving the store as it was, when the subdomain already lists
/// that URL or does not exist, or when the store refuses the row.
pub fn create_url(db: &mut Database, new: NewUrl) -> (r: Result<Url, RatariaError>)
    requires
        old(db).wf(),
    ensures
        final(db).wf(),
        url_taken(old(db).tables(), new.subdomain_id@, new.url@)
            || !old(db).tables().subdomains.contains_key(new.subdomain_id@) ==> r is Err,
        r matches Ok(u) ==> {
            &&& u.subdomain_id@ == new.subdomain_id@
            &&& u.url@ == new.url@
            &&& u.url_type == new.url_type
            &&& u.id@.len() == 36
            &&& !old(db).tables().urls.contains_key(u.id@)
            &&& final(db).tables() == with_url(
                old(db).tables(),
                u.id@,
                (u.subdomain_id@, u.url@, url_type_text(u.url_type), u.created_at@),
            )
        },
        r matches Err(e) ==> (e is Database || e is IoError) && final(db).tables() == old(db).tables(),
{
    let (id, now) = match fresh_stamp() {
        Ok(p) => p,
        Err(e) => return Err(e),
    };
    match insert_url_row(
        &mut db.conn,
        id.as_str(),
        new.subdomain_id.as_str(),
        new.url.as_str(),
        new.url_type.as_str(),
        now.as_str(),
    ) {
        Ok(_) => Ok(
            Url {
                id,
                subdomain_id: new.subdomain_id,
                url: new.url,
                url_type: new.url_type,
                created_at: now,
            },
        ),
        Err(e) => Err(RatariaError::Database(e)),
    }
}

/// The URLs of subdomain `subdomain_id`, in text order.
pub fn list_urls(db: &Database, subdomain_id: &str) -> (r: Result<Vec<Url>, RatariaError>)
    ensures
        r matches Ok(v) ==> urls_listing(db.tables(), subdomain_id@, v@),
        r matches Err(e) ==> e is Database,
{
    match select_urls(&db.conn, subdomain_id) {
        Ok(rows) => {
            let mut rows = rows;
            let ghost all = rows@;
            let mut out: Vec<Url> = Vec::new();
            while rows.len() > 0
                invariant
                    rows@.len() + out@.len() == all.len(),
                    rows@ == all.skip(out@.len() as int),
                    forall|i: int|
                        0 <= i < out@.len() ==> url_is_row(
                            #[trigger] out@[i],
                            all[i].0@,
                            url_record_row(all[i]),
                        ),
                decreases rows@.len(),
            {
                let ghost k = out@.len() as int;
                assert(rows@[0] == all[k]);
                let r = rows.remove(0);
                assert(rows@ =~= all.skip(k + 1));
                out.push(url_from_record(r));
            }
            assert(out@.map_values(|u: Url| u.id@) =~= url_record_ids(all));
            assert(out@.map_values(|u: Url| u.url@) =~= all.map_values(|e: UrlRecord| e.2@));
            assert forall|i: int| 0 <= i < out@.len() implies #[trigger] out@[i].id@
                == url_record_ids(all)[i] by {}
            Ok(out)
        },
        Err(e) => Err(RatariaError::Database(e)),
    }
}

// ─── screenshots ────────────────────────────────────────────────────────────

/// Records screenshot file `new.file_path` for subdomain `new.subdomain_id`.
///
/// It fails, leaving the store as it was, when the subdomain does not exist
/// or when the store refuses the row.
pub fn create_screenshot(db: &mut Database, new: NewScreenshot) -> (r: Result<
    Screenshot,
    RatariaError,
>)
    requires
        old(db).wf(),
    ensures
        final(db).wf(),
        !old(db).tables().subdomains.contains_key(new.subdomain_id@) ==> r is Err,
        r matches Ok(t) ==> {
            &&& t.subdomain_id@ == new.subdomain_id@
            &&& t.file_path@ == new.file_path@
            &&& t.id@.len() == 36
            &&& !old(db).tables().screenshots.contains_key(t.id@)
            &&& final(db).tables() == with_screenshot(old(db).tables(), t.id@, screenshot_row(t))
        },
        r matches Err(e) ==> (e is Database || e is IoError) && final(db).tables() == old(db).tables(),
{
    let (id, now) = match fresh_stamp() {
        Ok(p) => p,
        Err(e) => return Err(e),
    };
    match insert_screenshot_row(
        &mut db.conn,
        id.as_str(),
        new.subdomain_id.as_str(),
        new.file_path.as_str(),
        now.as_str(),
    ) {
        Ok(_) => Ok(
            Screenshot {
                id,
                subdomain_id: new.subdomain_id,
                file_path: new.file_path,
                created_at: now,
            },
        ),
        Err(e) => Err(RatariaError::Database(e)),
    }
}

/// The screenshots of subdomain `subdomain_id`, oldest first.
pub fn list_screenshots_by_subdomain(db: &Database, subdomain_id: &str) -> (r: Result<
    Vec<Screenshot>,
    RatariaError,
>)
    ensures
        r matches Ok(v) ==> lists_exactly(
            screenshot_ids(v@),
            v@.map_values(|e: Screenshot| screenshot_row(e)),
            db.tables().screenshots,
            |k: Seq<char>, row: ShotRow| row.0 == subdomain_id@,
        ) && ascending(v@.map_values(|e: Screenshot| e.created_at@)),
        r matches Err(e) ==> e is Database,
{
    match select_screenshots(&db.conn, subdomain_id) {
        Ok(v) => Ok(v),
        Err(e) => Err(RatariaError::Database(e)),
    }
}

} // verus!

verus! {

// ─── edits ──────────────────────────────────────────────────────────────────

/// Renames target `id` to `update.domain`. It fails with `NotFound`,
/// changing nothing, when there is no such target.
pub fn update_target(db: &mut Database, id: &str, update: UpdateTarget) -> (r: Result<
    (),
    RatariaError,
>)
    requires
        old(db).wf(),
    ensures
        final(db).wf(),
        r is Ok ==> old(db).tables().targets.contains_key(id@) && final(db).tables() == with_target(
            old(db).tables(),
            id@,
            (old(db).tables().targets[id@].0, update.domain@, old(db).tables().targets[id@].2),
        ),
        r matches Err(RatariaError::NotFound(_)) ==> !old(db).tables().targets.contains_key(id@),
        r is Err ==> final(db).tables() == old(db).tables(),
        !old(db).tables().targets.contains_key(id@) ==> r is Err,
{
    match update_target_row(&mut db.conn, id, update.domain.as_str()) {
        Ok(0) => Err(RatariaError::NotFound("Target não encontrado".to_owned())),
        Ok(_) => Ok(()),
        Err(e) => Err(RatariaError::Database(e)),
    }
}

/// Replaces the address of IP `id`. It fails, changing nothing, with
/// `NotFound` when there is no such IP, and when another IP of its target
/// has that address.
pub fn update_ip(db: &mut Database, id: &str, update: UpdateIp) -> (r: Result<(), RatariaError>)
    requires
        old(db).wf(),
    ensures
        final(db).wf(),
        r is Ok ==> old(db).tables().ips.contains_key(id@) && final(db).tables() == with_ip(
            old(db).tables(),
            id@,
            (old(db).tables().ips[id@].0, update.ip@, old(db).tables().ips[id@].2),
        ),
        r matches Err(RatariaError::NotFound(_)) ==> !old(db).tables().ips.contains_key(id@),
        r is Err ==> final(db).tables() == old(db).tables(),
        !old(db).tables().ips.contains_key(id@) || ip_taken_by_other(old(db).tables(), id@, update.ip@)
            ==> r is Err,
{
    match update_ip_row(&mut db.conn, id, update.ip.as_str()) {
        Ok(0) => Err(RatariaError::NotFound("IP não encontrado".to_owned())),
        Ok(_) => Ok(()),
        Err(e) => Err(RatariaError::Database(e)),
    }
}

/// Replaces the number and organisation of ASN `id`. It fails, changing
/// nothing, with `NotFound` when there is no such ASN, and when another ASN
/// of its target has that number.
pub fn update_asn(db: &mut Database, id: &str, update: UpdateAsn) -> (r: Result<(), RatariaError>)
    requires
        old(db).wf(),
    ensures
        final(db).wf(),
        r is Ok ==> old(db).tables().asns.contains_key(id@) && final(db).tables() == with_asn(
            old(db).tables(),
            id@,
            (
                old(db).tables().asns[id@].0,
                update.asn@,
                opt_view(update.org),
                old(db).tables().asns[id@].3,
            ),
        ),
        r matches Err(RatariaError::NotFound(_)) ==> !old(db).tables().asns.contains_key(id@),
        r is Err ==> final(db).tables() == old(db).tables(),
        !old(db).tables().asns.contains_key(id@) || asn_taken_by_other(
            old(db).tables(),
            id@,
            update.asn@,
        ) ==> r is Err,
{
    match update_asn_row(&mut db.conn, id, update.asn.as_str(), &update.org) {
        Ok(0) => Err(RatariaError::NotFound("ASN não encontrado".to_owned())),
        Ok(_) => Ok(()),
        Err(e) => Err(RatariaError::Database(e)),
    }
}

/// Replaces the URL and kind of URL `id`. It fails, changing nothing, with
/// `NotFound` when there is no such URL, and when another URL of its
/// subdomain is the same URL.
pub fn update_url(db: &mut Database, id: &str, update: UpdateUrl) -> (r: Result<(), RatariaError>)
    requires
        old(db).wf(),
    ensures
        final(db).wf(),
        r is Ok ==> old(db).tables().urls.contains_key(id@) && final(db).tables() == with_url(
            old(db).tables(),
            id@,
            (
                old(db).tables().urls[id@].0,
                update.url@,
                url_type_text(update.url_type),
                old(db).tables().urls[id@].3,
            ),
        ),
        r matches Err(RatariaError::NotFound(_)) ==> !old(db).tables().urls.contains_key(id@),
        r is Err ==> final(db).tables() == old(db).tables(),
        !old(db).tables().urls.contains_key(id@) || url_taken_by_other(
            old(db).tables(),
            id@,
            update.url@,
        ) ==> r is Err,
{
    match update_url_row(&mut db.conn, id, update.url.as_str(), update.url_type.as_str()) {
        Ok(0) => Err(RatariaError::NotFound("URL não encontrada".to_owned())),
        Ok(_) => Ok(()),
        Err(e) => Err(RatariaError::Database(e)),
    }
}

/// Replaces the name and version of technology `id`. It fails with
/// `NotFound`, changing nothing, when there is no such technology.
pub fn update_technology(db: &mut Database, id: &str, update: UpdateTechnology) -> (r: Result<
    (),
    RatariaError,
>)
    requires
        old(db).wf(),
    ensures
        final(db).wf(),
        r is Ok ==> old(db).tables().technologies.contains_key(id@) && final(db).tables()
            == with_technology(
            old(db).tables(),
            id@,
            (
                old(db).tables().technologies[id@].0,
                update.name@,
                opt_view(update.version),
                old(db).tables().technologies[id@].3,
            ),
        ),
        r matches Err(RatariaError::NotFound(_)) ==> !old(db).tables().technologies.contains_key(
            id@,
        ),
        r is Err ==> final(db).tables() == old(db).tables(),
        !old(db).tables().technologies.contains_key(id@) ==> r is Err,
{
    match update_technology_row(&mut db.conn, id, update.name.as_str(), &update.version) {
        Ok(0) => Err(RatariaError::NotFound("Technology não encontrada".to_owned())),
        Ok(_) => Ok(()),
        Err(e) => Err(RatariaError::Database(e)),
    }
}

/// Deletes IP `id`. It fails with `NotFound`, changing nothing, when there is
/// no such IP.
pub fn delete_ip(db: &mut Database, id: &str) -> (r: Result<(), RatariaError>)
    requires
        old(db).wf(),
    ensures
        final(db).wf(),
        r is Ok ==> old(db).tables().ips.contains_key(id@) && final(db).tables() == (Store {
            ips: old(db).tables().ips.remove(id@),
            ..old(db).tables()
        }),
        r matches Err(RatariaError::NotFound(_)) ==> !old(db).tables().ips.contains_key(id@),
        r is Err ==> final(db).tables() == old(db).tables(),
        !old(db).tables().ips.contains_key(id@) ==> r is Err,
{
    match delete_ip_row(&mut db.conn, id) {
        Ok(0) => Err(RatariaError::NotFound("IP não encontrado".to_owned())),
        Ok(_) => Ok(()),
        Err(e) => Err(RatariaError::Database(e)),
    }
}

/// Deletes ASN `id`. It fails with `NotFound`, changing nothing, when there
/// is no such ASN.
pub fn delete_asn(db: &mut Database, id: &str) -> (r: Result<(), RatariaError>)
    requires
        old(db).wf(),
    ensures
        final(db).wf(),
        r is Ok ==> old(db).tables().asns.contains_key(id@) && final(db).tables() == (Store {
            asns: old(db).tables().asns.remove(id@),
            ..old(db).tables()
        }),
        r matches Err(RatariaError::NotFound(_)) ==> !old(db).tables().asns.contains_key(id@),
        r is Err ==> final(db).tables() == old(db).tables(),
        !old(db).tables().asns.contains_key(id@) ==> r is Err,
{
    match delete_asn_row(&mut db.conn, id) {
        Ok(0) => Err(RatariaError::NotFound("ASN não encontrado".to_owned())),
        Ok(_) => Ok(()),
        Err(e) => Err(RatariaError::Database(e)),
    }
}

/// Deletes URL `id`. It fails with `NotFound`, changing nothing, when there
/// is no such URL.
pub fn delete_url(db: &mut Database, id: &str) -> (r: Result<(), RatariaError>)
    requires
        old(db).wf(),
    ensures
        final(db).wf(),
        r is Ok ==> old(db).tables().urls.contains_key(id@) && final(db).tables() == (Store {
            urls: old(db).tables().urls.remove(id@),
            ..old(db).tables()
        }),
        r matches Err(RatariaError::NotFound(_)) ==> !old(db).tables().urls.contains_key(id@),
        r is Err ==> final(db).tables() == old(db).tables(),
        !old(db).tables().urls.contains_key(id@) ==> r is Err,
{
    match delete_url_row(&mut db.conn, id) {
        Ok(0) => Err(RatariaError::NotFound("URL não encontrada".to_owned())),
        Ok(_) => Ok(()),
        Err(e) => Err(RatariaError::Database(e)),
    }
}

/// Deletes screenshot `id`. It fails with `NotFound`, changing nothing, when
/// there is no such screenshot.
pub fn delete_screenshot(db: &mut Database, id: &str) -> (r: Result<(), RatariaError>)
    requires
        old(db).wf(),
    ensures
        final(db).wf(),
        r is Ok ==> old(db).tables().screenshots.contains_key(id@) && final(db).tables() == (Store {
            screenshots: old(db).tables().screenshots.remove(id@),
            ..old(db).tables()
        }),
        r matches Err(RatariaError::NotFound(_)) ==> !old(db).tables().screenshots.contains_key(
            id@,
        ),
        r is Err ==> final(db).tables() == old(db).tables(),
        !old(db).tables().screenshots.contains_key(id@) ==> r is Err,
{
    match delete_screenshot_row(&mut db.conn, id) {
        Ok(0) => Err(RatariaError::NotFound("Screenshot não encontrado".to_owned())),
        Ok(_) => Ok(()),
        Err(e) => Err(RatariaError::Database(e)),
    }
}

} // verus!
