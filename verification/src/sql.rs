//! The statements the tracker runs on its store. Each is one call of
//! `rusqlite`; its contract says what SQLite does to the tables with it:
//! a statement that fails changes nothing, a constraint that a statement
//! would break makes it fail, and foreign keys delete in cascade.

use vstd::prelude::*;
use crate::models::{Engagement, Target, Tag, Technology, Ip, Asn, Screenshot};
use crate::store::{
    Store, EngRow, TargetRow, SubRow, TagRow, TechRow, UrlRow, IpRow, AsnRow, ShotRow, SubRecord,
    UrlRecord, engagement_rows, target_rows, subdomain_rows, tag_rows, technology_rows, url_rows,
    ip_rows, asn_rows, screenshot_rows, foreign_keys_enforced, store_of, opt_view, lists_exactly,
    ascending, descending, engagement_row, target_row, tag_row, technology_row, ip_row, asn_row,
    screenshot_row, sub_record_row, url_record_row, engagement_name_taken, subdomain_name_taken,
    tag_name_taken, url_taken, ip_taken, asn_taken, ip_taken_by_other, asn_taken_by_other,
    url_taken_by_other,
};

verus! {

/// The store after writing one engagement row.
pub open spec fn with_engagement(s: Store, id: Seq<char>, row: EngRow) -> Store {
    Store { engagements: s.engagements.insert(id, row), ..s }
}

/// The store after writing one target row.
pub open spec fn with_target(s: Store, id: Seq<char>, row: TargetRow) -> Store {
    Store { targets: s.targets.insert(id, row), ..s }
}

/// The store after writing one subdomain row.
pub open spec fn with_subdomain(s: Store, id: Seq<char>, row: SubRow) -> Store {
    Store { subdomains: s.subdomains.insert(id, row), ..s }
}

/// The store after writing one tag row.
pub open spec fn with_tag(s: Store, id: Seq<char>, row: TagRow) -> Store {
    Store { tags: s.tags.insert(id, row), ..s }
}

/// The store after writing one technology row.
pub open spec fn with_technology(s: Store, id: Seq<char>, row: TechRow) -> Store {
    Store { technologies: s.technologies.insert(id, row), ..s }
}

/// The store after writing one URL row.
pub open spec fn with_url(s: Store, id: Seq<char>, row: UrlRow) -> Store {
    Store { urls: s.urls.insert(id, row), ..s }
}

/// The store after writing one IP row.
pub open spec fn with_ip(s: Store, id: Seq<char>, row: IpRow) -> Store {
    Store { ips: s.ips.insert(id, row), ..s }
}

/// The store after writing one ASN row.
pub open spec fn with_asn(s: Store, id: Seq<char>, row: AsnRow) -> Store {
    Store { asns: s.asns.insert(id, row), ..s }
}

/// The store after writing one screenshot row.
pub open spec fn with_screenshot(s: Store, id: Seq<char>, row: ShotRow) -> Store {
    Store { screenshots: s.screenshots.insert(id, row), ..s }
}

/// The ids of a list of engagements.
pub open spec fn engagement_ids(v: Seq<Engagement>) -> Seq<Seq<char>> {
    v.map_values(|e: Engagement| e.id@)
}

/// The ids of a list of targets.
pub open spec fn target_ids(v: Seq<Target>) -> Seq<Seq<char>> {
    v.map_values(|e: Target| e.id@)
}

/// The ids of a list of tags.
pub open spec fn tag_ids(v: Seq<Tag>) -> Seq<Seq<char>> {
    v.map_values(|e: Tag| e.id@)
}

/// The ids of a list of technologies.
pub open spec fn technology_ids(v: Seq<Technology>) -> Seq<Seq<char>> {
    v.map_values(|e: Technology| e.id@)
}

/// The ids of a list of IPs.
pub open spec fn ip_ids(v: Seq<Ip>) -> Seq<Seq<char>> {
    v.map_values(|e: Ip| e.id@)
}

/// The ids of a list of ASNs.
pub open spec fn asn_ids(v: Seq<Asn>) -> Seq<Seq<char>> {
    v.map_values(|e: Asn| e.id@)
}

/// The ids of a list of screenshots.
pub open spec fn screenshot_ids(v: Seq<Screenshot>) -> Seq<Seq<char>> {
    v.map_values(|e: Screenshot| e.id@)
}

/// The ids of a list of subdomain rows.
pub open spec fn sub_record_ids(v: Seq<SubRecord>) -> Seq<Seq<char>> {
    v.map_values(|e: SubRecord| e.0@)
}

/// The ids of a list of URL rows.
pub open spec fn url_record_ids(v: Seq<UrlRecord>) -> Seq<Seq<char>> {
    v.map_values(|e: UrlRecord| e.0@)
}

// ─── engagements ────────────────────────────────────────────────────────────

/// `Connection::execute` with `INSERT INTO engagements`. SQLite adds the row
/// unless its id or its name is taken (primary key, `UNIQUE`).
#[verifier::external_body]
pub(crate) fn insert_engagement_row(
    conn: &mut rusqlite::Connection,
    id: &str,
    name: &str,
    description: &Option<String>,
    now: &str,
) -> (r: Result<usize, rusqlite::Error>)
    requires
        foreign_keys_enforced(*old(conn)),
    ensures
        foreign_keys_enforced(*final(conn)),
        engagement_rows(*old(conn)).contains_key(id@) || engagement_name_taken(
            store_of(*old(conn)),
            name@,
            id@,
        ) ==> r is Err,
        r matches Ok(n) ==> n == 1 && store_of(*final(conn)) == with_engagement(
            store_of(*old(conn)),
            id@,
            (name@, opt_view(*description), now@, now@),
        ),
        r is Err ==> store_of(*final(conn)) == store_of(*old(conn)),
{
    conn.execute(
        "INSERT INTO engagements (id, name, description, created_at, updated_at)
         VALUES (?1, ?2, ?3, ?4, ?5)",
        (id, name, description, now, now),
    )
}

/// `prepare` and `query_map` with `SELECT ... FROM engagements ORDER BY
/// created_at DESC`: every engagement once, newest first.
#[verifier::external_body]
pub(crate) fn select_engagements(conn: &rusqlite::Connection) -> (r: Result<Vec<Engagement>, rusqlite::Error>)
    ensures
        r matches Ok(v) ==> lists_exactly(
            engagement_ids(v@),
            v@.map_values(|e: Engagement| engagement_row(e)),
            engagement_rows(*conn),
            |k: Seq<char>, row: EngRow| true,
        ) && descending(v@.map_values(|e: Engagement| e.created_at@)),
{
    let mut stmt = conn.prepare(
        "SELECT id, name, description, created_at, updated_at
         FROM engagements ORDER BY created_at DESC",
    )?;
    let rows = stmt.query_map((), |row| {
        Ok(Engagement { id: row.get(0)?, name: row.get(1)?, description: row.get(2)?,
            created_at: row.get(3)?, updated_at: row.get(4)? })
    })?;
    rows.collect()
}

/// `prepare` and `query_map` with `SELECT ... FROM engagements WHERE id = ?1`.
#[verifier::external_body]
pub(crate) fn select_engagement(conn: &rusqlite::Connection, id: &str) -> (r: Result<Vec<Engagement>, rusqlite::Error>)
    ensures
        r matches Ok(v) ==> lists_exactly(
            engagement_ids(v@),
            v@.map_values(|e: Engagement| engagement_row(e)),
            engagement_rows(*conn),
            |k: Seq<char>, row: EngRow| k == id@,
        ),
{
    let mut stmt = conn.prepare(
        "SELECT id, name, description, created_at, updated_at
         FROM engagements WHERE id = ?1",
    )?;
    let rows = stmt.query_map((id,), |row| {
        Ok(Engagement { id: row.get(0)?, name: row.get(1)?, description: row.get(2)?,
            created_at: row.get(3)?, updated_at: row.get(4)? })
    })?;
    rows.collect()
}

/// `Connection::execute` with `UPDATE engagements SET name, description,
/// updated_at WHERE id = ?4`: it changes the row of `id`, if there is one,
/// unless another engagement has the new name; it returns how many rows changed.
#[verifier::external_body]
pub(crate) fn update_engagement_row(
    conn: &mut rusqlite::Connection,
    id: &str,
    name: &str,
    description: Option<&str>,
    now: &str,
) -> (r: Result<usize, rusqlite::Error>)
    requires
        foreign_keys_enforced(*old(conn)),
    ensures
        foreign_keys_enforced(*final(conn)),
        engagement_rows(*old(conn)).contains_key(id@) && engagement_name_taken(
            store_of(*old(conn)),
            name@,
            id@,
        ) ==> r is Err,
        r matches Ok(n) ==> if engagement_rows(*old(conn)).contains_key(id@) {
            n == 1 && store_of(*final(conn)) == with_engagement(
                store_of(*old(conn)),
                id@,
                (
                    name@,
                    match description {
                        Some(d) => Some(d@),
                        None => None,
                    },
                    engagement_rows(*old(conn))[id@].2,
                    now@,
                ),
            )
        } else {
            n == 0 && store_of(*final(conn)) == store_of(*old(conn))
        },
        r is Err ==> store_of(*final(conn)) == store_of(*old(conn)),
{
    conn.execute(
        "UPDATE engagements SET name = ?1, description = ?2, updated_at = ?3 WHERE id = ?4",
        (name, description, now, id),
    )
}

/// `Connection::execute` with `DELETE FROM engagements WHERE id = ?1`: the
/// engagement goes, and with foreign keys on, everything under it.
#[verifier::external_body]
pub(crate) fn delete_engagement_row(conn: &mut rusqlite::Connection, id: &str) -> (r: Result<
    usize,
    rusqlite::Error,
>)
    requires
        foreign_keys_enforced(*old(conn)),
    ensures
        foreign_keys_enforced(*final(conn)),
        r matches Ok(n) ==> if engagement_rows(*old(conn)).contains_key(id@) {
            n == 1 && store_of(*final(conn)) == store_of(*old(conn)).delete_engagement(id@)
        } else {
            n == 0 && store_of(*final(conn)) == store_of(*old(conn))
        },
        r is Err ==> store_of(*final(conn)) == store_of(*old(conn)),
{
    conn.execute("DELETE FROM engagements WHERE id = ?1", (id,))
}

// ─── targets ────────────────────────────────────────────────────────────────

/// `Connection::execute` with `INSERT INTO targets`. SQLite adds the row
/// unless its id is taken or its engagement does not exist (foreign key).
#[verifier::external_body]
pub(crate) fn insert_target_row(
    conn: &mut rusqlite::Connection,
    id: &str,
    engagement_id: &str,
    domain: &str,
    now: &str,
) -> (r: Result<usize, rusqlite::Error>)
    requires
        foreign_keys_enforced(*old(conn)),
    ensures
        foreign_keys_enforced(*final(conn)),
        target_rows(*old(conn)).contains_key(id@) || !engagement_rows(*old(conn)).contains_key(
            engagement_id@,
        ) ==> r is Err,
        r matches Ok(n) ==> n == 1 && store_of(*final(conn)) == with_target(
            store_of(*old(conn)),
            id@,
            (engagement_id@, domain@, now@),
        ),
        r is Err ==> store_of(*final(conn)) == store_of(*old(conn)),
{
    conn.execute(
        "INSERT INTO targets (id, engagement_id, domain, created_at)
         VALUES (?1, ?2, ?3, ?4)",
        (id, engagement_id, domain, now),
    )
}

/// `prepare` and `query_map` with `SELECT ... FROM targets WHERE
/// engagement_id = ?1 ORDER BY created_at ASC`.
#[verifier::external_body]
pub(crate) fn select_targets(conn: &rusqlite::Connection, engagement_id: &str) -> (r: Result<
    Vec<Target>,
    rusqlite::Error,
>)
    ensures
        r matches Ok(v) ==> lists_exactly(
            target_ids(v@),
            v@.map_values(|e: Target| target_row(e)),
            target_rows(*conn),
            |k: Seq<char>, row: TargetRow| row.0 == engagement_id@,
        ) && ascending(v@.map_values(|e: Target| e.created_at@)),
{
    let mut stmt = conn.prepare(
        "SELECT id, engagement_id, domain, created_at
         FROM targets WHERE engagement_id = ?1 ORDER BY created_at ASC",
    )?;
    let rows = stmt.query_map((engagement_id,), |row| {
        Ok(Target { id: row.get(0)?, engagement_id: row.get(1)?, domain: row.get(2)?,
            created_at: row.get(3)? })
    })?;
    rows.collect()
}

/// `prepare` and `query_map` with `SELECT ... FROM targets WHERE id = ?1`.
#[verifier::external_body]
pub(crate) fn select_target(conn: &rusqlite::Connection, id: &str) -> (r: Result<Vec<Target>, rusqlite::Error>)
    ensures
        r matches Ok(v) ==> lists_exactly(
            target_ids(v@),
            v@.map_values(|e: Target| target_row(e)),
            target_rows(*conn),
            |k: Seq<char>, row: TargetRow| k == id@,
        ),
{
    let mut stmt = conn.prepare(
        "SELECT id, engagement_id, domain, created_at
         FROM targets WHERE id = ?1",
    )?;
    let rows = stmt.query_map((id,), |row| {
        Ok(Target { id: row.get(0)?, engagement_id: row.get(1)?, domain: row.get(2)?,
            created_at: row.get(3)? })
    })?;
    rows.collect()
}

/// `Connection::execute` with `DELETE FROM targets WHERE id = ?1`: the target
/// goes, and with foreign keys on, everything under it.
#[verifier::external_body]
pub(crate) fn delete_target_row(conn: &mut rusqlite::Connection, id: &str) -> (r: Result<
    usize,
    rusqlite::Error,
>)
    requires
        foreign_keys_enforced(*old(conn)),
    ensures
        foreign_keys_enforced(*final(conn)),
        r matches Ok(n) ==> if target_rows(*old(conn)).contains_key(id@) {
            n == 1 && store_of(*final(conn)) == store_of(*old(conn)).delete_target(id@)
        } else {
            n == 0 && store_of(*final(conn)) == store_of(*old(conn))
        },
        r is Err ==> store_of(*final(conn)) == store_of(*old(conn)),
{
    conn.execute("DELETE FROM targets WHERE id = ?1", (id,))
}

} // verus!

verus! {

// ─── subdomains ─────────────────────────────────────────────────────────────

/// `Connection::execute` with `INSERT INTO subdomains` (notes empty). SQLite
/// adds the row unless its id is taken, the target already has a subdomain of
/// that name (`UNIQUE(target_id, subdomain)`), or the target does not exist.
#[verifier::external_body]
pub(crate) fn insert_subdomain_row(
    conn: &mut rusqlite::Connection,
    id: &str,
    target_id: &str,
    subdomain: &str,
    status: &str,
    status_code: Option<i32>,
    title: &Option<String>,
    now: &str,
) -> (r: Result<usize, rusqlite::Error>)
    requires
        foreign_keys_enforced(*old(conn)),
    ensures
        foreign_keys_enforced(*final(conn)),
        subdomain_rows(*old(conn)).contains_key(id@) || subdomain_name_taken(
            store_of(*old(conn)),
            target_id@,
            subdomain@,
        ) || !target_rows(*old(conn)).contains_key(target_id@) ==> r is Err,
        r matches Ok(n) ==> n == 1 && store_of(*final(conn)) == with_subdomain(
            store_of(*old(conn)),
            id@,
            (target_id@, subdomain@, status@, None, status_code, opt_view(*title), now@, now@),
        ),
        r is Err ==> store_of(*final(conn)) == store_of(*old(conn)),
{
    conn.execute(
        "INSERT INTO subdomains (id, target_id, subdomain, status, notes, status_code, title, created_at, updated_at)
         VALUES (?1, ?2, ?3, ?4, NULL, ?5, ?6, ?7, ?8)",
        (id, target_id, subdomain, status, status_code, title, now, now),
    )
}

/// `prepare` and `query_map` with `SELECT ... FROM subdomains WHERE
/// target_id = ?1 ORDER BY subdomain ASC`.
#[verifier::external_body]
pub(crate) fn select_subdomains(conn: &rusqlite::Connection, target_id: &str) -> (r: Result<
    Vec<SubRecord>,
    rusqlite::Error,
>)
    ensures
        r matches Ok(v) ==> lists_exactly(
            sub_record_ids(v@),
            v@.map_values(|e: SubRecord| sub_record_row(e)),
            subdomain_rows(*conn),
            |k: Seq<char>, row: SubRow| row.0 == target_id@,
        ) && ascending(v@.map_values(|e: SubRecord| e.2@)),
{
    let mut stmt = conn.prepare(
        "SELECT id, target_id, subdomain, status, notes, status_code, title, created_at, updated_at
         FROM subdomains WHERE target_id = ?1 ORDER BY subdomain ASC",
    )?;
    let rows = stmt.query_map((target_id,), |row| {
        Ok((row.get(0)?, row.get(1)?, row.get(2)?, row.get(3)?, row.get(4)?, row.get(5)?,
            row.get(6)?, row.get(7)?, row.get(8)?))
    })?;
    rows.collect()
}

/// `prepare` and `query_map` with `SELECT ... FROM subdomains WHERE
/// target_id = ?1 AND status = ?2 ORDER BY subdomain ASC`.
#[verifier::external_body]
pub(crate) fn select_subdomains_with_status(
    conn: &rusqlite::Connection,
    target_id: &str,
    status: &str,
) -> (r: Result<Vec<SubRecord>, rusqlite::Error>)
    ensures
        r matches Ok(v) ==> lists_exactly(
            sub_record_ids(v@),
            v@.map_values(|e: SubRecord| sub_record_row(e)),
            subdomain_rows(*conn),
            |k: Seq<char>, row: SubRow| row.0 == target_id@ && row.2 == status@,
        ) && ascending(v@.map_values(|e: SubRecord| e.2@)),
{
    let mut stmt = conn.prepare(
        "SELECT id, target_id, subdomain, status, notes, status_code, title, created_at, updated_at
         FROM subdomains WHERE target_id = ?1 AND status = ?2 ORDER BY subdomain ASC",
    )?;
    let rows = stmt.query_map((target_id, status), |row| {
        Ok((row.get(0)?, row.get(1)?, row.get(2)?, row.get(3)?, row.get(4)?, row.get(5)?,
            row.get(6)?, row.get(7)?, row.get(8)?))
    })?;
    rows.collect()
}

/// `prepare` and `query_map` with `SELECT ... FROM subdomains WHERE id = ?1`.
#[verifier::external_body]
pub(crate) fn select_subdomain(conn: &rusqlite::Connection, id: &str) -> (r: Result<
    Vec<SubRecord>,
    rusqlite::Error,
>)
    ensures
        r matches Ok(v) ==> lists_exactly(
            sub_record_ids(v@),
            v@.map_values(|e: SubRecord| sub_record_row(e)),
            subdomain_rows(*conn),
            |k: Seq<char>, row: SubRow| k == id@,
        ),
{
    let mut stmt = conn.prepare(
        "SELECT id, target_id, subdomain, status, notes, status_code, title, created_at, updated_at
         FROM subdomains WHERE id = ?1",
    )?;
    let rows = stmt.query_map((id,), |row| {
        Ok((row.get(0)?, row.get(1)?, row.get(2)?, row.get(3)?, row.get(4)?, row.get(5)?,
            row.get(6)?, row.get(7)?, row.get(8)?))
    })?;
    rows.collect()
}

/// `Connection::execute` with `UPDATE subdomains SET status, notes,
/// status_code, title, updated_at WHERE id = ?6`; it returns how many rows changed.
#[verifier::external_body]
pub(crate) fn update_subdomain_row(
    conn: &mut rusqlite::Connection,
    id: &str,
    status: &str,
    notes: &Option<String>,
    status_code: Option<i32>,
    title: &Option<String>,
    now: &str,
) -> (r: Result<usize, rusqlite::Error>)
    requires
        foreign_keys_enforced(*old(conn)),
    ensures
        foreign_keys_enforced(*final(conn)),
        r matches Ok(n) ==> if subdomain_rows(*old(conn)).contains_key(id@) {
            let row = subdomain_rows(*old(conn))[id@];
            n == 1 && store_of(*final(conn)) == with_subdomain(
                store_of(*old(conn)),
                id@,
                (row.0, row.1, status@, opt_view(*notes), status_code, opt_view(*title), row.6, now@),
            )
        } else {
            n == 0 && store_of(*final(conn)) == store_of(*old(conn))
        },
        r is Err ==> store_of(*final(conn)) == store_of(*old(conn)),
{
    conn.execute(
        "UPDATE subdomains SET status = ?1, notes = ?2, status_code = ?3, title = ?4, updated_at = ?5
         WHERE id = ?6",
        (status, notes, status_code, title, now, id),
    )
}

/// `Connection::execute` with `DELETE FROM subdomains WHERE id = ?1`: the
/// subdomain goes, and with foreign keys on, everything under it.
#[verifier::external_body]
pub(crate) fn delete_subdomain_row(conn: &mut rusqlite::Connection, id: &str) -> (r: Result<
    usize,
    rusqlite::Error,
>)
    requires
        foreign_keys_enforced(*old(conn)),
    ensures
        foreign_keys_enforced(*final(conn)),
        r matches Ok(n) ==> if subdomain_rows(*old(conn)).contains_key(id@) {
            n == 1 && store_of(*final(conn)) == store_of(*old(conn)).delete_subdomain(id@)
        } else {
            n == 0 && store_of(*final(conn)) == store_of(*old(conn))
        },
        r is Err ==> store_of(*final(conn)) == store_of(*old(conn)),
{
    conn.execute("DELETE FROM subdomains WHERE id = ?1", (id,))
}

// ─── tags ───────────────────────────────────────────────────────────────────

/// `Connection::execute` with `INSERT INTO tags`. SQLite adds the row unless
/// its id is taken, the subdomain already has a tag of that name
/// (`UNIQUE(subdomain_id, name)`), or the subdomain does not exist.
#[verifier::external_body]
pub(crate) fn insert_tag_row(
    conn: &mut rusqlite::Connection,
    id: &str,
    subdomain_id: &str,
    name: &str,
    now: &str,
) -> (r: Result<usize, rusqlite::Error>)
    requires
        foreign_keys_enforced(*old(conn)),
    ensures
        foreign_keys_enforced(*final(conn)),
        tag_rows(*old(conn)).contains_key(id@) || tag_name_taken(
            store_of(*old(conn)),
            subdomain_id@,
            name@,
        ) || !subdomain_rows(*old(conn)).contains_key(subdomain_id@) ==> r is Err,
        r matches Ok(n) ==> n == 1 && store_of(*final(conn)) == with_tag(
            store_of(*old(conn)),
            id@,
            (subdomain_id@, name@, now@),
        ),
        r is Err ==> store_of(*final(conn)) == store_of(*old(conn)),
{
    conn.execute(
        "INSERT INTO tags (id, subdomain_id, name, created_at)
         VALUES (?1, ?2, ?3, ?4)",
        (id, subdomain_id, name, now),
    )
}

/// `prepare` and `query_map` with `SELECT ... FROM tags WHERE subdomain_id =
/// ?1 ORDER BY name ASC`.
#[verifier::external_body]
pub(crate) fn select_tags(conn: &rusqlite::Connection, subdomain_id: &str) -> (r: Result<
    Vec<Tag>,
    rusqlite::Error,
>)
    ensures
        r matches Ok(v) ==> lists_exactly(
            tag_ids(v@),
            v@.map_values(|e: Tag| tag_row(e)),
            tag_rows(*conn),
            |k: Seq<char>, row: TagRow| row.0 == subdomain_id@,
        ) && ascending(v@.map_values(|e: Tag| e.name@)),
{
    let mut stmt = conn.prepare(
        "SELECT id, subdomain_id, name, created_at
         FROM tags WHERE subdomain_id = ?1 ORDER BY name ASC",
    )?;
    let rows = stmt.query_map((subdomain_id,), |row| {
        Ok(Tag { id: row.get(0)?, subdomain_id: row.get(1)?, name: row.get(2)?,
            created_at: row.get(3)? })
    })?;
    rows.collect()
}

/// `Connection::execute` with `DELETE FROM tags WHERE id = ?1`.
#[verifier::external_body]
pub(crate) fn delete_tag_row(conn: &mut rusqlite::Connection, id: &str) -> (r: Result<
    usize,
    rusqlite::Error,
>)
    requires
        foreign_keys_enforced(*old(conn)),
    ensures
        foreign_keys_enforced(*final(conn)),
        r matches Ok(n) ==> (n == 0 <==> !tag_rows(*old(conn)).contains_key(id@))
            && store_of(*final(conn)) == (Store {
            tags: tag_rows(*old(conn)).remove(id@),
            ..store_of(*old(conn))
        }),
        r is Err ==> store_of(*final(conn)) == store_of(*old(conn)),
{
    conn.execute("DELETE FROM tags WHERE id = ?1", (id,))
}

/// `Connection::execute` with `DELETE FROM tags WHERE subdomain_id = ?1 AND
/// name = ?2`: it removes the tags of that subdomain with that name.
#[verifier::external_body]
pub(crate) fn delete_tag_rows_named(conn: &mut rusqlite::Connection, subdomain_id: &str, name: &str) -> (r:
    Result<usize, rusqlite::Error>)
    requires
        foreign_keys_enforced(*old(conn)),
    ensures
        foreign_keys_enforced(*final(conn)),
        r matches Ok(n) ==> (n == 0 <==> !tag_name_taken(
            store_of(*old(conn)),
            subdomain_id@,
            name@,
        )) && store_of(*final(conn)) == (Store {
            tags: tag_rows(*old(conn)).filter_keys(
                |k: Seq<char>|
                    !(tag_rows(*old(conn))[k].0 == subdomain_id@ && tag_rows(*old(conn))[k].1
                        == name@),
            ),
            ..store_of(*old(conn))
        }),
        r is Err ==> store_of(*final(conn)) == store_of(*old(conn)),
{
    conn.execute("DELETE FROM tags WHERE subdomain_id = ?1 AND name = ?2", (subdomain_id, name))
}

// ─── technologies ───────────────────────────────────────────────────────────

/// `Connection::execute` with `INSERT INTO technologies`. SQLite adds the row
/// unless its id is taken or the subdomain does not exist.
#[verifier::external_body]
pub(crate) fn insert_technology_row(
    conn: &mut rusqlite::Connection,
    id: &str,
    subdomain_id: &str,
    name: &str,
    version: &Option<String>,
    now: &str,
) -> (r: Result<usize, rusqlite::Error>)
    requires
        foreign_keys_enforced(*old(conn)),
    ensures
        foreign_keys_enforced(*final(conn)),
        technology_rows(*old(conn)).contains_key(id@) || !subdomain_rows(*old(conn)).contains_key(
            subdomain_id@,
        ) ==> r is Err,
        r matches Ok(n) ==> n == 1 && store_of(*final(conn)) == with_technology(
            store_of(*old(conn)),
            id@,
            (subdomain_id@, name@, opt_view(*version), now@),
        ),
        r is Err ==> store_of(*final(conn)) == store_of(*old(conn)),
{
    conn.execute(
        "INSERT INTO technologies (id, subdomain_id, name, version, created_at)
         VALUES (?1, ?2, ?3, ?4, ?5)",
        (id, subdomain_id, name, version, now),
    )
}

/// `prepare` and `query_map` with `SELECT ... FROM technologies WHERE
/// subdomain_id = ?1 ORDER BY name ASC`.
#[verifier::external_body]
pub(crate) fn select_technologies(conn: &rusqlite::Connection, subdomain_id: &str) -> (r: Result<
    Vec<Technology>,
    rusqlite::Error,
>)
    ensures
        r matches Ok(v) ==> lists_exactly(
            technology_ids(v@),
            v@.map_values(|e: Technology| technology_row(e)),
            technology_rows(*conn),
            |k: Seq<char>, row: TechRow| row.0 == subdomain_id@,
        ) && ascending(v@.map_values(|e: Technology| e.name@)),
{
    let mut stmt = conn.prepare(
        "SELECT id, subdomain_id, name, version, created_at
         FROM technologies WHERE subdomain_id = ?1 ORDER BY name ASC",
    )?;
    let rows = stmt.query_map((subdomain_id,), |row| {
        Ok(Technology { id: row.get(0)?, subdomain_id: row.get(1)?, name: row.get(2)?,
            version: row.get(3)?, created_at: row.get(4)? })
    })?;
    rows.collect()
}

/// `Connection::execute` with `DELETE FROM technologies WHERE id = ?1`.
#[verifier::external_body]
pub(crate) fn delete_technology_row(conn: &mut rusqlite::Connection, id: &str) -> (r: Result<
    usize,
    rusqlite::Error,
>)
    requires
        foreign_keys_enforced(*old(conn)),
    ensures
        foreign_keys_enforced(*final(conn)),
        r matches Ok(n) ==> (n == 0 <==> !technology_rows(*old(conn)).contains_key(id@))
            && store_of(*final(conn)) == (Store {
            technologies: technology_rows(*old(conn)).remove(id@),
            ..store_of(*old(conn))
        }),
        r is Err ==> store_of(*final(conn)) == store_of(*old(conn)),
{
    conn.execute("DELETE FROM technologies WHERE id = ?1", (id,))
}

// ─── urls ───────────────────────────────────────────────────────────────────

/// `Connection::execute` with `INSERT INTO urls`. SQLite adds the row unless
/// its id is taken, the subdomain already lists that URL
/// (`UNIQUE(subdomain_id, url)`), or the subdomain does not exist.
#[verifier::external_body]
pub(crate) fn insert_url_row(
    conn: &mut rusqlite::Connection,
    id: &str,
    subdomain_id: &str,
    url: &str,
    url_type: &str,
    now: &str,
) -> (r: Result<usize, rusqlite::Error>)
    requires
        foreign_keys_enforced(*old(conn)),
    ensures
        foreign_keys_enforced(*final(conn)),
        url_rows(*old(conn)).contains_key(id@) || url_taken(
            store_of(*old(conn)),
            subdomain_id@,
            url@,
        ) || !subdomain_rows(*old(conn)).contains_key(subdomain_id@) ==> r is Err,
        r matches Ok(n) ==> n == 1 && store_of(*final(conn)) == with_url(
            store_of(*old(conn)),
            id@,
            (subdomain_id@, url@, url_type@, now@),
        ),
        r is Err ==> store_of(*final(conn)) == store_of(*old(conn)),
{
    conn.execute(
        "INSERT INTO urls (id, subdomain_id, url, url_type, created_at)
         VALUES (?1, ?2, ?3, ?4, ?5)",
        (id, subdomain_id, url, url_type, now),
    )
}

/// `prepare` and `query_map` with `SELECT ... FROM urls WHERE subdomain_id =
/// ?1 ORDER BY url ASC`.
#[verifier::external_body]
pub(crate) fn select_urls(conn: &rusqlite::Connection, subdomain_id: &str) -> (r: Result<
    Vec<UrlRecord>,
    rusqlite::Error,
>)
    ensures
        r matches Ok(v) ==> lists_exactly(
            url_record_ids(v@),
            v@.map_values(|e: UrlRecord| url_record_row(e)),
            url_rows(*conn),
            |k: Seq<char>, row: UrlRow| row.0 == subdomain_id@,
        ) && ascending(v@.map_values(|e: UrlRecord| e.2@)),
{
    let mut stmt = conn.prepare(
        "SELECT id, subdomain_id, url, url_type, created_at
         FROM urls WHERE subdomain_id = ?1 ORDER BY url ASC",
    )?;
    let rows = stmt.query_map((subdomain_id,), |row| {
        Ok((row.get(0)?, row.get(1)?, row.get(2)?, row.get(3)?, row.get(4)?))
    })?;
    rows.collect()
}

// ─── ips ────────────────────────────────────────────────────────────────────

/// `Connection::execute` with `INSERT INTO ips`. SQLite adds the row unless
/// its id is taken, the target already lists that IP (`UNIQUE(target_id,
/// ip)`), or the target does not exist.
#[verifier::external_body]
pub(crate) fn insert_ip_row(
    conn: &mut rusqlite::Connection,
    id: &str,
    target_id: &str,
    ip: &str,
    now: &str,
) -> (r: Result<usize, rusqlite::Error>)
    requires
        foreign_keys_enforced(*old(conn)),
    ensures
        foreign_keys_enforced(*final(conn)),
        ip_rows(*old(conn)).contains_key(id@) || ip_taken(store_of(*old(conn)), target_id@, ip@)
            || !target_rows(*old(conn)).contains_key(target_id@) ==> r is Err,
        r matches Ok(n) ==> n == 1 && store_of(*final(conn)) == with_ip(
            store_of(*old(conn)),
            id@,
            (target_id@, ip@, now@),
        ),
        r is Err ==> store_of(*final(conn)) == store_of(*old(conn)),
{
    conn.execute(
        "INSERT INTO ips (id, target_id, ip, created_at) VALUES (?1, ?2, ?3, ?4)",
        (id, target_id, ip, now),
    )
}

/// `prepare` and `query_map` with `SELECT ... FROM ips WHERE target_id = ?1
/// ORDER BY ip ASC`.
#[verifier::external_body]
pub(crate) fn select_ips(conn: &rusqlite::Connection, target_id: &str) -> (r: Result<
    Vec<Ip>,
    rusqlite::Error,
>)
    ensures
        r matches Ok(v) ==> lists_exactly(
            ip_ids(v@),
            v@.map_values(|e: Ip| ip_row(e)),
            ip_rows(*conn),
            |k: Seq<char>, row: IpRow| row.0 == target_id@,
        ) && ascending(v@.map_values(|e: Ip| e.ip@)),
{
    let mut stmt = conn.prepare(
        "SELECT id, target_id, ip, created_at FROM ips WHERE target_id = ?1 ORDER BY ip ASC",
    )?;
    let rows = stmt.query_map((target_id,), |row| {
        Ok(Ip { id: row.get(0)?, target_id: row.get(1)?, ip: row.get(2)?, created_at: row.get(3)? })
    })?;
    rows.collect()
}

// ─── asns ───────────────────────────────────────────────────────────────────

/// `Connection::execute` with `INSERT INTO asns`. SQLite adds the row unless
/// its id is taken, the target already lists that ASN (`UNIQUE(target_id,
/// asn)`), or the target does not exist.
#[verifier::external_body]
pub(crate) fn insert_asn_row(
    conn: &mut rusqlite::Connection,
    id: &str,
    target_id: &str,
    asn: &str,
    org: &Option<String>,
    now: &str,
) -> (r: Result<usize, rusqlite::Error>)
    requires
        foreign_keys_enforced(*old(conn)),
    ensures
        foreign_keys_enforced(*final(conn)),
        asn_rows(*old(conn)).contains_key(id@) || asn_taken(store_of(*old(conn)), target_id@, asn@)
            || !target_rows(*old(conn)).contains_key(target_id@) ==> r is Err,
        r matches Ok(n) ==> n == 1 && store_of(*final(conn)) == with_asn(
            store_of(*old(conn)),
            id@,
            (target_id@, asn@, opt_view(*org), now@),
        ),
        r is Err ==> store_of(*final(conn)) == store_of(*old(conn)),
{
    conn.execute(
        "INSERT INTO asns (id, target_id, asn, org, created_at) VALUES (?1, ?2, ?3, ?4, ?5)",
        (id, target_id, asn, org, now),
    )
}

/// `prepare` and `query_map` with `SELECT ... FROM asns WHERE target_id = ?1
/// ORDER BY asn ASC`.
#[verifier::external_body]
pub(crate) fn select_asns(conn: &rusqlite::Connection, target_id: &str) -> (r: Result<
    Vec<Asn>,
    rusqlite::Error,
>)
    ensures
        r matches Ok(v) ==> lists_exactly(
            asn_ids(v@),
            v@.map_values(|e: Asn| asn_row(e)),
            asn_rows(*conn),
            |k: Seq<char>, row: AsnRow| row.0 == target_id@,
        ) && ascending(v@.map_values(|e: Asn| e.asn@)),
{
    let mut stmt = conn.prepare(
        "SELECT id, target_id, asn, org, created_at FROM asns WHERE target_id = ?1 ORDER BY asn ASC",
    )?;
    let rows = stmt.query_map((target_id,), |row| {
        Ok(Asn { id: row.get(0)?, target_id: row.get(1)?, asn: row.get(2)?, org: row.get(3)?,
            created_at: row.get(4)? })
    })?;
    rows.collect()
}

// ─── screenshots ────────────────────────────────────────────────────────────

/// `Connection::execute` with `INSERT INTO screenshots`. SQLite adds the row
/// unless its id is taken or the subdomain does not exist.
#[verifier::external_body]
pub(crate) fn insert_screenshot_row(
    conn: &mut rusqlite::Connection,
    id: &str,
    subdomain_id: &str,
    file_path: &str,
    now: &str,
) -> (r: Result<usize, rusqlite::Error>)
    requires
        foreign_keys_enforced(*old(conn)),
    ensures
        foreign_keys_enforced(*final(conn)),
        screenshot_rows(*old(conn)).contains_key(id@) || !subdomain_rows(*old(conn)).contains_key(
            subdomain_id@,
        ) ==> r is Err,
        r matches Ok(n) ==> n == 1 && store_of(*final(conn)) == with_screenshot(
            store_of(*old(conn)),
            id@,
            (subdomain_id@, file_path@, now@),
        ),
        r is Err ==> store_of(*final(conn)) == store_of(*old(conn)),
{
    conn.execute(
        "INSERT INTO screenshots (id, subdomain_id, file_path, created_at) VALUES (?1, ?2, ?3, ?4)",
        (id, subdomain_id, file_path, now),
    )
}

/// `prepare` and `query_map` with `SELECT ... FROM screenshots WHERE
/// subdomain_id = ?1 ORDER BY created_at ASC`.
#[verifier::external_body]
pub(crate) fn select_screenshots(conn: &rusqlite::Connection, subdomain_id: &str) -> (r: Result<
    Vec<Screenshot>,
    rusqlite::Error,
>)
    ensures
        r matches Ok(v) ==> lists_exactly(
            screenshot_ids(v@),
            v@.map_values(|e: Screenshot| screenshot_row(e)),
            screenshot_rows(*conn),
            |k: Seq<char>, row: ShotRow| row.0 == subdomain_id@,
        ) && ascending(v@.map_values(|e: Screenshot| e.created_at@)),
{
    let mut stmt = conn.prepare(
        "SELECT id, subdomain_id, file_path, created_at
         FROM screenshots WHERE subdomain_id = ?1 ORDER BY created_at ASC",
    )?;
    let rows = stmt.query_map((subdomain_id,), |row| {
        Ok(Screenshot { id: row.get(0)?, subdomain_id: row.get(1)?, file_path: row.get(2)?,
            created_at: row.get(3)? })
    })?;
    rows.collect()
}

// ─── edits of single rows ───────────────────────────────────────────────────

/// `Connection::execute` with `UPDATE targets SET domain = ?1 WHERE id = ?2`;
/// it returns how many rows changed.
#[verifier::external_body]
pub(crate) fn update_target_row(conn: &mut rusqlite::Connection, id: &str, domain: &str) -> (r: Result<
    usize,
    rusqlite::Error,
>)
    requires
        foreign_keys_enforced(*old(conn)),
    ensures
        foreign_keys_enforced(*final(conn)),
        r matches Ok(n) ==> if target_rows(*old(conn)).contains_key(id@) {
            let row = target_rows(*old(conn))[id@];
            n == 1 && store_of(*final(conn)) == with_target(
                store_of(*old(conn)),
                id@,
                (row.0, domain@, row.2),
            )
        } else {
            n == 0 && store_of(*final(conn)) == store_of(*old(conn))
        },
        r is Err ==> store_of(*final(conn)) == store_of(*old(conn)),
{
    conn.execute("UPDATE targets SET domain = ?1 WHERE id = ?2", (domain, id))
}

/// `Connection::execute` with `UPDATE ips SET ip = ?1 WHERE id = ?2`. It
/// fails when another IP of the same target holds that value
/// (`UNIQUE(target_id, ip)`).
#[verifier::external_body]
pub(crate) fn update_ip_row(conn: &mut rusqlite::Connection, id: &str, ip: &str) -> (r: Result<
    usize,
    rusqlite::Error,
>)
    requires
        foreign_keys_enforced(*old(conn)),
    ensures
        foreign_keys_enforced(*final(conn)),
        ip_rows(*old(conn)).contains_key(id@) && ip_taken_by_other(store_of(*old(conn)), id@, ip@)
            ==> r is Err,
        r matches Ok(n) ==> if ip_rows(*old(conn)).contains_key(id@) {
            let row = ip_rows(*old(conn))[id@];
            n == 1 && store_of(*final(conn)) == with_ip(store_of(*old(conn)), id@, (row.0, ip@, row.2))
        } else {
            n == 0 && store_of(*final(conn)) == store_of(*old(conn))
        },
        r is Err ==> store_of(*final(conn)) == store_of(*old(conn)),
{
    conn.execute("UPDATE ips SET ip = ?1 WHERE id = ?2", (ip, id))
}

/// `Connection::execute` with `UPDATE asns SET asn = ?1, org = ?2 WHERE id =
/// ?3`. It fails when another ASN of the same target holds that number
/// (`UNIQUE(target_id, asn)`).
#[verifier::external_body]
pub(crate) fn update_asn_row(
    conn: &mut rusqlite::Connection,
    id: &str,
    asn: &str,
    org: &Option<String>,
) -> (r: Result<usize, rusqlite::Error>)
    requires
        foreign_keys_enforced(*old(conn)),
    ensures
        foreign_keys_enforced(*final(conn)),
        asn_rows(*old(conn)).contains_key(id@) && asn_taken_by_other(
            store_of(*old(conn)),
            id@,
            asn@,
        ) ==> r is Err,
        r matches Ok(n) ==> if asn_rows(*old(conn)).contains_key(id@) {
            let row = asn_rows(*old(conn))[id@];
            n == 1 && store_of(*final(conn)) == with_asn(
                store_of(*old(conn)),
                id@,
                (row.0, asn@, opt_view(*org), row.3),
            )
        } else {
            n == 0 && store_of(*final(conn)) == store_of(*old(conn))
        },
        r is Err ==> store_of(*final(conn)) == store_of(*old(conn)),
{
    conn.execute("UPDATE asns SET asn = ?1, org = ?2 WHERE id = ?3", (asn, org, id))
}

/// `Connection::execute` with `UPDATE urls SET url = ?1, url_type = ?2 WHERE
/// id = ?3`. It fails when another URL of the same subdomain holds that URL
/// (`UNIQUE(subdomain_id, url)`).
#[verifier::external_body]
pub(crate) fn update_url_row(
    conn: &mut rusqlite::Connection,
    id: &str,
    url: &str,
    url_type: &str,
) -> (r: Result<usize, rusqlite::Error>)
    requires
        foreign_keys_enforced(*old(conn)),
    ensures
        foreign_keys_enforced(*final(conn)),
        url_rows(*old(conn)).contains_key(id@) && url_taken_by_other(
            store_of(*old(conn)),
            id@,
            url@,
        ) ==> r is Err,
        r matches Ok(n) ==> if url_rows(*old(conn)).contains_key(id@) {
            let row = url_rows(*old(conn))[id@];
            n == 1 && store_of(*final(conn)) == with_url(
                store_of(*old(conn)),
                id@,
                (row.0, url@, url_type@, row.3),
            )
        } else {
            n == 0 && store_of(*final(conn)) == store_of(*old(conn))
        },
        r is Err ==> store_of(*final(conn)) == store_of(*old(conn)),
{
    conn.execute("UPDATE urls SET url = ?1, url_type = ?2 WHERE id = ?3", (url, url_type, id))
}

/// `Connection::execute` with `UPDATE technologies SET name = ?1, version =
/// ?2 WHERE id = ?3`.
#[verifier::external_body]
pub(crate) fn update_technology_row(
    conn: &mut rusqlite::Connection,
    id: &str,
    name: &str,
    version: &Option<String>,
) -> (r: Result<usize, rusqlite::Error>)
    requires
        foreign_keys_enforced(*old(conn)),
    ensures
        foreign_keys_enforced(*final(conn)),
        r matches Ok(n) ==> if technology_rows(*old(conn)).contains_key(id@) {
            let row = technology_rows(*old(conn))[id@];
            n == 1 && store_of(*final(conn)) == with_technology(
                store_of(*old(conn)),
                id@,
                (row.0, name@, opt_view(*version), row.3),
            )
        } else {
            n == 0 && store_of(*final(conn)) == store_of(*old(conn))
        },
        r is Err ==> store_of(*final(conn)) == store_of(*old(conn)),
{
    conn.execute("UPDATE technologies SET name = ?1, version = ?2 WHERE id = ?3", (name, version, id))
}

/// `Connection::execute` with `DELETE FROM ips WHERE id = ?1`.
#[verifier::external_body]
pub(crate) fn delete_ip_row(conn: &mut rusqlite::Connection, id: &str) -> (r: Result<usize, rusqlite::Error>)
    requires
        foreign_keys_enforced(*old(conn)),
    ensures
        foreign_keys_enforced(*final(conn)),
        r matches Ok(n) ==> (n == 0 <==> !ip_rows(*old(conn)).contains_key(id@))
            && store_of(*final(conn)) == (Store { ips: ip_rows(*old(conn)).remove(id@), ..store_of(*old(conn)) }),
        r is Err ==> store_of(*final(conn)) == store_of(*old(conn)),
{
    conn.execute("DELETE FROM ips WHERE id = ?1", (id,))
}

/// `Connection::execute` with `DELETE FROM asns WHERE id = ?1`.
#[verifier::external_body]
pub(crate) fn delete_asn_row(conn: &mut rusqlite::Connection, id: &str) -> (r: Result<usize, rusqlite::Error>)
    requires
        foreign_keys_enforced(*old(conn)),
    ensures
        foreign_keys_enforced(*final(conn)),
        r matches Ok(n) ==> (n == 0 <==> !asn_rows(*old(conn)).contains_key(id@))
            && store_of(*final(conn)) == (Store { asns: asn_rows(*old(conn)).remove(id@), ..store_of(*old(conn)) }),
        r is Err ==> store_of(*final(conn)) == store_of(*old(conn)),
{
    conn.execute("DELETE FROM asns WHERE id = ?1", (id,))
}

/// `Connection::execute` with `DELETE FROM urls WHERE id = ?1`.
#[verifier::external_body]
pub(crate) fn delete_url_row(conn: &mut rusqlite::Connection, id: &str) -> (r: Result<usize, rusqlite::Error>)
    requires
        foreign_keys_enforced(*old(conn)),
    ensures
        foreign_keys_enforced(*final(conn)),
        r matches Ok(n) ==> (n == 0 <==> !url_rows(*old(conn)).contains_key(id@))
            && store_of(*final(conn)) == (Store { urls: url_rows(*old(conn)).remove(id@), ..store_of(*old(conn)) }),
        r is Err ==> store_of(*final(conn)) == store_of(*old(conn)),
{
    conn.execute("DELETE FROM urls WHERE id = ?1", (id,))
}

/// `Connection::execute` with `DELETE FROM screenshots WHERE id = ?1`.
#[verifier::external_body]
pub(crate) fn delete_screenshot_row(conn: &mut rusqlite::Connection, id: &str) -> (r: Result<
    usize,
    rusqlite::Error,
>)
    requires
        foreign_keys_enforced(*old(conn)),
    ensures
        foreign_keys_enforced(*final(conn)),
        r matches Ok(n) ==> (n == 0 <==> !screenshot_rows(*old(conn)).contains_key(id@))
            && store_of(*final(conn)) == (Store {
            screenshots: screenshot_rows(*old(conn)).remove(id@),
            ..store_of(*old(conn))
        }),
        r is Err ==> store_of(*final(conn)) == store_of(*old(conn)),
{
    conn.execute("DELETE FROM screenshots WHERE id = ?1", (id,))
}

} // verus!
