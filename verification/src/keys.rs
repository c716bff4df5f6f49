//! The keys the interface reacts to, and what the screens share in handling
//! them: typing into a text field, reloading a list from the store (an empty
//! list when the store fails), and keeping a cursor on a shorter list.

use vstd::prelude::*;
use crate::app::App;
use crate::db::Database;
use crate::error::RatariaError;
use crate::models::{Asn, Engagement, Ip, Screenshot, Subdomain, Target, Technology, Url};
use crate::queries::{
    asns_listing, ips_listing, list_asns, list_engagements, list_ips, list_screenshots_by_subdomain,
    list_subdomains, list_targets, list_technologies, list_urls, subdomains_listing,
    targets_listing, technologies_listing, urls_listing,
};
use crate::sql::{engagement_ids, screenshot_ids};
use crate::store::{
    EngRow, ShotRow, Store, ascending, descending, engagement_row, lists_exactly, screenshot_row,
};
use crate::text::{chars_of, push_char, push_text, string_of_range, trim_spec, trim_text};

verus! {

/// A key the interface reacts to.
#[derive(Clone, Copy, Debug, PartialEq, Eq, Structural)]
pub enum Key {
    Char(char),
    Enter,
    Esc,
    Backspace,
    Tab,
    Up,
    Down,
    /// Any other key.
    Other,
}

/// Whether `k` moves a cursor down (`↓` or `j`).
pub open spec fn is_down(k: Key) -> bool {
    k == Key::Down || k == Key::Char('j')
}

/// Whether `k` moves a cursor up (`↑` or `k`).
pub open spec fn is_up(k: Key) -> bool {
    k == Key::Up || k == Key::Char('k')
}

/// The text of a field after key `k` is typed into it: a character is
/// appended, Backspace drops the last one, any other key leaves it.
pub open spec fn typed(s: Seq<char>, k: Key) -> Seq<char> {
    match k {
        Key::Char(c) => s.push(c),
        Key::Backspace => if s.len() > 0 {
            s.drop_last()
        } else {
            s
        },
        _ => s,
    }
}

/// Types key `k` into the text field `s`.
pub fn type_key(s: &mut String, k: Key)
    ensures
        final(s)@ == typed(old(s)@, k),
{
    match k {
        Key::Char(c) => push_char(s, c),
        Key::Backspace => {
            let v = chars_of(s.as_str());
            if v.len() > 0 {
                *s = string_of_range(&v, 0, v.len() - 1);
                assert(s@ =~= old(s)@.drop_last());
            }
        },
        _ => {},
    }
}

/// `s` without surrounding white space, when anything is left.
pub open spec fn trimmed_or_none(s: Seq<char>) -> Option<Seq<char>> {
    if trim_spec(s).len() == 0 {
        None
    } else {
        Some(trim_spec(s))
    }
}

/// The text of an optional field: `s` without surrounding white space, or
/// nothing when that is blank.
pub fn optional_text(s: &str) -> (r: Option<String>)
    ensures
        crate::store::opt_view(r) == trimmed_or_none(s@),
{
    let t = trim_text(s);
    if t.as_str().is_empty() {
        None
    } else {
        Some(t)
    }
}

/// `"✗ "` and the message of error `e`.
pub fn failure_text(e: &RatariaError) -> (r: String)
    ensures
        "✗ "@.is_prefix_of(r@),
        crate::error::message_spec(*e) matches Some(m) ==> r@ == "✗ "@ + m,
{
    let mut r = "✗ ".to_owned();
    let m = e.message();
    push_text(&mut r, m.as_str());
    assert(r@.subrange(0, "✗ "@.len() as int) =~= "✗ "@);
    r
}

/// A cursor kept on a list of `len` entries: on the last entry when it was
/// past the end of a list that is not empty.
pub open spec fn clamped(sel: int, len: int) -> int {
    if sel >= len && len > 0 {
        len - 1
    } else {
        sel
    }
}

/// Keeps cursor `sel` on a list of `len` entries.
pub fn clamp(sel: usize, len: usize) -> (r: usize)
    ensures
        r == clamped(sel as int, len as int),
{
    if sel >= len && len > 0 {
        len - 1
    } else {
        sel
    }
}

/// The store of the interface's open session.
pub open spec fn app_tables(a: App) -> Store {
    a.db->0.tables()
}

/// Whether the store of `a`, when there is one, enforces its foreign keys.
pub open spec fn store_ready(a: App) -> bool {
    a.db matches Some(d) ==> d.wf()
}

/// Whether `f` keeps the session of `o`: a store exactly when `o` had one,
/// and a ready one.
pub open spec fn keeps_session(o: App, f: App) -> bool {
    &&& store_ready(f)
    &&& (o.db is Some <==> f.db is Some)
}

/// Whether the interface has a session open on a store that enforces its
/// foreign keys.
pub open spec fn session_open(a: App) -> bool {
    a.db matches Some(d) && d.wf()
}

/// Whether `v` is the listing of every engagement, newest first.
pub open spec fn engagements_listing(t: Store, v: Seq<Engagement>) -> bool {
    &&& lists_exactly(
        engagement_ids(v),
        v.map_values(|e: Engagement| engagement_row(e)),
        t.engagements,
        |k: Seq<char>, row: EngRow| true,
    )
    &&& descending(v.map_values(|e: Engagement| e.created_at@))
}

/// Whether `v` is the listing of the screenshots of subdomain
/// `subdomain_id`, oldest first.
pub open spec fn screenshots_listing(t: Store, subdomain_id: Seq<char>, v: Seq<Screenshot>) -> bool {
    &&& lists_exactly(
        screenshot_ids(v),
        v.map_values(|e: Screenshot| screenshot_row(e)),
        t.screenshots,
        |k: Seq<char>, row: ShotRow| row.0 == subdomain_id,
    )
    &&& ascending(v.map_values(|e: Screenshot| e.created_at@))
}

/// Every engagement, newest first; nothing when the store fails.
pub fn engagements_or_empty(db: &Database) -> (v: Vec<Engagement>)
    ensures
        v@.len() == 0 || engagements_listing(db.tables(), v@),
{
    match list_engagements(db) {
        Ok(v) => v,
        Err(_) => Vec::new(),
    }
}

/// The targets of engagement `id`; nothing when the store fails.
pub fn targets_or_empty(db: &Database, id: &str) -> (v: Vec<Target>)
    ensures
        v@.len() == 0 || targets_listing(db.tables(), id@, v@),
{
    match list_targets(db, id) {
        Ok(v) => v,
        Err(_) => Vec::new(),
    }
}

/// The subdomains of target `id`; nothing when the store fails.
pub fn subdomains_or_empty(db: &Database, id: &str) -> (v: Vec<Subdomain>)
    ensures
        v@.len() == 0 || subdomains_listing(db.tables(), id@, v@),
{
    match list_subdomains(db, id) {
        Ok(v) => v,
        Err(_) => Vec::new(),
    }
}

/// The IPs of target `id`; nothing when the store fails.
pub fn ips_or_empty(db: &Database, id: &str) -> (v: Vec<Ip>)
    ensures
        v@.len() == 0 || ips_listing(db.tables(), id@, v@),
{
    match list_ips(db, id) {
        Ok(v) => v,
        Err(_) => Vec::new(),
    }
}

/// The ASNs of target `id`; nothing when the store fails.
pub fn asns_or_empty(db: &Database, id: &str) -> (v: Vec<Asn>)
    ensures
        v@.len() == 0 || asns_listing(db.tables(), id@, v@),
{
    match list_asns(db, id) {
        Ok(v) => v,
        Err(_) => Vec::new(),
    }
}

/// The URLs of subdomain `id`; nothing when the store fails.
pub fn urls_or_empty(db: &Database, id: &str) -> (v: Vec<Url>)
    ensures
        v@.len() == 0 || urls_listing(db.tables(), id@, v@),
{
    match list_urls(db, id) {
        Ok(v) => v,
        Err(_) => Vec::new(),
    }
}

/// The technologies of subdomain `id`; nothing when the store fails.
pub fn technologies_or_empty(db: &Database, id: &str) -> (v: Vec<Technology>)
    ensures
        v@.len() == 0 || technologies_listing(db.tables(), id@, v@),
{
    match list_technologies(db, id) {
        Ok(v) => v,
        Err(_) => Vec::new(),
    }
}

/// The screenshots of subdomain `id`; nothing when the store fails.
pub fn screenshots_or_empty(db: &Database, id: &str) -> (v: Vec<Screenshot>)
    ensures
        v@.len() == 0 || screenshots_listing(db.tables(), id@, v@),
{
    match list_screenshots_by_subdomain(db, id) {
        Ok(v) => v,
        Err(_) => Vec::new(),
    }
}

} // verus!
