//! Bringing recon results into the store: the engagement and target are
//! found by name or created, then every IP, ASN, subdomain, technology and
//! URL is added unless the store already holds it, and counted either way.

use vstd::prelude::*;
use crate::db::Database;
use crate::error::RatariaError;
use crate::models::{
    url_type_text,
    Engagement, NewAsn, NewEngagement, NewIp, NewSubdomain, NewTarget, NewTechnology, NewUrl,
    Asn, Ip, Subdomain, Target, Technology, Url, UrlType,
};
use crate::queries::{
    create_asn, create_engagement, create_ip, create_subdomain, create_target, create_technology,
    create_url, list_engagements, list_subdomains, list_targets, lists_subdomains,
    subdomains_listing,
};
use crate::report::ImportReport;
use crate::sql::{engagement_ids, target_ids};
use crate::store::{
    EngRow, Store, SubRow, TargetRow, asn_taken, engagement_named, engagement_row, ip_taken,
    lists_exactly, opt_view, subdomain_name_taken, target_row,
};
use crate::text::same_text;

verus! {

/// A subdomain to import, with what was found on it.
#[derive(Debug, Clone)]
pub struct ImportSubdomain {
    pub subdomain: String,
    pub status_code: Option<i32>,
    pub title: Option<String>,
    pub technologies: Vec<(String, Option<String>)>,
    pub urls: Vec<(String, UrlType)>,
}

/// The sum of a sequence of counts.
pub open spec fn count_sum(s: Seq<int>) -> int
    decreases s.len(),
{
    if s.len() == 0 {
        0
    } else {
        count_sum(s.drop_last()) + s.last()
    }
}

/// How many technologies each subdomain carries.
pub open spec fn tech_counts(s: Seq<ImportSubdomain>) -> Seq<int> {
    s.map_values(|x: ImportSubdomain| x.technologies@.len() as int)
}

/// How many URLs each subdomain carries.
pub open spec fn url_counts(s: Seq<ImportSubdomain>) -> Seq<int> {
    s.map_values(|x: ImportSubdomain| x.urls@.len() as int)
}

/// How many technologies each subdomain carries whose name store `s`
/// already holds under target `t`; none for the others.
pub open spec fn taken_tech_counts(s: Store, t: Seq<char>, subs: Seq<ImportSubdomain>) -> Seq<int> {
    subs.map_values(
        |x: ImportSubdomain|
            if subdomain_name_taken(s, t, x.subdomain@) {
                x.technologies@.len() as int
            } else {
                0
            },
    )
}

/// How many URLs each subdomain carries whose name store `s` already holds
/// under target `t`; none for the others.
pub open spec fn taken_url_counts(s: Store, t: Seq<char>, subs: Seq<ImportSubdomain>) -> Seq<int> {
    subs.map_values(
        |x: ImportSubdomain|
            if subdomain_name_taken(s, t, x.subdomain@) {
                x.urls@.len() as int
            } else {
                0
            },
    )
}

/// The names of the subdomains to import.
pub open spec fn import_names(s: Seq<ImportSubdomain>) -> Seq<Seq<char>> {
    s.map_values(|x: ImportSubdomain| x.subdomain@)
}

/// Whether target `t` of store `s` is named `domain` and belongs to an
/// engagement named `eng_name`.
pub open spec fn target_of(s: Store, t: Seq<char>, eng_name: Seq<char>, domain: Seq<char>) -> bool {
    &&& s.targets.contains_key(t)
    &&& s.targets[t].1 == domain
    &&& s.engagements.contains_key(s.targets[t].0)
    &&& s.engagements[s.targets[t].0].0 == eng_name
}

/// Whether every IP of `ips` is already listed under target `t`.
pub open spec fn all_ips_present(s: Store, t: Seq<char>, ips: Seq<Seq<char>>) -> bool {
    forall|i: int| 0 <= i < ips.len() ==> ip_taken(s, t, #[trigger] ips[i])
}

/// Whether every ASN of `asns` is already listed under target `t`.
pub open spec fn all_asns_present(s: Store, t: Seq<char>, asns: Seq<Seq<char>>) -> bool {
    forall|i: int| 0 <= i < asns.len() ==> asn_taken(s, t, #[trigger] asns[i])
}

/// Whether every subdomain name of `names` is already listed under target `t`.
pub open spec fn all_subdomains_present(s: Store, t: Seq<char>, names: Seq<Seq<char>>) -> bool {
    forall|i: int| 0 <= i < names.len() ==> subdomain_name_taken(s, t, #[trigger] names[i])
}

/// The texts of a list of strings.
pub open spec fn texts(v: Seq<String>) -> Seq<Seq<char>> {
    v.map_values(|x: String| x@)
}

/// The names of a list of ASN pairs.
pub open spec fn asn_names(v: Seq<(String, Option<String>)>) -> Seq<Seq<char>> {
    v.map_values(|x: (String, Option<String>)| x.0@)
}

/// Whether store `b` still holds every IP, ASN and subdomain name that store
/// `a` lists under target `t`.
pub open spec fn keeps_listed(a: Store, b: Store, t: Seq<char>) -> bool {
    &&& forall|x: Seq<char>| ip_taken(a, t, x) ==> #[trigger] ip_taken(b, t, x)
    &&& forall|x: Seq<char>| asn_taken(a, t, x) ==> #[trigger] asn_taken(b, t, x)
    &&& forall|x: Seq<char>| subdomain_name_taken(a, t, x) ==> #[trigger] subdomain_name_taken(b, t, x)
}

/// The first engagement of `v` named `name`, if any.
fn find_engagement(v: &Vec<Engagement>, name: &str) -> (r: Option<usize>)
    ensures
        match r {
            Some(i) => i < v@.len() && v@[i as int].name@ == name@,
            None => forall|j: int| 0 <= j < v@.len() ==> v@[j].name@ != name@,
        },
{
    let mut i: usize = 0;
    while i < v.len()
        invariant
            i <= v@.len(),
            forall|j: int| 0 <= j < i ==> v@[j].name@ != name@,
        decreases v.len() - i,
    {
        if same_text(v[i].name.as_str(), name) {
            return Some(i);
        }
        i = i + 1;
    }
    None
}

/// The first target of `v` named `domain`, if any.
fn find_target(v: &Vec<Target>, domain: &str) -> (r: Option<usize>)
    ensures
        match r {
            Some(i) => i < v@.len() && v@[i as int].domain@ == domain@,
            None => forall|j: int| 0 <= j < v@.len() ==> v@[j].domain@ != domain@,
        },
{
    let mut i: usize = 0;
    while i < v.len()
        invariant
            i <= v@.len(),
            forall|j: int| 0 <= j < i ==> v@[j].domain@ != domain@,
        decreases v.len() - i,
    {
        if same_text(v[i].domain.as_str(), domain) {
            return Some(i);
        }
        i = i + 1;
    }
    None
}

/// The first subdomain of `v` named `name`, if any.
fn find_subdomain(v: &Vec<Subdomain>, name: &str) -> (r: Option<usize>)
    ensures
        match r {
            Some(i) => i < v@.len() && v@[i as int].subdomain@ == name@,
            None => forall|j: int| 0 <= j < v@.len() ==> v@[j].subdomain@ != name@,
        },
{
    let mut i: usize = 0;
    while i < v.len()
        invariant
            i <= v@.len(),
            forall|j: int| 0 <= j < i ==> v@[j].subdomain@ != name@,
        decreases v.len() - i,
    {
        if same_text(v[i].subdomain.as_str(), name) {
            return Some(i);
        }
        i = i + 1;
    }
    None
}

/// The id of the engagement named `name`, created when there is none.
/// Nothing is created when one exists.
fn resolve_engagement(db: &mut Database, name: &str) -> (r: Result<String, RatariaError>)
    requires
        old(db).wf(),
    ensures
        final(db).wf(),
        r matches Ok(e) ==> final(db).tables().engagements.contains_key(e@)
            && final(db).tables().engagements[e@].0 == name@,
        r is Ok && engagement_named(old(db).tables(), name@)
            ==> final(db).tables() == old(db).tables(),
        r matches Ok(e) ==> final(db).tables() == old(db).tables() || (final(db).tables()
            == crate::sql::with_engagement(old(db).tables(), e@, final(db).tables().engagements[e@])
            && !old(db).tables().engagements.contains_key(e@)
            && final(db).tables().engagements[e@].1 is None),
        r matches Err(e) ==> e is Database || e is IoError,
{
    let all = match list_engagements(db) {
        Ok(v) => v,
        Err(e) => return Err(e),
    };
    match find_engagement(&all, name) {
        Some(i) => {
            assert(engagement_ids(all@)[i as int] == all@[i as int].id@);
            Ok(all[i].id.clone())
        },
        None => {
            assert(!engagement_named(db.tables(), name@)) by {
                if engagement_named(db.tables(), name@) {
                    let k = choose|k: Seq<char>| #[trigger]
                        db.tables().engagements.contains_key(k) && db.tables().engagements[k].0
                            == name@;
                    assert(engagement_ids(all@).contains(k));
                    let j = choose|j: int| 0 <= j < all@.len() && engagement_ids(all@)[j] == k;
                    assert(all@.map_values(|e: Engagement| engagement_row(e))[j] == engagement_row(
                        all@[j],
                    ));
                }
            }
            match create_engagement(
                db,
                NewEngagement { name: name.to_owned(), description: None },
            ) {
                Ok(e) => Ok(e.id),
                Err(e) => Err(e),
            }
        },
    }
}

} // verus!

verus! {

/// Inserting an IP row under a fresh id keeps every IP already listed.
proof fn lemma_ip_insert_keeps(s: Store, id: Seq<char>, row: crate::store::IpRow, t: Seq<char>)
    requires
        !s.ips.contains_key(id),
    ensures
        keeps_listed(s, crate::sql::with_ip(s, id, row), t),
{
    let s2 = crate::sql::with_ip(s, id, row);
    assert forall|x: Seq<char>| ip_taken(s, t, x) implies #[trigger] ip_taken(s2, t, x) by {
        let k = choose|k: Seq<char>| #[trigger] s.ips.contains_key(k) && s.ips[k].0 == t && s.ips[k].1 == x;
        assert(s2.ips.contains_key(k) && s2.ips[k] == s.ips[k]);
    }
    assert forall|x: Seq<char>| asn_taken(s, t, x) implies #[trigger] asn_taken(s2, t, x) by {
        let k = choose|k: Seq<char>| #[trigger] s.asns.contains_key(k) && s.asns[k].0 == t && s.asns[k].1 == x;
        assert(s2.asns.contains_key(k));
    }
    assert forall|x: Seq<char>| subdomain_name_taken(s, t, x) implies #[trigger] subdomain_name_taken(s2, t, x) by {
        let k = choose|k: Seq<char>| #[trigger] s.subdomains.contains_key(k) && s.subdomains[k].0 == t && s.subdomains[k].1 == x;
        assert(s2.subdomains.contains_key(k));
    }
}

/// Inserting an ASN row under a fresh id keeps every ASN already listed.
proof fn lemma_asn_insert_keeps(s: Store, id: Seq<char>, row: crate::store::AsnRow, t: Seq<char>)
    requires
        !s.asns.contains_key(id),
    ensures
        keeps_listed(s, crate::sql::with_asn(s, id, row), t),
{
    let s2 = crate::sql::with_asn(s, id, row);
    assert forall|x: Seq<char>| ip_taken(s, t, x) implies #[trigger] ip_taken(s2, t, x) by {
        let k = choose|k: Seq<char>| #[trigger] s.ips.contains_key(k) && s.ips[k].0 == t && s.ips[k].1 == x;
        assert(s2.ips.contains_key(k));
    }
    assert forall|x: Seq<char>| asn_taken(s, t, x) implies #[trigger] asn_taken(s2, t, x) by {
        let k = choose|k: Seq<char>| #[trigger] s.asns.contains_key(k) && s.asns[k].0 == t && s.asns[k].1 == x;
        assert(s2.asns.contains_key(k) && s2.asns[k] == s.asns[k]);
    }
    assert forall|x: Seq<char>| subdomain_name_taken(s, t, x) implies #[trigger] subdomain_name_taken(s2, t, x) by {
        let k = choose|k: Seq<char>| #[trigger] s.subdomains.contains_key(k) && s.subdomains[k].0 == t && s.subdomains[k].1 == x;
        assert(s2.subdomains.contains_key(k));
    }
}

/// Inserting a subdomain row under a fresh id keeps every subdomain already listed.
proof fn lemma_subdomain_insert_keeps(s: Store, id: Seq<char>, row: SubRow, t: Seq<char>)
    requires
        !s.subdomains.contains_key(id),
    ensures
        keeps_listed(s, crate::sql::with_subdomain(s, id, row), t),
{
    let s2 = crate::sql::with_subdomain(s, id, row);
    assert forall|x: Seq<char>| ip_taken(s, t, x) implies #[trigger] ip_taken(s2, t, x) by {
        let k = choose|k: Seq<char>| #[trigger] s.ips.contains_key(k) && s.ips[k].0 == t && s.ips[k].1 == x;
        assert(s2.ips.contains_key(k));
    }
    assert forall|x: Seq<char>| asn_taken(s, t, x) implies #[trigger] asn_taken(s2, t, x) by {
        let k = choose|k: Seq<char>| #[trigger] s.asns.contains_key(k) && s.asns[k].0 == t && s.asns[k].1 == x;
        assert(s2.asns.contains_key(k));
    }
    assert forall|x: Seq<char>| subdomain_name_taken(s, t, x) implies #[trigger] subdomain_name_taken(s2, t, x) by {
        let k = choose|k: Seq<char>| #[trigger] s.subdomains.contains_key(k) && s.subdomains[k].0 == t && s.subdomains[k].1 == x;
        assert(s2.subdomains.contains_key(k) && s2.subdomains[k] == s.subdomains[k]);
    }
}

/// Keeping what is listed is transitive.
proof fn lemma_keeps_trans(a: Store, b: Store, c: Store, t: Seq<char>)
    requires
        keeps_listed(a, b, t),
        keeps_listed(b, c, t),
    ensures
        keeps_listed(a, c, t),
{
    assert forall|x: Seq<char>| ip_taken(a, t, x) implies #[trigger] ip_taken(c, t, x) by {
        assert(ip_taken(b, t, x));
    }
    assert forall|x: Seq<char>| asn_taken(a, t, x) implies #[trigger] asn_taken(c, t, x) by {
        assert(asn_taken(b, t, x));
    }
    assert forall|x: Seq<char>| subdomain_name_taken(a, t, x) implies #[trigger] subdomain_name_taken(c, t, x) by {
        assert(subdomain_name_taken(b, t, x));
    }
}

/// The id of the target named `domain` under engagement `eng_id`, created
/// when there is none. Only the target table may change, by a new row.
fn resolve_target(db: &mut Database, eng_id: &str, domain: &str) -> (r: Result<String, RatariaError>)
    requires
        old(db).wf(),
        old(db).tables().engagements.contains_key(eng_id@),
    ensures
        final(db).wf(),
        r matches Ok(t) ==> {
            &&& final(db).tables().targets.contains_key(t@)
            &&& final(db).tables().targets[t@].0 == eng_id@
            &&& final(db).tables().targets[t@].1 == domain@
            &&& final(db).tables() == old(db).tables() || (final(db).tables()
                == crate::sql::with_target(old(db).tables(), t@, final(db).tables().targets[t@])
                && !old(db).tables().targets.contains_key(t@))
        },
        r is Ok && (exists|k: Seq<char>| #[trigger] old(db).tables().targets.contains_key(k)
            && old(db).tables().targets[k].0 == eng_id@ && old(db).tables().targets[k].1 == domain@)
            ==> final(db).tables() == old(db).tables(),
        r matches Err(e) ==> e is Database || e is IoError,
{
    let all = match list_targets(db, eng_id) {
        Ok(v) => v,
        Err(e) => return Err(e),
    };
    match find_target(&all, domain) {
        Some(i) => {
            assert(target_ids(all@)[i as int] == all@[i as int].id@);
            assert(all@.map_values(|e: Target| target_row(e))[i as int] == target_row(all@[i as int]));
            Ok(all[i].id.clone())
        },
        None => {
            assert(!(exists|k: Seq<char>| #[trigger] db.tables().targets.contains_key(k)
                && db.tables().targets[k].0 == eng_id@ && db.tables().targets[k].1 == domain@)) by {
                if exists|k: Seq<char>| #[trigger] db.tables().targets.contains_key(k)
                    && db.tables().targets[k].0 == eng_id@ && db.tables().targets[k].1 == domain@ {
                    let k = choose|k: Seq<char>| #[trigger] db.tables().targets.contains_key(k)
                        && db.tables().targets[k].0 == eng_id@ && db.tables().targets[k].1 == domain@;
                    assert(target_ids(all@).contains(k));
                    let j = choose|j: int| 0 <= j < all@.len() && target_ids(all@)[j] == k;
                    assert(all@.map_values(|e: Target| target_row(e))[j] == target_row(all@[j]));
                }
            }
            match create_target(
                db,
                NewTarget { engagement_id: eng_id.to_owned(), domain: domain.to_owned() },
            ) {
                Ok(t) => Ok(t.id),
                Err(e) => Err(e),
            }
        },
    }
}

} // verus!

verus! {

/// Adds the technologies and URLs of one subdomain to subdomain `sid`,
/// counting each as added or skipped. Only those two tables change.
fn import_details(db: &mut Database, sid: &str, sub: &ImportSubdomain, report: &mut ImportReport)
    requires
        old(db).wf(),
        old(report).technologies_added + old(report).technologies_skipped + sub.technologies@.len()
            <= usize::MAX,
        old(report).urls_added + old(report).urls_skipped + sub.urls@.len() <= usize::MAX,
    ensures
        final(db).wf(),
        final(db).tables().engagements == old(db).tables().engagements,
        final(db).tables().targets == old(db).tables().targets,
        final(db).tables().subdomains == old(db).tables().subdomains,
        final(db).tables().ips == old(db).tables().ips,
        final(db).tables().asns == old(db).tables().asns,
        final(db).tables().tags == old(db).tables().tags,
        final(db).tables().screenshots == old(db).tables().screenshots,
        old(db).tables().technologies.submap_of(final(db).tables().technologies),
        counted(
            old(db).tables().technologies,
            final(db).tables().technologies,
            final(report).technologies_added - old(report).technologies_added,
        ),
        counted(old(db).tables().urls, final(db).tables().urls, final(report).urls_added - old(report).urls_added),
        forall|k: Seq<char>|
            #[trigger] final(db).tables().technologies.contains_key(k)
                && !old(db).tables().technologies.contains_key(k) ==> final(db).tables().technologies[k].0
                == sid@ && carries_tech(
                *sub,
                (final(db).tables().technologies[k].1, final(db).tables().technologies[k].2),
            ),
        old(db).tables().urls.submap_of(final(db).tables().urls),
        forall|k: Seq<char>|
            #[trigger] final(db).tables().urls.contains_key(k) && !old(db).tables().urls.contains_key(k)
                ==> final(db).tables().urls[k].0 == sid@ && carries_url(
                *sub,
                (final(db).tables().urls[k].1, final(db).tables().urls[k].2),
            ),
        final(report).technologies_added + final(report).technologies_skipped == old(
            report,
        ).technologies_added + old(report).technologies_skipped + sub.technologies@.len(),
        final(report).urls_added + final(report).urls_skipped == old(report).urls_added + old(
            report,
        ).urls_skipped + sub.urls@.len(),
        final(report).subdomains_added == old(report).subdomains_added,
        final(report).subdomains_skipped == old(report).subdomains_skipped,
        final(report).ips_added == old(report).ips_added,
        final(report).ips_skipped == old(report).ips_skipped,
        final(report).asns_added == old(report).asns_added,
        final(report).asns_skipped == old(report).asns_skipped,
{
    proof {
        lemma_counted_none(db.tables().technologies);
        lemma_counted_none(db.tables().urls);
    }
    let mut j: usize = 0;
    while j < sub.technologies.len()
        invariant
            db.wf(),
            j <= sub.technologies@.len(),
            db.tables().engagements == old(db).tables().engagements,
            db.tables().targets == old(db).tables().targets,
            db.tables().subdomains == old(db).tables().subdomains,
            db.tables().ips == old(db).tables().ips,
            db.tables().asns == old(db).tables().asns,
            db.tables().tags == old(db).tables().tags,
            db.tables().screenshots == old(db).tables().screenshots,
            db.tables().urls == old(db).tables().urls,
            old(db).tables().technologies.submap_of(db.tables().technologies),
            counted(
                old(db).tables().technologies,
                db.tables().technologies,
                report.technologies_added - old(report).technologies_added,
            ),
            report.urls_added == old(report).urls_added,
            forall|k: Seq<char>|
                #[trigger] db.tables().technologies.contains_key(k)
                    && !old(db).tables().technologies.contains_key(k) ==> db.tables().technologies[k].0
                    == sid@ && carries_tech(
                    *sub,
                    (db.tables().technologies[k].1, db.tables().technologies[k].2),
                ),
            report.technologies_added + report.technologies_skipped == old(
                report,
            ).technologies_added + old(report).technologies_skipped + j,
            old(report).technologies_added + old(report).technologies_skipped
                + sub.technologies@.len() <= usize::MAX,
            report.urls_added == old(report).urls_added,
            report.urls_skipped == old(report).urls_skipped,
            report.subdomains_added == old(report).subdomains_added,
            report.subdomains_skipped == old(report).subdomains_skipped,
            report.ips_added == old(report).ips_added,
            report.ips_skipped == old(report).ips_skipped,
            report.asns_added == old(report).asns_added,
            report.asns_skipped == old(report).asns_skipped,
        decreases sub.technologies@.len() - j,
    {
        let (name, version) = (&sub.technologies[j].0, &sub.technologies[j].1);
        let new = NewTechnology {
            subdomain_id: sid.to_owned(),
            name: name.clone(),
            version: crate::queries::copy_opt_text(version),
        };
        let ghost before = db.tables();
        let ghost pair = sub.technologies@[j as int];
        let outcome = create_technology(db, new);
        match &outcome {
            Ok(created) => {
                proof {
                    lemma_counted_insert(
                        old(db).tables().technologies,
                        before.technologies,
                        created.id@,
                        crate::store::technology_row(*created),
                        report.technologies_added - old(report).technologies_added,
                    );
                    lemma_submap_insert(
                        old(db).tables().technologies,
                        before.technologies,
                        created.id@,
                        crate::store::technology_row(*created),
                    );
                    assert(tech_pair_is(pair, created.name@, opt_view(created.version)));
                    assert(carries_tech(*sub, (created.name@, opt_view(created.version))));
                    assert forall|k: Seq<char>|
                        #[trigger] db.tables().technologies.contains_key(k)
                            && !old(db).tables().technologies.contains_key(k) implies db.tables().technologies[k].0
                            == sid@ && carries_tech(
                            *sub,
                            (db.tables().technologies[k].1, db.tables().technologies[k].2),
                        ) by {
                        if k != created.id@ {
                            assert(before.technologies.contains_key(k));
                        }
                    }
                }
            },
            Err(_) => {},
        }
        *report = record_technology(*report, &outcome);
        j = j + 1;
    }
    let mut j: usize = 0;
    while j < sub.urls.len()
        invariant
            db.wf(),
            j <= sub.urls@.len(),
            db.tables().engagements == old(db).tables().engagements,
            db.tables().targets == old(db).tables().targets,
            db.tables().subdomains == old(db).tables().subdomains,
            db.tables().ips == old(db).tables().ips,
            db.tables().asns == old(db).tables().asns,
            db.tables().tags == old(db).tables().tags,
            db.tables().screenshots == old(db).tables().screenshots,
            counted(
                old(db).tables().technologies,
                db.tables().technologies,
                report.technologies_added - old(report).technologies_added,
            ),
            counted(old(db).tables().urls, db.tables().urls, report.urls_added - old(report).urls_added),
            old(db).tables().technologies.submap_of(db.tables().technologies),
            forall|k: Seq<char>|
                #[trigger] db.tables().technologies.contains_key(k)
                    && !old(db).tables().technologies.contains_key(k) ==> db.tables().technologies[k].0
                    == sid@ && carries_tech(
                    *sub,
                    (db.tables().technologies[k].1, db.tables().technologies[k].2),
                ),
            old(db).tables().urls.submap_of(db.tables().urls),
            forall|k: Seq<char>|
                #[trigger] db.tables().urls.contains_key(k) && !old(db).tables().urls.contains_key(k)
                    ==> db.tables().urls[k].0 == sid@ && carries_url(
                    *sub,
                    (db.tables().urls[k].1, db.tables().urls[k].2),
                ),
            report.technologies_added + report.technologies_skipped == old(
                report,
            ).technologies_added + old(report).technologies_skipped + sub.technologies@.len(),
            report.urls_added + report.urls_skipped == old(report).urls_added + old(
                report,
            ).urls_skipped + j,
            old(report).urls_added + old(report).urls_skipped + sub.urls@.len() <= usize::MAX,
            report.subdomains_added == old(report).subdomains_added,
            report.subdomains_skipped == old(report).subdomains_skipped,
            report.ips_added == old(report).ips_added,
            report.ips_skipped == old(report).ips_skipped,
            report.asns_added == old(report).asns_added,
            report.asns_skipped == old(report).asns_skipped,
        decreases sub.urls@.len() - j,
    {
        let new = NewUrl {
            subdomain_id: sid.to_owned(),
            url: sub.urls[j].0.clone(),
            url_type: sub.urls[j].1,
        };
        let ghost before = db.tables();
        let ghost pair = sub.urls@[j as int];
        let outcome = create_url(db, new);
        match &outcome {
            Ok(created) => {
                proof {
                    lemma_counted_insert(
                        old(db).tables().urls,
                        before.urls,
                        created.id@,
                        db.tables().urls[created.id@],
                        report.urls_added - old(report).urls_added,
                    );
                    lemma_submap_insert(
                        old(db).tables().urls,
                        before.urls,
                        created.id@,
                        db.tables().urls[created.id@],
                    );
                    assert(carries_url(*sub, (created.url@, url_type_text(created.url_type))));
                    assert forall|k: Seq<char>|
                        #[trigger] db.tables().urls.contains_key(k) && !old(db).tables().urls.contains_key(k)
                            implies db.tables().urls[k].0 == sid@ && carries_url(
                            *sub,
                            (db.tables().urls[k].1, db.tables().urls[k].2),
                        ) by {
                        if k != created.id@ {
                            assert(before.urls.contains_key(k));
                        }
                    }
                }
            },
            Err(_) => {},
        }
        *report = record_url(*report, &outcome);
        j = j + 1;
    }
}

} // verus!

verus! {

/// The name and organisation an ASN pair carries.
pub open spec fn asn_view(x: (String, Option<String>)) -> (Seq<char>, Option<Seq<char>>) {
    (x.0@, crate::store::opt_view(x.1))
}

/// The names and organisations of ASN pairs.
pub open spec fn asn_views(v: Seq<(String, Option<String>)>) -> Seq<(Seq<char>, Option<Seq<char>>)> {
    v.map_values(|x: (String, Option<String>)| asn_view(x))
}

/// The name, HTTP code and title a subdomain to import carries.
pub open spec fn import_sub_view(x: ImportSubdomain) -> (Seq<char>, Option<i32>, Option<Seq<char>>) {
    (x.subdomain@, x.status_code, crate::store::opt_view(x.title))
}

/// Whether subdomain `x` carries technology `tech` (name and version).
pub open spec fn carries_tech(x: ImportSubdomain, tech: (Seq<char>, Option<Seq<char>>)) -> bool {
    exists|j: int|
        0 <= j < x.technologies@.len() && tech_pair_is(#[trigger] x.technologies@[j], tech.0, tech.1)
}

/// Whether subdomain `x` carries URL `url` (the URL and the text of its kind).
pub open spec fn carries_url(x: ImportSubdomain, url: (Seq<char>, Seq<char>)) -> bool {
    exists|j: int|
        0 <= j < x.urls@.len() && (#[trigger] x.urls@[j]).0@ == url.0 && url_type_text(x.urls@[j].1)
            == url.1
}

/// Whether some subdomain of `subs` named `name` carries technology `tech`.
pub open spec fn tech_source(subs: Seq<ImportSubdomain>, name: Seq<char>, tech: (Seq<char>, Option<Seq<char>>)) -> bool {
    exists|i: int| 0 <= i < subs.len() && (#[trigger] subs[i]).subdomain@ == name && carries_tech(subs[i], tech)
}

/// Whether some subdomain of `subs` named `name` carries URL `url`.
pub open spec fn url_source(subs: Seq<ImportSubdomain>, name: Seq<char>, url: (Seq<char>, Seq<char>)) -> bool {
    exists|i: int| 0 <= i < subs.len() && (#[trigger] subs[i]).subdomain@ == name && carries_url(subs[i], url)
}

/// Whether `s` is `s0` grown by an import under engagement `eng_name` and
/// its target `t` named `target`, of IPs `ips`, ASNs `asns` and subdomains
/// `subs`: no row is removed or changed; the only new engagement is the
/// target's, named `eng_name` with no description; the only new target is
/// `t`, and none is added when the engagement already had a target of that
/// domain; every new IP, ASN and subdomain is under `t` and comes from the
/// file (a subdomain as not visited, without notes, with its code and
/// title); every new technology and URL is on a subdomain of `t` and comes
/// from a subdomain of the file of that name; tags and screenshots are
/// untouched.
pub open spec fn import_rows(
    s0: Store,
    s: Store,
    eng_name: Seq<char>,
    target: Seq<char>,
    t: Seq<char>,
    ips: Seq<Seq<char>>,
    asns: Seq<(Seq<char>, Option<Seq<char>>)>,
    subs: Seq<ImportSubdomain>,
) -> bool {
    &&& s0.engagements.submap_of(s.engagements)
    &&& forall|k: Seq<char>|
        #[trigger] s.engagements.contains_key(k) && !s0.engagements.contains_key(k) ==> k
            == s.targets[t].0 && s.engagements[k].0 == eng_name && s.engagements[k].1 is None
    &&& s0.targets.submap_of(s.targets)
    &&& forall|k: Seq<char>|
        #[trigger] s.targets.contains_key(k) && !s0.targets.contains_key(k) ==> k == t
    &&& (exists|k: Seq<char>|
        #[trigger] s0.targets.contains_key(k) && s0.targets[k].0 == s.targets[t].0
            && s0.targets[k].1 == target) ==> s.targets == s0.targets
    &&& s0.ips.submap_of(s.ips)
    &&& forall|k: Seq<char>|
        #[trigger] s.ips.contains_key(k) && !s0.ips.contains_key(k) ==> s.ips[k].0 == t
            && ips.contains(s.ips[k].1)
    &&& s0.asns.submap_of(s.asns)
    &&& forall|k: Seq<char>|
        #[trigger] s.asns.contains_key(k) && !s0.asns.contains_key(k) ==> s.asns[k].0 == t
            && asns.contains(
            (s.asns[k].1, s.asns[k].2),
        )
    &&& s0.subdomains.submap_of(s.subdomains)
    &&& forall|k: Seq<char>|
        #[trigger] s.subdomains.contains_key(k) && !s0.subdomains.contains_key(k) ==> {
            &&& s.subdomains[k].0 == t
            &&& s.subdomains[k].2 == "not-visited"@
            &&& s.subdomains[k].3 is None
            &&& subs.map_values(|x: ImportSubdomain| import_sub_view(x)).contains(
                (s.subdomains[k].1, s.subdomains[k].4, s.subdomains[k].5),
            )
        }
    &&& s0.technologies.submap_of(s.technologies)
    &&& forall|k: Seq<char>|
        #[trigger] s.technologies.contains_key(k) && !s0.technologies.contains_key(k) ==> {
            let sid = s.technologies[k].0;
            &&& s.subdomains.contains_key(sid)
            &&& s.subdomains[sid].0 == t
            &&& tech_source(subs, s.subdomains[sid].1, (s.technologies[k].1, s.technologies[k].2))
        }
    &&& s0.urls.submap_of(s.urls)
    &&& forall|k: Seq<char>|
        #[trigger] s.urls.contains_key(k) && !s0.urls.contains_key(k) ==> {
            let sid = s.urls[k].0;
            &&& s.subdomains.contains_key(sid)
            &&& s.subdomains[sid].0 == t
            &&& url_source(subs, s.subdomains[sid].1, (s.urls[k].1, s.urls[k].2))
        }
    &&& s.tags == s0.tags
    &&& s.screenshots == s0.screenshots
}

/// Whether an import that reported `rep` grew `before` into `after` as
/// `import_rows` says, around target `t`, added no IP, ASN or subdomain
/// when all of them were already listed under `t`, and offered the store
/// every technology and URL of each subdomain that `t` already held.
pub open spec fn import_done(
    before: Store,
    after: Store,
    rep: ImportReport,
    eng_name: Seq<char>,
    target: Seq<char>,
    t: Seq<char>,
    ips: Seq<Seq<char>>,
    asns: Seq<(Seq<char>, Option<Seq<char>>)>,
    subs: Seq<ImportSubdomain>,
) -> bool {
    &&& import_rows(before, after, eng_name, target, t, ips, asns, subs)
    &&& rows_counted(before, after, rep)
    &&& target_of(after, t, eng_name, target)
    &&& all_ips_present(before, t, ips) ==> rep.ips_added == 0
    &&& all_asns_present(before, t, asns.map_values(|x: (Seq<char>, Option<Seq<char>>)| x.0))
        ==> rep.asns_added == 0
    &&& all_subdomains_present(before, t, import_names(subs)) ==> rep.subdomains_added == 0
    &&& rep.technologies_added + rep.technologies_skipped >= count_sum(
        taken_tech_counts(before, t, subs),
    )
    &&& rep.urls_added + rep.urls_skipped >= count_sum(taken_url_counts(before, t, subs))
}

/// Whether an import that reported `rep` grew `before` into `after` as
/// `import_done` says, around some target.
pub open spec fn import_done_somewhere(
    before: Store,
    after: Store,
    rep: ImportReport,
    eng_name: Seq<char>,
    target: Seq<char>,
    ips: Seq<Seq<char>>,
    asns: Seq<(Seq<char>, Option<Seq<char>>)>,
    subs: Seq<ImportSubdomain>,
) -> bool {
    exists|t: Seq<char>| #[trigger] import_done(before, after, rep, eng_name, target, t, ips, asns, subs)
}

/// The ids that `after` holds and `before` does not.
pub open spec fn added_keys<V>(before: Map<Seq<char>, V>, after: Map<Seq<char>, V>) -> Set<Seq<char>> {
    after.dom().difference(before.dom())
}

/// Whether exactly `n` ids were added from `before` to `after`.
pub open spec fn counted<V>(before: Map<Seq<char>, V>, after: Map<Seq<char>, V>, n: int) -> bool {
    added_keys(before, after).finite() && added_keys(before, after).len() == n
}

/// Whether the added counts of `rep` are the numbers of rows that `after`
/// holds and `before` does not, table by table.
pub open spec fn rows_counted(before: Store, after: Store, rep: ImportReport) -> bool {
    &&& counted(before.ips, after.ips, rep.ips_added as int)
    &&& counted(before.asns, after.asns, rep.asns_added as int)
    &&& counted(before.subdomains, after.subdomains, rep.subdomains_added as int)
    &&& counted(before.technologies, after.technologies, rep.technologies_added as int)
    &&& counted(before.urls, after.urls, rep.urls_added as int)
}

/// A table gains no id from itself.
proof fn lemma_counted_none<V>(a: Map<Seq<char>, V>)
    ensures
        counted(a, a, 0),
{
    assert(added_keys(a, a) =~= Set::<Seq<char>>::empty());
}

/// One more fresh row is one more added id.
proof fn lemma_counted_insert<V>(a: Map<Seq<char>, V>, b: Map<Seq<char>, V>, k: Seq<char>, v: V, n: int)
    requires
        a.submap_of(b),
        counted(a, b, n),
        !b.contains_key(k),
    ensures
        counted(a, b.insert(k, v), n + 1),
{
    assert(added_keys(a, b.insert(k, v)) =~= added_keys(a, b).insert(k));
    assert(!added_keys(a, b).contains(k));
}

/// Added ids add up along a chain of tables.
proof fn lemma_counted_chain<V>(
    a: Map<Seq<char>, V>,
    b: Map<Seq<char>, V>,
    c: Map<Seq<char>, V>,
    n1: int,
    n2: int,
)
    requires
        a.submap_of(b),
        b.submap_of(c),
        counted(a, b, n1),
        counted(b, c, n2),
    ensures
        counted(a, c, n1 + n2),
{
    let x = added_keys(a, b);
    let y = added_keys(b, c);
    assert(x.disjoint(y));
    assert(added_keys(a, c) =~= x + y) by {
        assert forall|k: Seq<char>| #[trigger] added_keys(a, c).contains(k) implies (x + y).contains(k) by {
            if !b.contains_key(k) {
                assert(y.contains(k));
            } else {
                assert(!a.contains_key(k));
                assert(x.contains(k));
            }
        }
        assert forall|k: Seq<char>| #[trigger] (x + y).contains(k) implies added_keys(a, c).contains(k) by {
            if x.contains(k) {
                assert(b.contains_key(k));
                assert(!a.contains_key(k));
                assert(c.contains_key(k));
            } else {
                assert(!a.contains_key(k)) by {
                    if a.contains_key(k) {
                        assert(b.contains_key(k));
                    }
                }
            }
        }
    }
    vstd::set_lib::lemma_set_disjoint_lens(x, y);
}

/// Counts what the store answered to one IP: added when it stored the row,
/// skipped when it refused it.
pub fn record_ip(rep: ImportReport, outcome: &Result<Ip, RatariaError>) -> (r: ImportReport)
    requires
        rep.ips_added + rep.ips_skipped < usize::MAX,
    ensures
        r == (match outcome {
            Ok(_) => ImportReport { ips_added: (rep.ips_added + 1) as usize, ..rep },
            Err(_) => ImportReport { ips_skipped: (rep.ips_skipped + 1) as usize, ..rep },
        }),
{
    match outcome {
        Ok(_) => ImportReport { ips_added: rep.ips_added + 1, ..rep },
        Err(_) => ImportReport { ips_skipped: rep.ips_skipped + 1, ..rep },
    }
}

/// Counts what the store answered to one ASN: added when it stored the row,
/// skipped when it refused it.
pub fn record_asn(rep: ImportReport, outcome: &Result<Asn, RatariaError>) -> (r: ImportReport)
    requires
        rep.asns_added + rep.asns_skipped < usize::MAX,
    ensures
        r == (match outcome {
            Ok(_) => ImportReport { asns_added: (rep.asns_added + 1) as usize, ..rep },
            Err(_) => ImportReport { asns_skipped: (rep.asns_skipped + 1) as usize, ..rep },
        }),
{
    match outcome {
        Ok(_) => ImportReport { asns_added: rep.asns_added + 1, ..rep },
        Err(_) => ImportReport { asns_skipped: rep.asns_skipped + 1, ..rep },
    }
}

/// Counts what the store answered to one subdomain: added when it stored
/// the row, skipped when it refused it (the one already listed is then
/// looked up by name).
pub fn record_subdomain(rep: ImportReport, outcome: &Result<Subdomain, RatariaError>) -> (r: ImportReport)
    requires
        rep.subdomains_added + rep.subdomains_skipped < usize::MAX,
    ensures
        r == (match outcome {
            Ok(_) => ImportReport { subdomains_added: (rep.subdomains_added + 1) as usize, ..rep },
            Err(_) => ImportReport { subdomains_skipped: (rep.subdomains_skipped + 1) as usize, ..rep },
        }),
{
    match outcome {
        Ok(_) => ImportReport { subdomains_added: rep.subdomains_added + 1, ..rep },
        Err(_) => ImportReport { subdomains_skipped: rep.subdomains_skipped + 1, ..rep },
    }
}

/// Counts what the store answered to one technology: added when it stored
/// the row, skipped when it refused it.
pub fn record_technology(rep: ImportReport, outcome: &Result<Technology, RatariaError>) -> (r: ImportReport)
    requires
        rep.technologies_added + rep.technologies_skipped < usize::MAX,
    ensures
        r == (match outcome {
            Ok(_) => ImportReport { technologies_added: (rep.technologies_added + 1) as usize, ..rep },
            Err(_) => ImportReport { technologies_skipped: (rep.technologies_skipped + 1) as usize, ..rep },
        }),
{
    match outcome {
        Ok(_) => ImportReport { technologies_added: rep.technologies_added + 1, ..rep },
        Err(_) => ImportReport { technologies_skipped: rep.technologies_skipped + 1, ..rep },
    }
}

/// Counts what the store answered to one URL: added when it stored the
/// row, skipped when it refused it.
pub fn record_url(rep: ImportReport, outcome: &Result<Url, RatariaError>) -> (r: ImportReport)
    requires
        rep.urls_added + rep.urls_skipped < usize::MAX,
    ensures
        r == (match outcome {
            Ok(_) => ImportReport { urls_added: (rep.urls_added + 1) as usize, ..rep },
            Err(_) => ImportReport { urls_skipped: (rep.urls_skipped + 1) as usize, ..rep },
        }),
{
    match outcome {
        Ok(_) => ImportReport { urls_added: rep.urls_added + 1, ..rep },
        Err(_) => ImportReport { urls_skipped: rep.urls_skipped + 1, ..rep },
    }
}

/// A map stays inside another once that other gains a fresh key.
proof fn lemma_submap_insert<V>(a: Map<Seq<char>, V>, b: Map<Seq<char>, V>, k: Seq<char>, v: V)
    requires
        a.submap_of(b),
        !b.contains_key(k),
    ensures
        a.submap_of(b.insert(k, v)),
{
    assert forall|x: Seq<char>| #[trigger] a.contains_key(x) implies b.insert(k, v).contains_key(x)
        && b.insert(k, v)[x] == a[x] by {
        assert(b.contains_key(x));
    }
}

/// Adding an IP of the file under the target keeps an import's growth.
proof fn lemma_rows_ip(
    s0: Store, b: Store, eng_name: Seq<char>, target: Seq<char>, t: Seq<char>,
    ips: Seq<Seq<char>>, asns: Seq<(Seq<char>, Option<Seq<char>>)>, subs: Seq<ImportSubdomain>,
    id: Seq<char>, row: crate::store::IpRow,
)
    requires
        import_rows(s0, b, eng_name, target, t, ips, asns, subs),
        !b.ips.contains_key(id),
        row.0 == t,
        ips.contains(row.1),
    ensures
        import_rows(s0, crate::sql::with_ip(b, id, row), eng_name, target, t, ips, asns, subs),
{
    lemma_submap_insert(s0.ips, b.ips, id, row);
    let s = crate::sql::with_ip(b, id, row);
    assert forall|k: Seq<char>| #[trigger] s.ips.contains_key(k) && !s0.ips.contains_key(k) implies s.ips[k].0 == t
        && ips.contains(s.ips[k].1) by {
        if k != id {
            assert(b.ips.contains_key(k));
        }
    }
}

/// Adding an ASN of the file under the target keeps an import's growth.
proof fn lemma_rows_asn(
    s0: Store, b: Store, eng_name: Seq<char>, target: Seq<char>, t: Seq<char>,
    ips: Seq<Seq<char>>, asns: Seq<(Seq<char>, Option<Seq<char>>)>, subs: Seq<ImportSubdomain>,
    id: Seq<char>, row: crate::store::AsnRow,
)
    requires
        import_rows(s0, b, eng_name, target, t, ips, asns, subs),
        !b.asns.contains_key(id),
        row.0 == t,
        asns.contains((row.1, row.2)),
    ensures
        import_rows(s0, crate::sql::with_asn(b, id, row), eng_name, target, t, ips, asns, subs),
{
    lemma_submap_insert(s0.asns, b.asns, id, row);
    let s = crate::sql::with_asn(b, id, row);
    assert forall|k: Seq<char>| #[trigger] s.asns.contains_key(k) && !s0.asns.contains_key(k) implies s.asns[k].0 == t
        && asns.contains((s.asns[k].1, s.asns[k].2)) by {
        if k != id {
            assert(b.asns.contains_key(k));
        }
    }
}

/// Adding a subdomain of the file under the target keeps an import's growth.
proof fn lemma_rows_subdomain(
    s0: Store, b: Store, eng_name: Seq<char>, target: Seq<char>, t: Seq<char>,
    ips: Seq<Seq<char>>, asns: Seq<(Seq<char>, Option<Seq<char>>)>, subs: Seq<ImportSubdomain>,
    id: Seq<char>, row: SubRow,
)
    requires
        import_rows(s0, b, eng_name, target, t, ips, asns, subs),
        !b.subdomains.contains_key(id),
        row.0 == t,
        row.2 == "not-visited"@,
        row.3 is None,
        subs.map_values(|x: ImportSubdomain| import_sub_view(x)).contains((row.1, row.4, row.5)),
    ensures
        import_rows(s0, crate::sql::with_subdomain(b, id, row), eng_name, target, t, ips, asns, subs),
{
    lemma_submap_insert(s0.subdomains, b.subdomains, id, row);
    let s = crate::sql::with_subdomain(b, id, row);
    assert forall|k: Seq<char>| #[trigger] s.subdomains.contains_key(k) && !s0.subdomains.contains_key(k) implies {
        &&& s.subdomains[k].0 == t
        &&& s.subdomains[k].2 == "not-visited"@
        &&& s.subdomains[k].3 is None
        &&& subs.map_values(|x: ImportSubdomain| import_sub_view(x)).contains(
            (s.subdomains[k].1, s.subdomains[k].4, s.subdomains[k].5),
        )
    } by {
        if k != id {
            assert(b.subdomains.contains_key(k));
        }
    }
    assert forall|k: Seq<char>| #[trigger] s.technologies.contains_key(k) && !s0.technologies.contains_key(k) implies {
        let sid = s.technologies[k].0;
        &&& s.subdomains.contains_key(sid)
        &&& s.subdomains[sid].0 == t
        &&& tech_source(subs, s.subdomains[sid].1, (s.technologies[k].1, s.technologies[k].2))
    } by {
        assert(b.subdomains.contains_key(s.technologies[k].0));
    }
    assert forall|k: Seq<char>| #[trigger] s.urls.contains_key(k) && !s0.urls.contains_key(k) implies {
        let sid = s.urls[k].0;
        &&& s.subdomains.contains_key(sid)
        &&& s.subdomains[sid].0 == t
        &&& url_source(subs, s.subdomains[sid].1, (s.urls[k].1, s.urls[k].2))
    } by {
        assert(b.subdomains.contains_key(s.urls[k].0));
    }
}

/// Adding the technologies and URLs of subdomain `subs[i]` to a subdomain
/// of the target of that name keeps an import's growth.
proof fn lemma_rows_details(
    s0: Store, b: Store, s: Store, eng_name: Seq<char>, target: Seq<char>, t: Seq<char>,
    ips: Seq<Seq<char>>, asns: Seq<(Seq<char>, Option<Seq<char>>)>, subs: Seq<ImportSubdomain>,
    sid: Seq<char>, i: int,
)
    requires
        import_rows(s0, b, eng_name, target, t, ips, asns, subs),
        0 <= i < subs.len(),
        b.subdomains.contains_key(sid),
        b.subdomains[sid].0 == t,
        b.subdomains[sid].1 == subs[i].subdomain@,
        s.engagements == b.engagements,
        s.targets == b.targets,
        s.subdomains == b.subdomains,
        s.ips == b.ips,
        s.asns == b.asns,
        s.tags == b.tags,
        s.screenshots == b.screenshots,
        b.technologies.submap_of(s.technologies),
        forall|k: Seq<char>|
            #[trigger] s.technologies.contains_key(k) && !b.technologies.contains_key(k)
                ==> s.technologies[k].0 == sid && carries_tech(subs[i], (s.technologies[k].1, s.technologies[k].2)),
        b.urls.submap_of(s.urls),
        forall|k: Seq<char>|
            #[trigger] s.urls.contains_key(k) && !b.urls.contains_key(k)
                ==> s.urls[k].0 == sid && carries_url(subs[i], (s.urls[k].1, s.urls[k].2)),
    ensures
        import_rows(s0, s, eng_name, target, t, ips, asns, subs),
{
    vstd::map_lib::lemma_submap_of_trans(s0.technologies, b.technologies, s.technologies);
    vstd::map_lib::lemma_submap_of_trans(s0.urls, b.urls, s.urls);
    assert forall|k: Seq<char>| #[trigger] s.technologies.contains_key(k) && !s0.technologies.contains_key(k) implies {
        let sid = s.technologies[k].0;
        &&& s.subdomains.contains_key(sid)
        &&& s.subdomains[sid].0 == t
        &&& tech_source(subs, s.subdomains[sid].1, (s.technologies[k].1, s.technologies[k].2))
    } by {
        if b.technologies.contains_key(k) {
            assert(b.technologies[k] == s.technologies[k]);
        } else {
            assert(carries_tech(subs[i], (s.technologies[k].1, s.technologies[k].2)));
        }
    }
    assert forall|k: Seq<char>| #[trigger] s.urls.contains_key(k) && !s0.urls.contains_key(k) implies {
        let sid = s.urls[k].0;
        &&& s.subdomains.contains_key(sid)
        &&& s.subdomains[sid].0 == t
        &&& url_source(subs, s.subdomains[sid].1, (s.urls[k].1, s.urls[k].2))
    } by {
        if b.urls.contains_key(k) {
            assert(b.urls[k] == s.urls[k]);
        } else {
            assert(carries_url(subs[i], (s.urls[k].1, s.urls[k].2)));
        }
    }
}

/// The running total over one more element.
proof fn lemma_count_sum_step(s: Seq<int>, i: int)
    requires
        0 <= i < s.len(),
    ensures
        count_sum(s.take(i + 1)) == count_sum(s.take(i)) + s[i],
{
    assert(s.take(i + 1).drop_last() =~= s.take(i));
}

/// Running totals of non-negative counts never exceed the whole total.
proof fn lemma_count_sum_prefix(s: Seq<int>, i: int)
    requires
        0 <= i <= s.len(),
        forall|j: int| 0 <= j < s.len() ==> s[j] >= 0,
    ensures
        count_sum(s.take(i)) <= count_sum(s),
    decreases s.len() - i,
{
    if i < s.len() {
        lemma_count_sum_step(s, i);
        lemma_count_sum_prefix(s, i + 1);
    } else {
        assert(s.take(i) =~= s);
    }
}

/// A name that store `s0` holds under target `t` is still held in `s`, and
/// a listing of the subdomains of `t` in `s` has a subdomain of that name.
proof fn lemma_listed_name_found(s0: Store, s: Store, t: Seq<char>, listed: Seq<Subdomain>, name: Seq<char>)
    requires
        keeps_listed(s0, s, t),
        subdomains_listing(s, t, listed),
        forall|j: int| 0 <= j < listed.len() ==> listed[j].subdomain@ != name,
    ensures
        !subdomain_name_taken(s0, t, name),
{
    if subdomain_name_taken(s0, t, name) {
        assert(subdomain_name_taken(s, t, name));
        let k = choose|k: Seq<char>| #[trigger]
            s.subdomains.contains_key(k) && s.subdomains[k].0 == t && s.subdomains[k].1 == name;
        let ids = listed.map_values(|x: Subdomain| x.id@);
        assert(ids.contains(k));
        let j = choose|j: int| 0 <= j < ids.len() && ids[j] == k;
        assert(listed[j].id@ == k);
        assert(listed[j].subdomain@ == name);
    }
}

/// Counts that are none of them negative add up to at least any one of them.
proof fn lemma_count_sum_at_least(s: Seq<int>, i: int)
    requires
        0 <= i < s.len(),
        forall|j: int| 0 <= j < s.len() ==> s[j] >= 0,
    ensures
        count_sum(s) >= s[i],
    decreases s.len(),
{
    if i < s.len() - 1 {
        lemma_count_sum_at_least(s.drop_last(), i);
    } else {
        lemma_count_sum_nonneg(s.drop_last());
    }
}

/// Counts that are none of them negative add up to no less than zero.
proof fn lemma_count_sum_nonneg(s: Seq<int>)
    requires
        forall|j: int| 0 <= j < s.len() ==> s[j] >= 0,
    ensures
        count_sum(s) >= 0,
    decreases s.len(),
{
    if s.len() > 0 {
        lemma_count_sum_nonneg(s.drop_last());
    }
}

/// When the store already holds, under the import's target, a subdomain of
/// the name of subdomain `i` of the file, every technology and URL that
/// subdomain `i` carries is still offered to the store: the technologies
/// (and the URLs) that the import added or skipped are at least as many as
/// subdomain `i` carries.
pub proof fn law_known_subdomain_keeps_its_details(
    before: Store,
    after: Store,
    rep: ImportReport,
    eng_name: Seq<char>,
    target: Seq<char>,
    t: Seq<char>,
    ips: Seq<Seq<char>>,
    asns: Seq<(Seq<char>, Option<Seq<char>>)>,
    subs: Seq<ImportSubdomain>,
    i: int,
)
    requires
        import_done(before, after, rep, eng_name, target, t, ips, asns, subs),
        0 <= i < subs.len(),
        subdomain_name_taken(before, t, subs[i].subdomain@),
    ensures
        rep.technologies_added + rep.technologies_skipped >= subs[i].technologies@.len(),
        rep.urls_added + rep.urls_skipped >= subs[i].urls@.len(),
{
    let tc = taken_tech_counts(before, t, subs);
    let uc = taken_url_counts(before, t, subs);
    assert(tc[i] == subs[i].technologies@.len());
    assert(uc[i] == subs[i].urls@.len());
    lemma_count_sum_at_least(tc, i);
    lemma_count_sum_at_least(uc, i);
}

/// Whether the counts of `counts` add up to no more than `usize::MAX`.
pub fn sum_fits(counts: &Vec<usize>) -> (r: bool)
    ensures
        r == (count_sum(counts@.map_values(|c: usize| c as int)) <= usize::MAX),
{
    let ghost s = counts@.map_values(|c: usize| c as int);
    let mut total: usize = 0;
    let mut i: usize = 0;
    while i < counts.len()
        invariant
            i <= counts.len(),
            s == counts@.map_values(|c: usize| c as int),
            total == count_sum(s.take(i as int)),
        decreases counts.len() - i,
    {
        proof {
            lemma_count_sum_step(s, i as int);
        }
        match total.checked_add(counts[i]) {
            Some(t) => {
                total = t;
            },
            None => {
                proof {
                    lemma_count_sum_prefix(s, i + 1);
                }
                return false;
            },
        }
        i = i + 1;
    }
    assert(s.take(counts.len() as int) =~= s);
    true
}

/// Brings `ips`, `asns` and `subs` into the store under the engagement named
/// `eng_name` and its target named `target`, each found or created.
///
/// Each IP, ASN and subdomain is counted once, as added or as skipped; a
/// subdomain that cannot be added is looked up by name, and its technologies
/// and URLs go to the one found (none when it is not found). Nothing the
/// store already lists under the target is added again, and no engagement is
/// created when one of that name exists.
#[verifier::spinoff_prover]
pub fn import_records(
    db: &mut Database,
    eng_name: &str,
    target: &str,
    ips: &Vec<String>,
    asns: &Vec<(String, Option<String>)>,
    subs: &Vec<ImportSubdomain>,
) -> (r: Result<ImportReport, RatariaError>)
    requires
        old(db).wf(),
        count_sum(tech_counts(subs@)) <= usize::MAX,
        count_sum(url_counts(subs@)) <= usize::MAX,
    ensures
        final(db).wf(),
        r matches Ok(rep) ==> import_outcome(
            old(db).tables(),
            final(db).tables(),
            rep,
            eng_name@,
            target@,
            texts(ips@),
            asn_names(asns@),
            import_names(subs@),
            count_sum(tech_counts(subs@)),
            count_sum(url_counts(subs@)),
        ),
        r is Ok ==> import_done_somewhere(
            old(db).tables(),
            final(db).tables(),
            r->Ok_0,
            eng_name@,
            target@,
            texts(ips@),
            asn_views(asns@),
            subs@,
        ),
        r matches Err(e) ==> e is Database || e is IoError,
{
    let ghost s0 = db.tables();
    let mut report = ImportReport::default();
    let eng_id = match resolve_engagement(db, eng_name) {
        Ok(e) => e,
        Err(e) => return Err(e),
    };
    let ghost s1 = db.tables();
    let tid = match resolve_target(db, eng_id.as_str(), target) {
        Ok(t) => t,
        Err(e) => return Err(e),
    };
    let ghost t = tid@;
    let ghost s2 = db.tables();
    assert(target_of(db.tables(), t, eng_name@, target@));
    assert(keeps_listed(s0, db.tables(), t)) by {
        assert(s2.ips == s0.ips && s2.asns == s0.asns && s2.subdomains == s0.subdomains);
        assert forall|x: Seq<char>| ip_taken(s0, t, x) implies #[trigger] ip_taken(s2, t, x) by {
            let k = choose|k: Seq<char>| #[trigger] s0.ips.contains_key(k) && s0.ips[k].0 == t && s0.ips[k].1 == x;
            assert(s2.ips.contains_key(k));
        }
        assert forall|x: Seq<char>| asn_taken(s0, t, x) implies #[trigger] asn_taken(s2, t, x) by {
            let k = choose|k: Seq<char>| #[trigger] s0.asns.contains_key(k) && s0.asns[k].0 == t && s0.asns[k].1 == x;
            assert(s2.asns.contains_key(k));
        }
        assert forall|x: Seq<char>| subdomain_name_taken(s0, t, x) implies #[trigger] subdomain_name_taken(s2, t, x) by {
            let k = choose|k: Seq<char>| #[trigger] s0.subdomains.contains_key(k) && s0.subdomains[k].0 == t && s0.subdomains[k].1 == x;
            assert(s2.subdomains.contains_key(k));
        }
    }
    assert(engagement_named(s0, eng_name@) ==> db.tables().engagements == s0.engagements);
    proof {
        lemma_counted_none(s0.ips);
        lemma_counted_none(s0.asns);
        lemma_counted_none(s0.subdomains);
        lemma_counted_none(s0.technologies);
        lemma_counted_none(s0.urls);
    }
    assert(rows_counted(s0, db.tables(), report));
    assert(import_rows(s0, db.tables(), eng_name@, target@, t, texts(ips@), asn_views(asns@), subs@)) by {
        assert(s1.targets == s0.targets);
        assert forall|k: Seq<char>|
            #[trigger] s2.engagements.contains_key(k) && !s0.engagements.contains_key(k) implies k
                == s2.targets[t].0 && s2.engagements[k].0 == eng_name@ && s2.engagements[k].1 is None by {
            assert(k == eng_id@);
        }
        if s1 != s0 {
            lemma_submap_insert(s0.engagements, s0.engagements, eng_id@, s1.engagements[eng_id@]);
        }
        if s2 != s1 {
            lemma_submap_insert(s1.targets, s1.targets, t, s2.targets[t]);
        }
    }

    // IPs
    let mut i: usize = 0;
    while i < ips.len()
        invariant
            db.wf(),
            tid@ == t,
            i <= ips@.len(),
            target_of(db.tables(), t, eng_name@, target@),
            keeps_listed(s0, db.tables(), t),
            import_rows(s0, db.tables(), eng_name@, target@, t, texts(ips@), asn_views(asns@), subs@),
            rows_counted(s0, db.tables(), report),
            engagement_named(s0, eng_name@) ==> db.tables().engagements == s0.engagements,
            report.ips_added + report.ips_skipped == i,
            all_ips_present(s0, t, texts(ips@).take(i as int)) ==> report.ips_added == 0,
            report == (ImportReport {
                ips_added: report.ips_added,
                ips_skipped: report.ips_skipped,
                ..ImportReport::zero()
            }),
        decreases ips@.len() - i,
    {
        let ghost before = db.tables();
        proof {
            if all_ips_present(s0, t, texts(ips@).take(i + 1)) {
                assert(all_ips_present(s0, t, texts(ips@).take(i as int))) by {
                    assert forall|j: int| 0 <= j < i implies ip_taken(s0, t, #[trigger] texts(ips@).take(i as int)[j]) by {
                        assert(texts(ips@).take(i as int)[j] == texts(ips@).take(i + 1)[j]);
                    }
                }
                assert(texts(ips@).take(i + 1)[i as int] == ips@[i as int]@);
                assert(ip_taken(before, t, ips@[i as int]@));
            }
        }
        let outcome = create_ip(db, NewIp { target_id: tid.clone(), ip: ips[i].clone() });
        match &outcome {
            Ok(created) => {
                proof {
                    lemma_counted_insert(s0.ips, before.ips, created.id@, crate::store::ip_row(*created), report.ips_added as int);
                    assert(texts(ips@)[i as int] == created.ip@);
                    lemma_rows_ip(
                        s0, before, eng_name@, target@, t, texts(ips@), asn_views(asns@), subs@,
                        created.id@, crate::store::ip_row(*created),
                    );
                    lemma_ip_insert_keeps(before, created.id@, crate::store::ip_row(*created), t);
                    lemma_keeps_trans(s0, before, db.tables(), t);
                }
            },
            Err(_) => {},
        }
        report = record_ip(report, &outcome);
        proof {
            if all_ips_present(s0, t, texts(ips@).take(i + 1)) {
                assert(report.ips_added == 0);
            }
        }
        i = i + 1;
    }
    assert(texts(ips@).take(ips@.len() as int) =~= texts(ips@));

    // ASNs
    let mut i: usize = 0;
    while i < asns.len()
        invariant
            db.wf(),
            tid@ == t,
            i <= asns@.len(),
            target_of(db.tables(), t, eng_name@, target@),
            keeps_listed(s0, db.tables(), t),
            import_rows(s0, db.tables(), eng_name@, target@, t, texts(ips@), asn_views(asns@), subs@),
            rows_counted(s0, db.tables(), report),
            engagement_named(s0, eng_name@) ==> db.tables().engagements == s0.engagements,
            report.ips_added + report.ips_skipped == ips@.len(),
            all_ips_present(s0, t, texts(ips@)) ==> report.ips_added == 0,
            report.asns_added + report.asns_skipped == i,
            all_asns_present(s0, t, asn_names(asns@).take(i as int)) ==> report.asns_added == 0,
            report == (ImportReport {
                ips_added: report.ips_added,
                ips_skipped: report.ips_skipped,
                asns_added: report.asns_added,
                asns_skipped: report.asns_skipped,
                ..ImportReport::zero()
            }),
        decreases asns@.len() - i,
    {
        let ghost before = db.tables();
        proof {
            if all_asns_present(s0, t, asn_names(asns@).take(i + 1)) {
                assert(all_asns_present(s0, t, asn_names(asns@).take(i as int))) by {
                    assert forall|j: int| 0 <= j < i implies asn_taken(s0, t, #[trigger] asn_names(asns@).take(i as int)[j]) by {
                        assert(asn_names(asns@).take(i as int)[j] == asn_names(asns@).take(i + 1)[j]);
                    }
                }
                assert(asn_names(asns@).take(i + 1)[i as int] == asns@[i as int].0@);
                assert(asn_taken(before, t, asns@[i as int].0@));
            }
        }
        let new = NewAsn {
            target_id: tid.clone(),
            asn: asns[i].0.clone(),
            org: crate::queries::copy_opt_text(&asns[i].1),
        };
        let outcome = create_asn(db, new);
        match &outcome {
            Ok(created) => {
                proof {
                    lemma_counted_insert(s0.asns, before.asns, created.id@, crate::store::asn_row(*created), report.asns_added as int);
                    assert(asn_views(asns@)[i as int] == (
                        created.asn@,
                        opt_view(created.org),
                    ));
                    lemma_rows_asn(
                        s0, before, eng_name@, target@, t, texts(ips@), asn_views(asns@), subs@,
                        created.id@, crate::store::asn_row(*created),
                    );
                    lemma_asn_insert_keeps(before, created.id@, crate::store::asn_row(*created), t);
                    lemma_keeps_trans(s0, before, db.tables(), t);
                }
            },
            Err(_) => {},
        }
        report = record_asn(report, &outcome);
        proof {
            if all_asns_present(s0, t, asn_names(asns@).take(i + 1)) {
                assert(report.asns_added == 0);
            }
        }
        i = i + 1;
    }
    assert(asn_names(asns@).take(asns@.len() as int) =~= asn_names(asns@));

    // Subdomains
    let mut i: usize = 0;
    while i < subs.len()
        invariant
            db.wf(),
            tid@ == t,
            i <= subs@.len(),
            target_of(db.tables(), t, eng_name@, target@),
            keeps_listed(s0, db.tables(), t),
            import_rows(s0, db.tables(), eng_name@, target@, t, texts(ips@), asn_views(asns@), subs@),
            rows_counted(s0, db.tables(), report),
            engagement_named(s0, eng_name@) ==> db.tables().engagements == s0.engagements,
            count_sum(tech_counts(subs@)) <= usize::MAX,
            count_sum(url_counts(subs@)) <= usize::MAX,
            report.ips_added + report.ips_skipped == ips@.len(),
            all_ips_present(s0, t, texts(ips@)) ==> report.ips_added == 0,
            report.asns_added + report.asns_skipped == asns@.len(),
            all_asns_present(s0, t, asn_names(asns@)) ==> report.asns_added == 0,
            report.subdomains_added + report.subdomains_skipped == i,
            all_subdomains_present(s0, t, import_names(subs@).take(i as int))
                ==> report.subdomains_added == 0,
            report.technologies_added + report.technologies_skipped <= count_sum(
                tech_counts(subs@).take(i as int),
            ),
            report.urls_added + report.urls_skipped <= count_sum(url_counts(subs@).take(i as int)),
            report.technologies_added + report.technologies_skipped >= count_sum(
                taken_tech_counts(s0, t, subs@).take(i as int),
            ),
            report.urls_added + report.urls_skipped >= count_sum(
                taken_url_counts(s0, t, subs@).take(i as int),
            ),
        decreases subs@.len() - i,
    {
        let ghost before = db.tables();
        let ghost rep0 = report;
        proof {
            lemma_count_sum_step(tech_counts(subs@), i as int);
            lemma_count_sum_step(url_counts(subs@), i as int);
            lemma_count_sum_prefix(tech_counts(subs@), i + 1);
            lemma_count_sum_prefix(url_counts(subs@), i + 1);
            lemma_count_sum_step(taken_tech_counts(s0, t, subs@), i as int);
            lemma_count_sum_step(taken_url_counts(s0, t, subs@), i as int);
            if all_subdomains_present(s0, t, import_names(subs@).take(i + 1)) {
                assert(all_subdomains_present(s0, t, import_names(subs@).take(i as int))) by {
                    assert forall|j: int| 0 <= j < i implies subdomain_name_taken(s0, t, #[trigger] import_names(subs@).take(i as int)[j]) by {
                        assert(import_names(subs@).take(i as int)[j] == import_names(subs@).take(i + 1)[j]);
                    }
                }
                assert(import_names(subs@).take(i + 1)[i as int] == subs@[i as int].subdomain@);
                assert(subdomain_name_taken(before, t, subs@[i as int].subdomain@));
            }
        }
        let sub = &subs[i];
        let new = NewSubdomain {
            target_id: tid.clone(),
            subdomain: sub.subdomain.clone(),
            status_code: sub.status_code,
            title: crate::queries::copy_opt_text(&sub.title),
        };
        let outcome = create_subdomain(db, new);
        report = record_subdomain(report, &outcome);
        let sid: String = match outcome {
            Ok(created) => {
                proof {
                    lemma_counted_insert(
                        s0.subdomains,
                        before.subdomains,
                        created.id@,
                        db.tables().subdomains[created.id@],
                        rep0.subdomains_added as int,
                    );
                    assert(subs@.map_values(|x: ImportSubdomain| import_sub_view(x))[i as int] == (
                        created.subdomain@,
                        created.status_code,
                        opt_view(created.title),
                    ));
                    lemma_rows_subdomain(
                        s0, before, eng_name@, target@, t, texts(ips@), asn_views(asns@), subs@,
                        created.id@, db.tables().subdomains[created.id@],
                    );
                    lemma_subdomain_insert_keeps(
                        before,
                        created.id@,
                        db.tables().subdomains[created.id@],
                        t,
                    );
                    lemma_keeps_trans(s0, before, db.tables(), t);
                }
                created.id
            },
            Err(_) => {
                let listed = match list_subdomains(db, tid.as_str()) {
                    Ok(v) => v,
                    Err(e) => return Err(e),
                };
                match find_subdomain(&listed, sub.subdomain.as_str()) {
                    Some(j) => listed[j].id.clone(),
                    None => {
                        proof {
                            if all_subdomains_present(s0, t, import_names(subs@).take(i + 1)) {
                                assert(report.subdomains_added == 0);
                            }
                            lemma_listed_name_found(
                                s0,
                                before,
                                t,
                                listed@,
                                subs@[i as int].subdomain@,
                            );
                            assert(taken_tech_counts(s0, t, subs@)[i as int] == 0);
                            assert(taken_url_counts(s0, t, subs@)[i as int] == 0);
                        }
                        i = i + 1;
                        continue;
                    },
                }
            },
        };
        assert(tech_counts(subs@)[i as int] == sub.technologies@.len());
        assert(url_counts(subs@)[i as int] == sub.urls@.len());
        let ghost mid = db.tables();
        assert(mid.subdomains.contains_key(sid@) && mid.subdomains[sid@].0 == t
            && mid.subdomains[sid@].1 == subs@[i as int].subdomain@);
        let ghost rep_mid = report;
        assert(taken_tech_counts(s0, t, subs@)[i as int] <= sub.technologies@.len());
        assert(taken_url_counts(s0, t, subs@)[i as int] <= sub.urls@.len());
        import_details(db, sid.as_str(), sub, &mut report);
        proof {
            vstd::map_lib::lemma_submap_of_trans(s0.technologies, mid.technologies, db.tables().technologies);
            lemma_counted_chain(
                s0.technologies,
                mid.technologies,
                db.tables().technologies,
                rep_mid.technologies_added as int,
                report.technologies_added - rep_mid.technologies_added,
            );
            lemma_counted_chain(
                s0.urls,
                mid.urls,
                db.tables().urls,
                rep_mid.urls_added as int,
                report.urls_added - rep_mid.urls_added,
            );
            lemma_rows_details(
                s0, mid, db.tables(), eng_name@, target@, t, texts(ips@), asn_views(asns@), subs@, sid@, i as int,
            );
            assert(keeps_listed(mid, db.tables(), t)) by {
                assert forall|x: Seq<char>| ip_taken(mid, t, x) implies #[trigger] ip_taken(db.tables(), t, x) by {
                    let k = choose|k: Seq<char>| #[trigger] mid.ips.contains_key(k) && mid.ips[k].0 == t && mid.ips[k].1 == x;
                    assert(db.tables().ips.contains_key(k));
                }
                assert forall|x: Seq<char>| asn_taken(mid, t, x) implies #[trigger] asn_taken(db.tables(), t, x) by {
                    let k = choose|k: Seq<char>| #[trigger] mid.asns.contains_key(k) && mid.asns[k].0 == t && mid.asns[k].1 == x;
                    assert(db.tables().asns.contains_key(k));
                }
                assert forall|x: Seq<char>| subdomain_name_taken(mid, t, x) implies #[trigger] subdomain_name_taken(db.tables(), t, x) by {
                    let k = choose|k: Seq<char>| #[trigger] mid.subdomains.contains_key(k) && mid.subdomains[k].0 == t && mid.subdomains[k].1 == x;
                    assert(db.tables().subdomains.contains_key(k));
                }
            }
            lemma_keeps_trans(s0, mid, db.tables(), t);
            if all_subdomains_present(s0, t, import_names(subs@).take(i + 1)) {
                assert(report.subdomains_added == 0);
            }
        }
        i = i + 1;
    }
    assert(import_names(subs@).take(subs@.len() as int) =~= import_names(subs@));
    assert(tech_counts(subs@).take(subs@.len() as int) =~= tech_counts(subs@));
    assert(url_counts(subs@).take(subs@.len() as int) =~= url_counts(subs@));
    assert(taken_tech_counts(s0, t, subs@).take(subs@.len() as int) =~= taken_tech_counts(s0, t, subs@));
    assert(taken_url_counts(s0, t, subs@).take(subs@.len() as int) =~= taken_url_counts(s0, t, subs@));
    assert(all_subdomains_present(s0, t, import_names(subs@)) ==> report.subdomains_added == 0);
    assert(target_of(db.tables(), t, eng_name@, target@));
    assert(asn_views(asns@).map_values(|x: (Seq<char>, Option<Seq<char>>)| x.0) =~= asn_names(asns@));
    assert(import_done(s0, db.tables(), report, eng_name@, target@, t, texts(ips@), asn_views(asns@), subs@));
    assert(s0 == old(db).tables());
    assert(import_done_somewhere(old(db).tables(), db.tables(), report, eng_name@, target@, texts(ips@), asn_views(asns@), subs@));
    Ok(report)
}

} // verus!

verus! {

/// The kind of URL that an optional kind text names; without text, `Other`.
pub open spec fn url_kind_of(t: Option<Seq<char>>) -> UrlType {
    match t {
        Some(s) => crate::models::url_type_from_text(s),
        None => UrlType::Other,
    }
}

/// The URL kind named by an optional text.
pub fn url_kind(t: &Option<String>) -> (r: UrlType)
    ensures
        r == url_kind_of(crate::store::opt_view(*t)),
{
    match t {
        Some(s) => UrlType::from_str(s.as_str()),
        None => UrlType::Other,
    }
}

/// Whether ASN pair `x` carries the name and organisation `asn` and `org`.
pub open spec fn asn_pair_is(x: (String, Option<String>), asn: Seq<char>, org: Option<Seq<char>>) -> bool {
    x.0@ == asn && crate::store::opt_view(x.1) == org
}

/// Whether technology pair `x` carries name `name` and version `version`.
pub open spec fn tech_pair_is(x: (String, Option<String>), name: Seq<char>, version: Option<Seq<char>>) -> bool {
    x.0@ == name && crate::store::opt_view(x.1) == version
}

/// Whether URL pair `x` carries URL `url` of kind `kind`.
pub open spec fn url_pair_is(x: (String, UrlType), url: Seq<char>, kind: UrlType) -> bool {
    x.0@ == url && x.1 == kind
}

/// What an import that brought IPs `ips`, ASNs `asns` and subdomains `subs`
/// (by name), with at most `techs` technologies and `urls` URLs, into
/// engagement `eng_name` and target `target` leaves behind: each IP, ASN and
/// subdomain counted once, no second engagement of the same name, and
/// nothing that was already listed under the target added again.
pub open spec fn import_outcome(
    before: Store,
    after: Store,
    rep: ImportReport,
    eng_name: Seq<char>,
    target: Seq<char>,
    ips: Seq<Seq<char>>,
    asns: Seq<Seq<char>>,
    subs: Seq<Seq<char>>,
    techs: int,
    urls: int,
) -> bool {
    &&& rep.ips_added + rep.ips_skipped == ips.len()
    &&& rep.asns_added + rep.asns_skipped == asns.len()
    &&& rep.subdomains_added + rep.subdomains_skipped == subs.len()
    &&& rep.technologies_added + rep.technologies_skipped <= techs
    &&& rep.urls_added + rep.urls_skipped <= urls
    &&& engagement_named(before, eng_name) ==> after.engagements == before.engagements
    &&& exists|t: Seq<char>|
        {
            &&& target_of(after, t, eng_name, target)
            &&& all_ips_present(before, t, ips) ==> rep.ips_added == 0
            &&& all_asns_present(before, t, asns) ==> rep.asns_added == 0
            &&& all_subdomains_present(before, t, subs) ==> rep.subdomains_added == 0
        }
}

} // verus!
