//! The import format written by the ratazana recon tool, and its checks.
//!
//! JSON text is read into these types outside the library; here stand the
//! types and the rules a file must meet.

use vstd::prelude::*;
use crate::db::Database;
use crate::error::RatariaError;
use crate::importer::{
    ImportSubdomain, asn_names, asn_pair_is, asn_views, count_sum, import_done_somewhere, sum_fits, import_names, import_outcome,
    import_records, tech_counts, tech_pair_is, texts, url_counts, url_pair_is,
};
use crate::models::{UrlType, url_type_from_text};
use crate::queries::copy_opt_text;
use crate::report::ImportReport;
use crate::store::opt_view;
use crate::text::{is_blank, trim_spec};

verus! {

/// A ratazana scan file.
#[derive(Debug, Clone)]
pub struct RatazanaFile {
    pub rataria_version: String,
    pub target: String,
    pub engagement_name: String,
    pub timestamp: String,
    pub subdomains: Vec<RatazanaSubdomain>,
    pub ips: Vec<String>,
    pub asns: Vec<RatazanaAsn>,
}

/// A subdomain of a ratazana scan.
#[derive(Debug, Clone)]
pub struct RatazanaSubdomain {
    pub subdomain: String,
    pub status_code: Option<i32>,
    pub title: Option<String>,
    pub technologies: Vec<RatazanaTechnology>,
    pub urls: Vec<RatazanaUrl>,
    pub sources: Vec<String>,
}

/// A technology of a ratazana subdomain.
#[derive(Debug, Clone)]
pub struct RatazanaTechnology {
    pub name: String,
    pub version: Option<String>,
}

/// A URL of a ratazana subdomain; its kind is free text.
#[derive(Debug, Clone)]
pub struct RatazanaUrl {
    pub url: String,
    pub url_type: String,
}

/// An autonomous system of a ratazana scan.
#[derive(Debug, Clone)]
pub struct RatazanaAsn {
    pub asn: String,
    pub org: Option<String>,
}

/// Whether a ratazana file meets the rules: a version, a target and an
/// engagement name (the last two not blank).
pub open spec fn ratazana_file_ok(f: RatazanaFile) -> bool {
    &&& f.rataria_version@.len() > 0
    &&& trim_spec(f.target@).len() > 0
    &&& trim_spec(f.engagement_name@).len() > 0
}

/// Checks a ratazana file read from JSON. It fails when the version is empty,
/// the target is blank or the engagement name is blank; otherwise the file
/// comes back unchanged.
pub fn check_ratazana_file(file: RatazanaFile) -> (r: Result<RatazanaFile, RatariaError>)
    ensures
        ratazana_file_ok(file) ==> r == Ok::<RatazanaFile, RatariaError>(file),
        !ratazana_file_ok(file) ==> r matches Err(RatariaError::ImportError(_)),
{
    if file.rataria_version.as_str().is_empty() {
        return Err(RatariaError::ImportError("Campo rataria_version ausente".to_owned()));
    }
    if is_blank(file.target.as_str()) {
        return Err(RatariaError::ImportError("Campo target ausente".to_owned()));
    }
    if is_blank(file.engagement_name.as_str()) {
        return Err(RatariaError::ImportError("Campo engagement_name ausente".to_owned()));
    }
    Ok(file)
}

} // verus!

verus! {

/// Whether `x` is what ratazana subdomain `g` imports: its name, HTTP answer,
/// technologies and URLs (a URL's kind read from its text).
pub open spec fn imports_ratazana(g: RatazanaSubdomain, x: ImportSubdomain) -> bool {
    &&& x.subdomain@ == g.subdomain@
    &&& x.status_code == g.status_code
    &&& opt_view(x.title) == opt_view(g.title)
    &&& x.technologies@.len() == g.technologies@.len()
    &&& forall|j: int|
        0 <= j < x.technologies@.len() ==> tech_pair_is(
            #[trigger] x.technologies@[j],
            g.technologies@[j].name@,
            opt_view(g.technologies@[j].version),
        )
    &&& x.urls@.len() == g.urls@.len()
    &&& forall|j: int|
        0 <= j < x.urls@.len() ==> url_pair_is(
            #[trigger] x.urls@[j],
            g.urls@[j].url@,
            url_type_from_text(g.urls@[j].url_type@),
        )
}

/// What ratazana subdomain `g` imports.
pub fn ratazana_import_subdomain(g: &RatazanaSubdomain) -> (x: ImportSubdomain)
    ensures
        imports_ratazana(*g, x),
{
    let mut technologies: Vec<(String, Option<String>)> = Vec::new();
    let mut j: usize = 0;
    while j < g.technologies.len()
        invariant
            j <= g.technologies@.len(),
            technologies@.len() == j,
            forall|k: int|
                0 <= k < j ==> tech_pair_is(
                    #[trigger] technologies@[k],
                    g.technologies@[k].name@,
                    opt_view(g.technologies@[k].version),
                ),
        decreases g.technologies@.len() - j,
    {
        technologies.push((g.technologies[j].name.clone(), copy_opt_text(&g.technologies[j].version)));
        j = j + 1;
    }
    let mut urls: Vec<(String, UrlType)> = Vec::new();
    let mut j: usize = 0;
    while j < g.urls.len()
        invariant
            j <= g.urls@.len(),
            urls@.len() == j,
            forall|k: int|
                0 <= k < j ==> url_pair_is(
                    #[trigger] urls@[k],
                    g.urls@[k].url@,
                    url_type_from_text(g.urls@[k].url_type@),
                ),
        decreases g.urls@.len() - j,
    {
        urls.push((g.urls[j].url.clone(), UrlType::from_str(g.urls[j].url_type.as_str())));
        j = j + 1;
    }
    ImportSubdomain {
        subdomain: g.subdomain.clone(),
        status_code: g.status_code,
        title: copy_opt_text(&g.title),
        technologies,
        urls,
    }
}

/// What each ratazana subdomain of `v` imports, in order.
pub fn ratazana_import_subdomains(v: &Vec<RatazanaSubdomain>) -> (r: Vec<ImportSubdomain>)
    ensures
        r@.len() == v@.len(),
        forall|i: int| 0 <= i < v@.len() ==> imports_ratazana(v@[i], #[trigger] r@[i]),
{
    let mut out: Vec<ImportSubdomain> = Vec::new();
    let mut i: usize = 0;
    while i < v.len()
        invariant
            i <= v@.len(),
            out@.len() == i,
            forall|k: int| 0 <= k < i ==> imports_ratazana(v@[k], #[trigger] out@[k]),
        decreases v@.len() - i,
    {
        out.push(ratazana_import_subdomain(&v[i]));
        i = i + 1;
    }
    out
}

/// The ASNs of a ratazana file as name and organisation pairs.
pub fn ratazana_asn_pairs(v: &Vec<RatazanaAsn>) -> (r: Vec<(String, Option<String>)>)
    ensures
        r@.len() == v@.len(),
        forall|i: int| 0 <= i < v@.len() ==> asn_pair_is(#[trigger] r@[i], v@[i].asn@, opt_view(v@[i].org)),
{
    let mut out: Vec<(String, Option<String>)> = Vec::new();
    let mut i: usize = 0;
    while i < v.len()
        invariant
            i <= v@.len(),
            out@.len() == i,
            forall|k: int| 0 <= k < i ==> asn_pair_is(#[trigger] out@[k], v@[k].asn@, opt_view(v@[k].org)),
        decreases v@.len() - i,
    {
        out.push((v[i].asn.clone(), copy_opt_text(&v[i].org)));
        i = i + 1;
    }
    out
}

/// The names of ratazana subdomains.
pub open spec fn ratazana_names(v: Seq<RatazanaSubdomain>) -> Seq<Seq<char>> {
    v.map_values(|g: RatazanaSubdomain| g.subdomain@)
}

/// The technology counts of ratazana subdomains.
pub open spec fn ratazana_tech_counts(v: Seq<RatazanaSubdomain>) -> Seq<int> {
    v.map_values(|g: RatazanaSubdomain| g.technologies@.len() as int)
}

/// The URL counts of ratazana subdomains.
pub open spec fn ratazana_url_counts(v: Seq<RatazanaSubdomain>) -> Seq<int> {
    v.map_values(|g: RatazanaSubdomain| g.urls@.len() as int)
}

/// The ASN names of a ratazana file.
pub open spec fn ratazana_asn_names(v: Seq<RatazanaAsn>) -> Seq<Seq<char>> {
    v.map_values(|a: RatazanaAsn| a.asn@)
}

/// Imports a ratazana scan into the engagement it names: see
/// `import_records` for what is added and how it is counted.
pub fn import(db: &mut Database, file: &RatazanaFile) -> (r: Result<ImportReport, RatariaError>)
    requires
        old(db).wf(),
        count_sum(ratazana_tech_counts(file.subdomains@)) <= usize::MAX,
        count_sum(ratazana_url_counts(file.subdomains@)) <= usize::MAX,
    ensures
        final(db).wf(),
        r matches Ok(rep) ==> import_outcome(
            old(db).tables(),
            final(db).tables(),
            rep,
            file.engagement_name@,
            file.target@,
            texts(file.ips@),
            ratazana_asn_names(file.asns@),
            ratazana_names(file.subdomains@),
            count_sum(ratazana_tech_counts(file.subdomains@)),
            count_sum(ratazana_url_counts(file.subdomains@)),
        ),
        r is Ok ==> exists|xs: Seq<ImportSubdomain>|
            {
                &&& xs.len() == file.subdomains@.len()
                &&& forall|i: int|
                    0 <= i < xs.len() ==> imports_ratazana(file.subdomains@[i], #[trigger] xs[i])
                &&& #[trigger] import_done_somewhere(
                    old(db).tables(),
                    final(db).tables(),
                    r->Ok_0,
                    file.engagement_name@,
                    file.target@,
                    texts(file.ips@),
                    ratazana_asn_views(file.asns@),
                    xs,
                )
            },
        r matches Err(e) ==> e is Database || e is IoError,
{
    let subs = ratazana_import_subdomains(&file.subdomains);
    let asns = ratazana_asn_pairs(&file.asns);
    assert(import_names(subs@) =~= ratazana_names(file.subdomains@));
    assert(tech_counts(subs@) =~= ratazana_tech_counts(file.subdomains@));
    assert(url_counts(subs@) =~= ratazana_url_counts(file.subdomains@));
    assert(asn_names(asns@) =~= ratazana_asn_names(file.asns@));
    assert(asn_views(asns@) =~= ratazana_asn_views(file.asns@));
    let r = import_records(
        db,
        file.engagement_name.as_str(),
        file.target.as_str(),
        &file.ips,
        &asns,
        &subs,
    );
    if r.is_ok() {
        assert(forall|i: int| 0 <= i < subs@.len() ==> imports_ratazana(file.subdomains@[i], #[trigger] subs@[i]));
    }
    r
}

/// The names and organisations of the ASNs of a ratazana file.
pub open spec fn ratazana_asn_views(v: Seq<RatazanaAsn>) -> Seq<(Seq<char>, Option<Seq<char>>)> {
    v.map_values(|a: RatazanaAsn| (a.asn@, opt_view(a.org)))
}


/// Whether the technology and URL counts of `file` each add up to no more
/// than `usize::MAX`, as `import` needs.
pub fn ratazana_counts_fit(file: &RatazanaFile) -> (r: bool)
    ensures
        r == (count_sum(ratazana_tech_counts(file.subdomains@)) <= usize::MAX && count_sum(
            ratazana_url_counts(file.subdomains@),
        ) <= usize::MAX),
{
    let mut techs: Vec<usize> = Vec::new();
    let mut urls: Vec<usize> = Vec::new();
    for i in 0..file.subdomains.len()
        invariant
            techs@.len() == i,
            urls@.len() == i,
            forall|j: int|
                0 <= j < i ==> techs@[j] as int == (#[trigger] file.subdomains@[j]).technologies@.len()
                    && urls@[j] as int == file.subdomains@[j].urls@.len(),
    {
        techs.push(file.subdomains[i].technologies.len());
        urls.push(file.subdomains[i].urls.len());
    }
    assert(techs@.map_values(|c: usize| c as int) =~= ratazana_tech_counts(file.subdomains@));
    assert(urls@.map_values(|c: usize| c as int) =~= ratazana_url_counts(file.subdomains@));
    sum_fits(&techs) && sum_fits(&urls)
}

} // verus!
