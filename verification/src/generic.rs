//! The generic import format (JSON or plain text) and its checks.
//!
//! JSON text is read into these types outside the library; here stand the
//! types, the rules a file must meet, and the plain-text reader.

use vstd::prelude::*;
use crate::db::Database;
use crate::error::RatariaError;
use crate::importer::{
    ImportSubdomain, asn_names, asn_pair_is, asn_views, count_sum, import_done_somewhere, sum_fits, import_names, import_outcome,
    import_records, tech_counts, tech_pair_is, texts, url_counts, url_kind, url_kind_of,
    url_pair_is,
};
use crate::models::UrlType;
use crate::queries::{copy_opt_text, str_view};
use crate::report::ImportReport;
use crate::store::opt_view;
use crate::text::{
    chars_of, is_blank, lemma_split_lines_nonempty, split_lines, starts_with_char,
    string_of_range, trim_bounds, trim_spec,
};

verus! {

/// A generic import file.
#[derive(Debug, Clone)]
pub struct GenericFile {
    pub target: String,
    pub engagement: Option<String>,
    pub subdomains: Vec<GenericSubdomain>,
    pub ips: Vec<String>,
    pub asns: Vec<GenericAsn>,
}

/// A subdomain, given either by name alone or with what was found on it.
#[derive(Debug, Clone)]
pub enum GenericSubdomain {
    Simple(String),
    Full(GenericSubdomainFull),
}

/// A subdomain with its HTTP answer, technologies and URLs.
#[derive(Debug, Clone)]
pub struct GenericSubdomainFull {
    pub subdomain: String,
    pub status_code: Option<i32>,
    pub title: Option<String>,
    pub technologies: Vec<GenericTechnology>,
    pub urls: Vec<GenericUrl>,
}

/// A technology of a generic subdomain.
#[derive(Debug, Clone)]
pub struct GenericTechnology {
    pub name: String,
    pub version: Option<String>,
}

/// A URL of a generic subdomain; its kind is free text.
#[derive(Debug, Clone)]
pub struct GenericUrl {
    pub url: String,
    pub url_type: Option<String>,
}

/// An autonomous system of the target.
#[derive(Debug, Clone)]
pub struct GenericAsn {
    pub asn: String,
    pub org: Option<String>,
}

/// The name of a generic subdomain, whichever form it has.
pub open spec fn generic_subdomain_name(s: GenericSubdomain) -> Seq<char> {
    match s {
        GenericSubdomain::Simple(n) => n@,
        GenericSubdomain::Full(f) => f.subdomain@,
    }
}

impl GenericSubdomain {
    /// The subdomain's name.
    pub fn subdomain_str(&self) -> (r: &str)
        ensures
            r@ == generic_subdomain_name(*self),
    {
        match self {
            GenericSubdomain::Simple(s) => s.as_str(),
            GenericSubdomain::Full(f) => f.subdomain.as_str(),
        }
    }
}

/// The entries of a plain-text list: each line, trimmed, that is neither
/// empty nor a `#` comment.
pub open spec fn txt_entries(lines: Seq<Seq<char>>) -> Seq<Seq<char>>
    decreases lines.len(),
{
    if lines.len() == 0 {
        Seq::empty()
    } else {
        let prev = txt_entries(lines.drop_last());
        let t = trim_spec(lines.last());
        if t.len() > 0 && !starts_with_char(t, '#') {
            prev.push(t)
        } else {
            prev
        }
    }
}

/// The names of a list of generic subdomains.
pub open spec fn subdomain_names(s: Seq<GenericSubdomain>) -> Seq<Seq<char>> {
    s.map_values(|g: GenericSubdomain| generic_subdomain_name(g))
}

/// Whether every subdomain of the list is given by name alone.
pub open spec fn all_simple(s: Seq<GenericSubdomain>) -> bool {
    forall|i: int| 0 <= i < s.len() ==> s[i] is Simple
}

/// The subdomains of a plain-text list, in order.
pub fn txt_subdomains(content: &str) -> (r: Vec<GenericSubdomain>)
    ensures
        subdomain_names(r@) == txt_entries(split_lines(content@)),
        all_simple(r@),
{
    let v = chars_of(content);
    let n = v.len();
    let mut out: Vec<GenericSubdomain> = Vec::new();
    let mut start: usize = 0;
    let mut i: usize = 0;
    assert(v@.take(0) =~= Seq::<char>::empty());
    while i < n
        invariant
            n == v.len(),
            v@ == content@,
            start <= i <= n,
            split_lines(v@.take(i as int)).last() == v@.subrange(start as int, i as int),
            subdomain_names(out@) == txt_entries(split_lines(v@.take(i as int)).drop_last()),
            all_simple(out@),
        decreases n - i,
    {
        let ghost before = split_lines(v@.take(i as int));
        proof {
            lemma_split_lines_nonempty(v@.take(i as int));
            assert(v@.take(i + 1).drop_last() =~= v@.take(i as int));
        }
        if v[i] == '\n' {
            let (lo, hi) = trim_bounds(&v, start, i);
            let ghost line = v@.subrange(start as int, i as int);
            if lo < hi && v[lo] != '#' {
                let s = string_of_range(&v, lo, hi);
                out.push(GenericSubdomain::Simple(s));
            }
            proof {
                let after = split_lines(v@.take(i + 1));
                assert(after == before.push(Seq::empty()));
                assert(after.drop_last() =~= before);
                assert(before == before.drop_last().push(line));
                assert(subdomain_names(out@) =~= txt_entries(after.drop_last()));
                assert(v@.subrange((i + 1) as int, (i + 1) as int) =~= Seq::<char>::empty());
            }
            start = i + 1;
        } else {
            proof {
                let after = split_lines(v@.take(i + 1));
                assert(after == before.update(before.len() - 1, before.last().push(v@[i as int])));
                assert(after.drop_last() =~= before.drop_last());
                assert(v@.subrange(start as int, i + 1) =~= v@.subrange(start as int, i as int).push(
                    v@[i as int],
                ));
            }
        }
        i = i + 1;
    }
    let ghost all = split_lines(v@.take(n as int));
    proof {
        lemma_split_lines_nonempty(v@.take(n as int));
        assert(v@.take(n as int) =~= v@);
        assert(all == all.drop_last().push(v@.subrange(start as int, n as int)));
    }
    let (lo, hi) = trim_bounds(&v, start, n);
    if lo < hi && v[lo] != '#' {
        let s = string_of_range(&v, lo, hi);
        out.push(GenericSubdomain::Simple(s));
    }
    assert(subdomain_names(out@) =~= txt_entries(all));
    out
}

/// Reads a plain-text list of subdomains, one per line, for `target`.
///
/// Fails when the target is blank, or when no line holds a subdomain; blank
/// lines and lines starting with `#` are skipped, and each entry is trimmed.
pub fn parse_txt(content: &str, target: &str, engagement: Option<&str>) -> (r: Result<
    GenericFile,
    RatariaError,
>)
    ensures
        trim_spec(target@).len() == 0 ==> r matches Err(RatariaError::ImportError(_)),
        trim_spec(target@).len() > 0 && txt_entries(split_lines(content@)).len() == 0 ==> r matches Err(
            RatariaError::ImportError(_),
        ),
        trim_spec(target@).len() > 0 && txt_entries(split_lines(content@)).len() > 0 ==> r is Ok,
        r matches Ok(f) ==> {
            &&& f.target@ == target@
            &&& match engagement {
                Some(e) => f.engagement matches Some(fe) && fe@ == e@,
                None => f.engagement is None,
            }
            &&& subdomain_names(f.subdomains@) == txt_entries(split_lines(content@))
            &&& all_simple(f.subdomains@)
            &&& f.ips@.len() == 0
            &&& f.asns@.len() == 0
        },
{
    if is_blank(target) {
        return Err(RatariaError::ImportError("Target é obrigatório para import TXT".to_owned()));
    }
    let subdomains = txt_subdomains(content);
    if subdomains.len() == 0 {
        return Err(RatariaError::ImportError("Nenhum subdomain encontrado no arquivo".to_owned()));
    }
    let engagement = match engagement {
        Some(e) => Some(e.to_owned()),
        None => None,
    };
    Ok(GenericFile {
        target: target.to_owned(),
        engagement,
        subdomains,
        ips: Vec::new(),
        asns: Vec::new(),
    })
}

/// Checks a generic file read from JSON: its target must not be blank and it
/// must list at least one subdomain. The file comes back unchanged.
pub fn check_generic_file(file: GenericFile) -> (r: Result<GenericFile, RatariaError>)
    ensures
        trim_spec(file.target@).len() == 0 ==> r matches Err(RatariaError::ImportError(_)),
        trim_spec(file.target@).len() > 0 && file.subdomains@.len() == 0 ==> r matches Err(
            RatariaError::ImportError(_),
        ),
        trim_spec(file.target@).len() > 0 && file.subdomains@.len() > 0 ==> r == Ok::<
            GenericFile,
            RatariaError,
        >(file),
{
    if is_blank(file.target.as_str()) {
        return Err(RatariaError::ImportError("Campo target ausente".to_owned()));
    }
    if file.subdomains.len() == 0 {
        return Err(RatariaError::ImportError("Nenhum subdomain encontrado".to_owned()));
    }
    Ok(file)
}

} // verus!

verus! {

/// How many technologies a generic subdomain carries.
pub open spec fn generic_tech_count(g: GenericSubdomain) -> int {
    match g {
        GenericSubdomain::Simple(_) => 0,
        GenericSubdomain::Full(f) => f.technologies@.len() as int,
    }
}

/// How many URLs a generic subdomain carries.
pub open spec fn generic_url_count(g: GenericSubdomain) -> int {
    match g {
        GenericSubdomain::Simple(_) => 0,
        GenericSubdomain::Full(f) => f.urls@.len() as int,
    }
}

/// Whether `x` is what generic subdomain `g` imports: its name, HTTP answer,
/// technologies and URLs (a URL's kind read from its text, `Other` without one).
pub open spec fn imports_generic(g: GenericSubdomain, x: ImportSubdomain) -> bool {
    &&& x.subdomain@ == generic_subdomain_name(g)
    &&& match g {
        GenericSubdomain::Simple(_) => {
            &&& x.status_code is None
            &&& x.title is None
            &&& x.technologies@.len() == 0
            &&& x.urls@.len() == 0
        },
        GenericSubdomain::Full(f) => {
            &&& x.status_code == f.status_code
            &&& opt_view(x.title) == opt_view(f.title)
            &&& x.technologies@.len() == f.technologies@.len()
            &&& forall|j: int|
                0 <= j < x.technologies@.len() ==> tech_pair_is(
                    #[trigger] x.technologies@[j],
                    f.technologies@[j].name@,
                    opt_view(f.technologies@[j].version),
                )
            &&& x.urls@.len() == f.urls@.len()
            &&& forall|j: int|
                0 <= j < x.urls@.len() ==> url_pair_is(
                    #[trigger] x.urls@[j],
                    f.urls@[j].url@,
                    url_kind_of(opt_view(f.urls@[j].url_type)),
                )
        },
    }
}

/// What generic subdomain `g` imports.
pub fn generic_import_subdomain(g: &GenericSubdomain) -> (x: ImportSubdomain)
    ensures
        imports_generic(*g, x),
{
    match g {
        GenericSubdomain::Simple(s) => ImportSubdomain {
            subdomain: s.clone(),
            status_code: None,
            title: None,
            technologies: Vec::new(),
            urls: Vec::new(),
        },
        GenericSubdomain::Full(f) => {
            let mut technologies: Vec<(String, Option<String>)> = Vec::new();
            let mut j: usize = 0;
            while j < f.technologies.len()
                invariant
                    j <= f.technologies@.len(),
                    technologies@.len() == j,
                    forall|k: int|
                        0 <= k < j ==> tech_pair_is(
                            #[trigger] technologies@[k],
                            f.technologies@[k].name@,
                            opt_view(f.technologies@[k].version),
                        ),
                decreases f.technologies@.len() - j,
            {
                technologies.push(
                    (f.technologies[j].name.clone(), copy_opt_text(&f.technologies[j].version)),
                );
                j = j + 1;
            }
            let mut urls: Vec<(String, UrlType)> = Vec::new();
            let mut j: usize = 0;
            while j < f.urls.len()
                invariant
                    j <= f.urls@.len(),
                    urls@.len() == j,
                    forall|k: int|
                        0 <= k < j ==> url_pair_is(
                            #[trigger] urls@[k],
                            f.urls@[k].url@,
                            url_kind_of(opt_view(f.urls@[k].url_type)),
                        ),
                decreases f.urls@.len() - j,
            {
                urls.push((f.urls[j].url.clone(), url_kind(&f.urls[j].url_type)));
                j = j + 1;
            }
            ImportSubdomain {
                subdomain: f.subdomain.clone(),
                status_code: f.status_code,
                title: copy_opt_text(&f.title),
                technologies,
                urls,
            }
        },
    }
}

/// What each generic subdomain of `v` imports, in order.
pub fn generic_import_subdomains(v: &Vec<GenericSubdomain>) -> (r: Vec<ImportSubdomain>)
    ensures
        r@.len() == v@.len(),
        forall|i: int| 0 <= i < v@.len() ==> imports_generic(v@[i], #[trigger] r@[i]),
{
    let mut out: Vec<ImportSubdomain> = Vec::new();
    let mut i: usize = 0;
    while i < v.len()
        invariant
            i <= v@.len(),
            out@.len() == i,
            forall|k: int| 0 <= k < i ==> imports_generic(v@[k], #[trigger] out@[k]),
        decreases v@.len() - i,
    {
        out.push(generic_import_subdomain(&v[i]));
        i = i + 1;
    }
    out
}

/// The ASNs of a generic file as name and organisation pairs.
pub fn generic_asn_pairs(v: &Vec<GenericAsn>) -> (r: Vec<(String, Option<String>)>)
    ensures
        r@.len() == v@.len(),
        forall|i: int| 0 <= i < v@.len() ==> asn_pair_is(#[trigger] r@[i], v@[i].asn@, opt_view(v@[i].org)),
{
    let mut out: Vec<(String, Option<String>)> = Vec::new();
    let mut i: usize = 0;
    while i < v.len()
        invariant
            i <= v@.len(),
            out@.len() == i,
            forall|k: int| 0 <= k < i ==> asn_pair_is(#[trigger] out@[k], v@[k].asn@, opt_view(v@[k].org)),
        decreases v@.len() - i,
    {
        out.push((v[i].asn.clone(), copy_opt_text(&v[i].org)));
        i = i + 1;
    }
    out
}

/// The engagement an import goes to: the one asked for, else the one the
/// file names, else "Imported".
pub open spec fn chosen_engagement(asked: Option<Seq<char>>, in_file: Option<Seq<char>>) -> Seq<char> {
    match asked {
        Some(n) => n,
        None => match in_file {
            Some(e) => e,
            None => "Imported"@,
        },
    }
}

/// The engagement an import goes to.
pub fn engagement_for_import(asked: Option<&str>, in_file: &Option<String>) -> (r: String)
    ensures
        r@ == chosen_engagement(
            match asked {
                Some(a) => Some(a@),
                None => None,
            },
            opt_view(*in_file),
        ),
{
    match asked {
        Some(a) => a.to_owned(),
        None => match in_file {
            Some(e) => e.clone(),
            None => "Imported".to_owned(),
        },
    }
}

/// The technology counts of generic subdomains.
pub open spec fn generic_tech_counts(v: Seq<GenericSubdomain>) -> Seq<int> {
    v.map_values(|g: GenericSubdomain| generic_tech_count(g))
}

/// The URL counts of generic subdomains.
pub open spec fn generic_url_counts(v: Seq<GenericSubdomain>) -> Seq<int> {
    v.map_values(|g: GenericSubdomain| generic_url_count(g))
}

/// The ASN names of a generic file.
pub open spec fn generic_asn_names(v: Seq<GenericAsn>) -> Seq<Seq<char>> {
    v.map_values(|a: GenericAsn| a.asn@)
}

/// Imports a generic file into the engagement `engagement_name`, or the one
/// the file names, or "Imported": see `import_records` for what is added and
/// how it is counted.
pub fn import(db: &mut Database, file: &GenericFile, engagement_name: Option<&str>) -> (r: Result<
    ImportReport,
    RatariaError,
>)
    requires
        old(db).wf(),
        count_sum(generic_tech_counts(file.subdomains@)) <= usize::MAX,
        count_sum(generic_url_counts(file.subdomains@)) <= usize::MAX,
    ensures
        final(db).wf(),
        r matches Ok(rep) ==> import_outcome(
            old(db).tables(),
            final(db).tables(),
            rep,
            chosen_engagement(
                match engagement_name {
                    Some(a) => Some(a@),
                    None => None,
                },
                opt_view(file.engagement),
            ),
            file.target@,
            texts(file.ips@),
            generic_asn_names(file.asns@),
            subdomain_names(file.subdomains@),
            count_sum(generic_tech_counts(file.subdomains@)),
            count_sum(generic_url_counts(file.subdomains@)),
        ),
        r is Ok ==> exists|xs: Seq<ImportSubdomain>|
            {
                &&& xs.len() == file.subdomains@.len()
                &&& forall|i: int|
                    0 <= i < xs.len() ==> imports_generic(file.subdomains@[i], #[trigger] xs[i])
                &&& #[trigger] import_done_somewhere(
                    old(db).tables(),
                    final(db).tables(),
                    r->Ok_0,
                    chosen_engagement(str_view(engagement_name), opt_view(file.engagement)),
                    file.target@,
                    texts(file.ips@),
                    generic_asn_views(file.asns@),
                    xs,
                )
            },
        r matches Err(e) ==> e is Database || e is IoError,
{
    let eng_name = engagement_for_import(engagement_name, &file.engagement);
    let subs = generic_import_subdomains(&file.subdomains);
    let asns = generic_asn_pairs(&file.asns);
    assert(import_names(subs@) =~= subdomain_names(file.subdomains@));
    assert(tech_counts(subs@) =~= generic_tech_counts(file.subdomains@));
    assert(url_counts(subs@) =~= generic_url_counts(file.subdomains@));
    assert(asn_names(asns@) =~= generic_asn_names(file.asns@));
    assert(asn_views(asns@) =~= generic_asn_views(file.asns@));
    let r = import_records(db, eng_name.as_str(), file.target.as_str(), &file.ips, &asns, &subs);
    if r.is_ok() {
        assert(forall|i: int| 0 <= i < subs@.len() ==> imports_generic(file.subdomains@[i], #[trigger] subs@[i]));
    }
    r
}

/// The names and organisations of the ASNs of a generic file.
pub open spec fn generic_asn_views(v: Seq<GenericAsn>) -> Seq<(Seq<char>, Option<Seq<char>>)> {
    v.map_values(|a: GenericAsn| (a.asn@, opt_view(a.org)))
}


/// Whether the technology and URL counts of `file` each add up to no more
/// than `usize::MAX`, as `import` needs.
pub fn generic_counts_fit(file: &GenericFile) -> (r: bool)
    ensures
        r == (count_sum(generic_tech_counts(file.subdomains@)) <= usize::MAX && count_sum(
            generic_url_counts(file.subdomains@),
        ) <= usize::MAX),
{
    let mut techs: Vec<usize> = Vec::new();
    let mut urls: Vec<usize> = Vec::new();
    for i in 0..file.subdomains.len()
        invariant
            techs@.len() == i,
            urls@.len() == i,
            forall|j: int|
                0 <= j < i ==> techs@[j] as int == generic_tech_count(#[trigger] file.subdomains@[j])
                    && urls@[j] as int == generic_url_count(file.subdomains@[j]),
    {
        match &file.subdomains[i] {
            GenericSubdomain::Simple(_) => {
                techs.push(0);
                urls.push(0);
            },
            GenericSubdomain::Full(f) => {
                techs.push(f.technologies.len());
                urls.push(f.urls.len());
            },
        }
    }
    assert(techs@.map_values(|c: usize| c as int) =~= generic_tech_counts(file.subdomains@));
    assert(urls@.map_values(|c: usize| c as int) =~= generic_url_counts(file.subdomains@));
    sum_fits(&techs) && sum_fits(&urls)
}

} // verus!
