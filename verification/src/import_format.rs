//! Telling the import formats apart, and importing a plain-text list of
//! subdomains.
//!
//! A file whose name ends in `.txt` is a plain-text list; a file that holds
//! the key `"rataria_version"` is a ratazana scan; anything else is read as
//! the generic JSON format.

use vstd::prelude::*;
use crate::db::Database;
use crate::error::RatariaError;
use crate::generic::{
    all_simple, chosen_engagement, generic_tech_counts, generic_url_counts, import, parse_txt,
    txt_entries,
};
use crate::importer::{ImportSubdomain, count_sum, import_done_somewhere, import_outcome};
use crate::report::ImportReport;
use crate::text::{chars_of, split_lines, trim_spec};

verus! {

/// The formats an import file can have.
#[derive(Clone, Copy, Debug, PartialEq, Eq, Structural)]
pub enum ImportFormat {
    /// One subdomain per line.
    Txt,
    /// A ratazana scan (JSON with `"rataria_version"`).
    Ratazana,
    /// The generic JSON format.
    GenericJson,
}

/// Whether `s` ends with `suffix`.
pub open spec fn has_suffix(s: Seq<char>, suffix: Seq<char>) -> bool {
    suffix.len() <= s.len() && s.subrange(s.len() - suffix.len(), s.len() as int) == suffix
}

/// Whether `pat` occurs in `s` at position `i`.
pub open spec fn occurs_at(s: Seq<char>, pat: Seq<char>, i: int) -> bool {
    0 <= i && i + pat.len() <= s.len() && s.subrange(i, i + pat.len()) == pat
}

/// Whether `pat` occurs somewhere in `s`.
pub open spec fn has_infix(s: Seq<char>, pat: Seq<char>) -> bool {
    exists|i: int| #[trigger] occurs_at(s, pat, i)
}

/// The format of a file named `filename` holding `content`.
pub open spec fn format_of(content: Seq<char>, filename: Seq<char>) -> ImportFormat {
    if has_suffix(filename, ".txt"@) {
        ImportFormat::Txt
    } else if has_infix(content, "\"rataria_version\""@) {
        ImportFormat::Ratazana
    } else {
        ImportFormat::GenericJson
    }
}

/// Whether `s` ends with `suffix` (std's `str::ends_with` on a text).
pub fn ends_with_text(s: &str, suffix: &str) -> (r: bool)
    ensures
        r == has_suffix(s@, suffix@),
{
    let a = chars_of(s);
    let b = chars_of(suffix);
    if b.len() > a.len() {
        return false;
    }
    let off = a.len() - b.len();
    let mut k: usize = 0;
    while k < b.len()
        invariant
            a@ == s@,
            b@ == suffix@,
            b@.len() <= a@.len(),
            off == a@.len() - b@.len(),
            off + b@.len() == a@.len(),
            a@.len() <= usize::MAX,
            k <= b@.len(),
            forall|j: int| 0 <= j < k ==> a@[off + j] == b@[j],
        decreases b@.len() - k,
    {
        if a[off + k] != b[k] {
            assert(s@.subrange(off as int, s@.len() as int)[k as int] != suffix@[k as int]);
            return false;
        }
        k = k + 1;
    }
    assert(s@.subrange(off as int, s@.len() as int) =~= suffix@);
    true
}

/// Whether `pat` occurs in `a` at position `i`.
fn matches_at(a: &Vec<char>, pat: &Vec<char>, i: usize) -> (r: bool)
    requires
        i + pat@.len() <= a@.len(),
    ensures
        r == occurs_at(a@, pat@, i as int),
{
    let mut k: usize = 0;
    while k < pat.len()
        invariant
            i + pat@.len() <= a@.len(),
            a@.len() == a.len(),
            k <= pat@.len(),
            forall|j: int| 0 <= j < k ==> a@[i + j] == pat@[j],
        decreases pat@.len() - k,
    {
        if a[i + k] != pat[k] {
            assert(a@.subrange(i as int, i + pat@.len())[k as int] != pat@[k as int]);
            return false;
        }
        k = k + 1;
    }
    assert(a@.subrange(i as int, i + pat@.len()) =~= pat@);
    true
}

/// Whether `pat` occurs in `s` (std's `str::contains` with a text pattern).
pub fn contains_text(s: &str, pat: &str) -> (r: bool)
    ensures
        r == has_infix(s@, pat@),
{
    let a = chars_of(s);
    let b = chars_of(pat);
    if b.len() > a.len() {
        assert(!has_infix(s@, pat@)) by {
            if has_infix(s@, pat@) {
                let i = choose|i: int| #[trigger] occurs_at(s@, pat@, i);
                assert(occurs_at(s@, pat@, i));
            }
        }
        return false;
    }
    let last = a.len() - b.len();
    let mut i: usize = 0;
    loop
        invariant
            a@ == s@,
            b@ == pat@,
            last == a@.len() - b@.len(),
            b@.len() <= a@.len(),
            i <= last,
            forall|j: int| 0 <= j < i ==> !occurs_at(s@, pat@, j),
        decreases last - i,
    {
        if matches_at(&a, &b, i) {
            assert(occurs_at(s@, pat@, i as int));
            return true;
        }
        if i == last {
            assert(!has_infix(s@, pat@)) by {
                if has_infix(s@, pat@) {
                    let j = choose|j: int| #[trigger] occurs_at(s@, pat@, j);
                    assert(occurs_at(s@, pat@, j));
                }
            }
            return false;
        }
        i = i + 1;
    }
}

/// The format of a file named `filename` holding `content`: `.txt` by its
/// name, else a ratazana scan when it holds the key `"rataria_version"`,
/// else the generic JSON format.
pub fn detect_import_format(content: &str, filename: &str) -> (r: ImportFormat)
    ensures
        r == format_of(content@, filename@),
{
    if ends_with_text(filename, ".txt") {
        ImportFormat::Txt
    } else if contains_text(content, "\"rataria_version\"") {
        ImportFormat::Ratazana
    } else {
        ImportFormat::GenericJson
    }
}

/// A list of subdomains given by name alone carries no technology and no URL.
proof fn lemma_simple_counts(s: Seq<crate::generic::GenericSubdomain>)
    requires
        all_simple(s),
    ensures
        count_sum(generic_tech_counts(s)) == 0,
        count_sum(generic_url_counts(s)) == 0,
    decreases s.len(),
{
    if s.len() > 0 {
        let p = s.drop_last();
        assert(generic_tech_counts(s).drop_last() =~= generic_tech_counts(p));
        assert(generic_url_counts(s).drop_last() =~= generic_url_counts(p));
        assert(s[s.len() - 1] is Simple);
        lemma_simple_counts(p);
    }
}

/// Imports the plain-text list `content`, one subdomain per line, under
/// target `target_for_txt` of engagement `engagement_name` (or "Imported").
///
/// It fails with an `ImportError`, changing nothing, when no target is
/// given, when the target is blank, or when the list names no subdomain.
pub fn import_txt(
    db: &mut Database,
    content: &str,
    engagement_name: Option<&str>,
    target_for_txt: Option<&str>,
) -> (r: Result<ImportReport, RatariaError>)
    requires
        old(db).wf(),
    ensures
        final(db).wf(),
        target_for_txt is None ==> (r matches Err(RatariaError::ImportError(m))
            && m@ == "Para importar .txt é necessário informar o target"@),
        match target_for_txt {
            Some(t) => trim_spec(t@).len() == 0 || txt_entries(split_lines(content@)).len() == 0,
            None => true,
        } ==> (r matches Err(RatariaError::ImportError(_)) && final(db).tables() == old(
            db,
        ).tables()),
        r matches Ok(rep) ==> (target_for_txt matches Some(t) && import_outcome(
            old(db).tables(),
            final(db).tables(),
            rep,
            chosen_engagement(
                match engagement_name {
                    Some(a) => Some(a@),
                    None => None,
                },
                match engagement_name {
                    Some(a) => Some(a@),
                    None => None,
                },
            ),
            t@,
            Seq::empty(),
            Seq::empty(),
            txt_entries(split_lines(content@)),
            0,
            0,
        )),
        r is Ok ==> target_for_txt is Some && exists|xs: Seq<ImportSubdomain>|
            #![trigger import_done_somewhere(old(db).tables(), final(db).tables(), r->Ok_0, chosen_engagement(crate::queries::str_view(engagement_name), crate::queries::str_view(engagement_name)), target_for_txt->0@, Seq::empty(), Seq::empty(), xs)]
            txt_imports(txt_entries(split_lines(content@)), xs) && import_done_somewhere(
                old(db).tables(),
                final(db).tables(),
                r->Ok_0,
                chosen_engagement(
                    crate::queries::str_view(engagement_name),
                    crate::queries::str_view(engagement_name),
                ),
                target_for_txt->0@,
                Seq::empty(),
                Seq::empty(),
                xs,
            ),
        r matches Err(e) ==> e is Database || e is IoError || e is ImportError,
{
    let target = match target_for_txt {
        Some(t) => t,
        None => {
            return Err(
                RatariaError::ImportError(
                    "Para importar .txt é necessário informar o target".to_owned(),
                ),
            );
        },
    };
    let file = match parse_txt(content, target, engagement_name) {
        Ok(f) => f,
        Err(e) => return Err(e),
    };
    proof {
        lemma_simple_counts(file.subdomains@);
    }
    assert(crate::importer::texts(file.ips@) =~= Seq::empty());
    assert(crate::generic::generic_asn_names(file.asns@) =~= Seq::empty());
    assert(crate::generic::generic_asn_views(file.asns@) =~= Seq::empty());
    let r = import(db, &file, engagement_name);
    proof {
        if r is Ok {
            let xs = choose|xs: Seq<ImportSubdomain>|
                {
                    &&& xs.len() == file.subdomains@.len()
                    &&& forall|i: int|
                        0 <= i < xs.len() ==> crate::generic::imports_generic(
                            file.subdomains@[i],
                            #[trigger] xs[i],
                        )
                    &&& #[trigger] import_done_somewhere(
                        old(db).tables(),
                        db.tables(),
                        r->Ok_0,
                        crate::generic::chosen_engagement(
                            crate::queries::str_view(engagement_name),
                            crate::store::opt_view(file.engagement),
                        ),
                        file.target@,
                        crate::importer::texts(file.ips@),
                        crate::generic::generic_asn_views(file.asns@),
                        xs,
                    )
                };
            assert(crate::store::opt_view(file.engagement) == crate::queries::str_view(engagement_name));
            assert forall|i: int| 0 <= i < xs.len() implies #[trigger] xs[i].subdomain@ == txt_entries(
                split_lines(content@),
            )[i] && xs[i].status_code is None && xs[i].title is None && xs[i].technologies@.len() == 0
                && xs[i].urls@.len() == 0 by {
                assert(file.subdomains@[i] is Simple);
                assert(crate::generic::subdomain_names(file.subdomains@)[i] == crate::generic::generic_subdomain_name(
                    file.subdomains@[i],
                ));
            }
            assert(txt_imports(txt_entries(split_lines(content@)), xs));
        }
    }
    r
}

/// Whether `xs` is what the plain-text entries `names` import: one
/// subdomain per entry, by that name, with nothing else.
pub open spec fn txt_imports(names: Seq<Seq<char>>, xs: Seq<ImportSubdomain>) -> bool {
    &&& xs.len() == names.len()
    &&& forall|i: int|
        0 <= i < xs.len() ==> (#[trigger] xs[i]).subdomain@ == names[i] && xs[i].status_code is None
            && xs[i].title is None && xs[i].technologies@.len() == 0 && xs[i].urls@.len() == 0
}

} // verus!
