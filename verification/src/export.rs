//! The Markdown report of an engagement: its targets with their IPs, ASNs
//! and subdomains, and for each subdomain its status, HTTP answer, notes,
//! technologies and URLs.

use vstd::prelude::*;
use crate::models::{
    Asn, Engagement, Ip, Subdomain, Target, Technology, Url, status_text, url_type_text,
};
use crate::db::Database;
use crate::error::RatariaError;
use crate::ids::report_timestamp;
use crate::queries::{
    asns_listing, get_engagement, ips_listing, list_asns, list_ips, list_subdomains,
    list_targets, list_technologies, list_urls, subdomains_listing, targets_listing,
    technologies_listing, url_is_row, urls_listing,
};
use crate::store::{engagement_row, opt_view, technology_row, Store};
use crate::sql::technology_ids;
use crate::text::{push_char, push_text};
use crate::textops::{alphanumeric, is_alphanumeric, lowercase, to_lower};
use crate::ids::file_timestamp;

verus! {

/// A subdomain with what was found on it.
pub struct SubdomainReport {
    pub subdomain: Subdomain,
    pub technologies: Vec<Technology>,
    pub urls: Vec<Url>,
}

/// A target with what was found on it.
pub struct TargetReport {
    pub target: Target,
    pub ips: Vec<Ip>,
    pub asns: Vec<Asn>,
    pub subdomains: Vec<SubdomainReport>,
}

/// The texts `f` gives for the elements of `s`, one after the other.
pub open spec fn concat_map<T>(s: Seq<T>, f: spec_fn(T) -> Seq<char>) -> Seq<char>
    decreases s.len(),
{
    if s.len() == 0 {
        Seq::empty()
    } else {
        concat_map(s.drop_last(), f) + f(s.last())
    }
}

/// The decimal digit of `d` (0 to 9).
pub open spec fn digit_char(d: int) -> char {
    (48 + d) as char
}

/// The decimal digits of `n`.
pub open spec fn digits(n: nat) -> Seq<char>
    decreases n,
{
    if n < 10 {
        seq![digit_char(n as int)]
    } else {
        digits(n / 10) + seq![digit_char((n % 10) as int)]
    }
}

/// `n` in decimal, with a leading `-` when negative.
pub open spec fn decimal(n: int) -> Seq<char> {
    if n < 0 {
        seq!['-'] + digits((-n) as nat)
    } else {
        digits(n as nat)
    }
}

/// Appends the decimal digits of `n`.
pub fn push_digits(out: &mut String, n: u64)
    ensures
        final(out)@ == old(out)@ + digits(n as nat),
    decreases n,
{
    if n >= 10 {
        push_digits(out, n / 10);
        let d = (n % 10) as u8;
        push_char(out, ((48 + d) as u8) as char);
    } else {
        let d = n as u8;
        push_char(out, ((48 + d) as u8) as char);
    }
}

/// Appends `n` in decimal.
pub fn push_decimal(out: &mut String, n: i32)
    ensures
        final(out)@ == old(out)@ + decimal(n as int),
{
    if n < 0 {
        push_char(out, '-');
        let m: i64 = -(n as i64);
        push_digits(out, m as u64);
    } else {
        push_digits(out, n as u64);
    }
}

/// The line of an IP.
pub open spec fn ip_line(ip: Ip) -> Seq<char> {
    "- "@ + ip.ip@ + "\n"@
}

/// The line of an ASN, with its organisation when known.
pub open spec fn asn_line(a: Asn) -> Seq<char> {
    match a.org {
        Some(o) => "- "@ + a.asn@ + " — "@ + o@ + "\n"@,
        None => "- "@ + a.asn@ + "\n"@,
    }
}

/// The line of a technology, with its version when known.
pub open spec fn tech_line(t: Technology) -> Seq<char> {
    match t.version {
        Some(v) => "- "@ + t.name@ + " v"@ + v@ + "\n"@,
        None => "- "@ + t.name@ + "\n"@,
    }
}

/// The line of a URL: its kind, then the URL.
pub open spec fn url_line(u: Url) -> Seq<char> {
    "- "@ + url_type_text(u.url_type) + ": "@ + u.url@ + "\n"@
}

/// The HTTP line of a subdomain: status code and title, when a code is known.
pub open spec fn http_part(s: Subdomain) -> Seq<char> {
    match s.status_code {
        Some(c) => "- **HTTP:** "@ + decimal(c as int) + " "@ + (match s.title {
            Some(t) => t@,
            None => Seq::empty(),
        }) + "\n"@,
        None => Seq::empty(),
    }
}

/// The notes line of a subdomain, when it has notes.
pub open spec fn notes_part(s: Subdomain) -> Seq<char> {
    match s.notes {
        Some(n) => "- **Notas:** "@ + n@ + "\n"@,
        None => Seq::empty(),
    }
}

/// The technologies of a subdomain, when it has any.
pub open spec fn techs_part(t: Seq<Technology>) -> Seq<char> {
    if t.len() == 0 {
        Seq::empty()
    } else {
        "\n"@ + "**Technologies:**\n\n"@ + concat_map(t, |x: Technology| tech_line(x))
    }
}

/// The URLs of a subdomain, when it has any.
pub open spec fn urls_part(u: Seq<Url>) -> Seq<char> {
    if u.len() == 0 {
        Seq::empty()
    } else {
        "\n"@ + "**URLs:**\n\n"@ + concat_map(u, |x: Url| url_line(x))
    }
}

/// The heading and status lines of a subdomain.
pub open spec fn subdomain_head(s: Subdomain) -> Seq<char> {
    "#### "@ + s.subdomain@ + "\n\n"@ + "- **Status:** "@ + status_text(s.status) + "\n"@
}

/// The block of a subdomain.
pub open spec fn subdomain_block(r: SubdomainReport) -> Seq<char> {
    subdomain_head(r.subdomain) + http_part(r.subdomain) + notes_part(r.subdomain) + techs_part(
        r.technologies@,
    ) + urls_part(r.urls@) + "\n"@
}

/// The IPs of a target, when it has any.
pub open spec fn ips_part(v: Seq<Ip>) -> Seq<char> {
    if v.len() == 0 {
        Seq::empty()
    } else {
        "### IPs\n\n"@ + concat_map(v, |i: Ip| ip_line(i)) + "\n"@
    }
}

/// The ASNs of a target, when it has any.
pub open spec fn asns_part(v: Seq<Asn>) -> Seq<char> {
    if v.len() == 0 {
        Seq::empty()
    } else {
        "### ASNs\n\n"@ + concat_map(v, |a: Asn| asn_line(a)) + "\n"@
    }
}

/// The subdomains of a target, when it has any.
pub open spec fn subs_part(v: Seq<SubdomainReport>) -> Seq<char> {
    if v.len() == 0 {
        Seq::empty()
    } else {
        "### Subdomains\n\n"@ + concat_map(v, |s: SubdomainReport| subdomain_block(s))
    }
}

/// The block of a target.
pub open spec fn target_block(r: TargetReport) -> Seq<char> {
    "## Target: "@ + r.target.domain@ + "\n\n"@ + ips_part(r.ips@) + asns_part(r.asns@) + subs_part(
        r.subdomains@,
    ) + "---\n\n"@
}

/// The report of engagement `e`, generated at `generated_at`, over `targets`.
pub open spec fn markdown_spec(e: Engagement, generated_at: Seq<char>, targets: Seq<TargetReport>) -> Seq<
    char,
> {
    "# Engagement: "@ + e.name@ + "\n\n"@ + (match e.description {
        Some(d) => "**Descrição:** "@ + d@ + "\n\n"@,
        None => Seq::empty(),
    }) + "**Gerado em:** "@ + generated_at + "\n\n"@ + "---\n\n"@ + (if targets.len() == 0 {
        "*Nenhum target cadastrado.*\n"@
    } else {
        concat_map(targets, |t: TargetReport| target_block(t))
    })
}

/// Appends the lines of `ips`.
fn push_ip_lines(out: &mut String, ips: &Vec<Ip>)
    ensures
        final(out)@ == old(out)@ + concat_map(ips@, |i: Ip| ip_line(i)),
{
    let mut k: usize = 0;
    while k < ips.len()
        invariant
            k <= ips@.len(),
            out@ == old(out)@ + concat_map(ips@.take(k as int), |i: Ip| ip_line(i)),
        decreases ips@.len() - k,
    {
        assert(ips@.take(k + 1).drop_last() =~= ips@.take(k as int));
        push_text(out, "- ");
        push_text(out, ips[k].ip.as_str());
        push_text(out, "\n");
        k = k + 1;
    }
    assert(ips@.take(ips@.len() as int) =~= ips@);
}

/// Appends the lines of `asns`.
fn push_asn_lines(out: &mut String, asns: &Vec<Asn>)
    ensures
        final(out)@ == old(out)@ + concat_map(asns@, |a: Asn| asn_line(a)),
{
    let mut k: usize = 0;
    while k < asns.len()
        invariant
            k <= asns@.len(),
            out@ == old(out)@ + concat_map(asns@.take(k as int), |a: Asn| asn_line(a)),
        decreases asns@.len() - k,
    {
        assert(asns@.take(k + 1).drop_last() =~= asns@.take(k as int));
        let a = &asns[k];
        push_text(out, "- ");
        push_text(out, a.asn.as_str());
        match &a.org {
            Some(o) => {
                push_text(out, " — ");
                push_text(out, o.as_str());
            },
            None => {},
        }
        push_text(out, "\n");
        k = k + 1;
    }
    assert(asns@.take(asns@.len() as int) =~= asns@);
}

/// Appends the lines of `techs`.
fn push_tech_lines(out: &mut String, techs: &Vec<Technology>)
    ensures
        final(out)@ == old(out)@ + concat_map(techs@, |t: Technology| tech_line(t)),
{
    let mut k: usize = 0;
    while k < techs.len()
        invariant
            k <= techs@.len(),
            out@ == old(out)@ + concat_map(techs@.take(k as int), |t: Technology| tech_line(t)),
        decreases techs@.len() - k,
    {
        assert(techs@.take(k + 1).drop_last() =~= techs@.take(k as int));
        let t = &techs[k];
        push_text(out, "- ");
        push_text(out, t.name.as_str());
        match &t.version {
            Some(v) => {
                push_text(out, " v");
                push_text(out, v.as_str());
            },
            None => {},
        }
        push_text(out, "\n");
        k = k + 1;
    }
    assert(techs@.take(techs@.len() as int) =~= techs@);
}

/// Appends the lines of `urls`.
fn push_url_lines(out: &mut String, urls: &Vec<Url>)
    ensures
        final(out)@ == old(out)@ + concat_map(urls@, |u: Url| url_line(u)),
{
    let mut k: usize = 0;
    while k < urls.len()
        invariant
            k <= urls@.len(),
            out@ == old(out)@ + concat_map(urls@.take(k as int), |u: Url| url_line(u)),
        decreases urls@.len() - k,
    {
        assert(urls@.take(k + 1).drop_last() =~= urls@.take(k as int));
        let u = &urls[k];
        push_text(out, "- ");
        push_text(out, u.url_type.as_str());
        push_text(out, ": ");
        push_text(out, u.url.as_str());
        push_text(out, "\n");
        k = k + 1;
    }
    assert(urls@.take(urls@.len() as int) =~= urls@);
}

} // verus!

verus! {

/// Appends the heading and status lines of a subdomain.
fn push_subdomain_head(out: &mut String, s: &Subdomain)
    ensures
        final(out)@ == old(out)@ + subdomain_head(*s),
{
    push_text(out, "#### ");
    push_text(out, s.subdomain.as_str());
    push_text(out, "\n\n");
    push_text(out, "- **Status:** ");
    push_text(out, s.status.as_str());
    push_text(out, "\n");
    assert(out@ =~= old(out)@ + subdomain_head(*s));
}

/// Appends the HTTP line of a subdomain.
fn push_http_part(out: &mut String, s: &Subdomain)
    ensures
        final(out)@ == old(out)@ + http_part(*s),
{
    match s.status_code {
        Some(code) => {
            push_text(out, "- **HTTP:** ");
            push_decimal(out, code);
            push_text(out, " ");
            match &s.title {
                Some(t) => push_text(out, t.as_str()),
                None => {},
            }
            push_text(out, "\n");
            assert(out@ =~= old(out)@ + http_part(*s));
        },
        None => {
            assert(out@ =~= old(out)@ + http_part(*s));
        },
    }
}

/// Appends the notes line of a subdomain.
fn push_notes_part(out: &mut String, s: &Subdomain)
    ensures
        final(out)@ == old(out)@ + notes_part(*s),
{
    match &s.notes {
        Some(n) => {
            push_text(out, "- **Notas:** ");
            push_text(out, n.as_str());
            push_text(out, "\n");
            assert(out@ =~= old(out)@ + notes_part(*s));
        },
        None => {
            assert(out@ =~= old(out)@ + notes_part(*s));
        },
    }
}

/// Appends the technologies of a subdomain.
fn push_techs_part(out: &mut String, t: &Vec<Technology>)
    ensures
        final(out)@ == old(out)@ + techs_part(t@),
{
    if t.len() > 0 {
        push_text(out, "\n");
        push_text(out, "**Technologies:**\n\n");
        push_tech_lines(out, t);
    }
    assert(out@ =~= old(out)@ + techs_part(t@));
}

/// Appends the URLs of a subdomain.
fn push_urls_part(out: &mut String, u: &Vec<Url>)
    ensures
        final(out)@ == old(out)@ + urls_part(u@),
{
    if u.len() > 0 {
        push_text(out, "\n");
        push_text(out, "**URLs:**\n\n");
        push_url_lines(out, u);
    }
    assert(out@ =~= old(out)@ + urls_part(u@));
}

/// Appends the block of one subdomain.
fn push_subdomain_block(out: &mut String, r: &SubdomainReport)
    ensures
        final(out)@ == old(out)@ + subdomain_block(*r),
{
    let ghost o = out@;
    push_subdomain_head(out, &r.subdomain);
    push_http_part(out, &r.subdomain);
    push_notes_part(out, &r.subdomain);
    push_techs_part(out, &r.technologies);
    push_urls_part(out, &r.urls);
    push_text(out, "\n");
    assert(out@ =~= o + subdomain_block(*r));
}

/// Appends the blocks of `subs`.
fn push_subdomain_blocks(out: &mut String, subs: &Vec<SubdomainReport>)
    ensures
        final(out)@ == old(out)@ + concat_map(subs@, |s: SubdomainReport| subdomain_block(s)),
{
    let mut k: usize = 0;
    while k < subs.len()
        invariant
            k <= subs@.len(),
            out@ == old(out)@ + concat_map(
                subs@.take(k as int),
                |s: SubdomainReport| subdomain_block(s),
            ),
        decreases subs@.len() - k,
    {
        assert(subs@.take(k + 1).drop_last() =~= subs@.take(k as int));
        push_subdomain_block(out, &subs[k]);
        k = k + 1;
    }
    assert(subs@.take(subs@.len() as int) =~= subs@);
}

/// Appends the IPs of a target.
fn push_ips_part(out: &mut String, v: &Vec<Ip>)
    ensures
        final(out)@ == old(out)@ + ips_part(v@),
{
    if v.len() > 0 {
        push_text(out, "### IPs\n\n");
        push_ip_lines(out, v);
        push_text(out, "\n");
    }
    assert(out@ =~= old(out)@ + ips_part(v@));
}

/// Appends the ASNs of a target.
fn push_asns_part(out: &mut String, v: &Vec<Asn>)
    ensures
        final(out)@ == old(out)@ + asns_part(v@),
{
    if v.len() > 0 {
        push_text(out, "### ASNs\n\n");
        push_asn_lines(out, v);
        push_text(out, "\n");
    }
    assert(out@ =~= old(out)@ + asns_part(v@));
}

/// Appends the subdomains of a target.
fn push_subs_part(out: &mut String, v: &Vec<SubdomainReport>)
    ensures
        final(out)@ == old(out)@ + subs_part(v@),
{
    if v.len() > 0 {
        push_text(out, "### Subdomains\n\n");
        push_subdomain_blocks(out, v);
    }
    assert(out@ =~= old(out)@ + subs_part(v@));
}

/// Appends the block of one target.
fn push_target_block(out: &mut String, r: &TargetReport)
    ensures
        final(out)@ == old(out)@ + target_block(*r),
{
    let ghost o = out@;
    push_text(out, "## Target: ");
    push_text(out, r.target.domain.as_str());
    push_text(out, "\n\n");
    push_ips_part(out, &r.ips);
    push_asns_part(out, &r.asns);
    push_subs_part(out, &r.subdomains);
    push_text(out, "---\n\n");
    assert(out@ =~= o + target_block(*r));
}

/// The Markdown report of engagement `engagement`, generated at
/// `generated_at`, over the targets `targets` and what was found on them.
pub fn render_engagement_markdown(
    engagement: &Engagement,
    generated_at: &str,
    targets: &Vec<TargetReport>,
) -> (r: String)
    ensures
        r@ == markdown_spec(*engagement, generated_at@, targets@),
{
    let mut md = String::new();
    push_text(&mut md, "# Engagement: ");
    push_text(&mut md, engagement.name.as_str());
    push_text(&mut md, "\n\n");
    match &engagement.description {
        Some(d) => {
            push_text(&mut md, "**Descrição:** ");
            push_text(&mut md, d.as_str());
            push_text(&mut md, "\n\n");
        },
        None => {},
    }
    push_text(&mut md, "**Gerado em:** ");
    push_text(&mut md, generated_at);
    push_text(&mut md, "\n\n");
    push_text(&mut md, "---\n\n");
    let ghost head = md@;
    if targets.len() == 0 {
        push_text(&mut md, "*Nenhum target cadastrado.*\n");
        assert(md@ =~= markdown_spec(*engagement, generated_at@, targets@));
        return md;
    }
    let mut k: usize = 0;
    while k < targets.len()
        invariant
            k <= targets@.len(),
            md@ == head + concat_map(targets@.take(k as int), |t: TargetReport| target_block(t)),
        decreases targets@.len() - k,
    {
        assert(targets@.take(k + 1).drop_last() =~= targets@.take(k as int));
        push_target_block(&mut md, &targets[k]);
        k = k + 1;
    }
    assert(targets@.take(targets@.len() as int) =~= targets@);
    assert(md@ =~= markdown_spec(*engagement, generated_at@, targets@));
    md
}

} // verus!

verus! {

/// Whether `r` holds what the store lists of its subdomain: its
/// technologies and its URLs.
pub open spec fn subdomain_report_of(t: Store, r: SubdomainReport) -> bool {
    &&& technologies_listing(t, r.subdomain.id@, r.technologies@)
    &&& urls_listing(t, r.subdomain.id@, r.urls@)
}

/// The subdomains that the reports `v` are about.
pub open spec fn report_subdomains(v: Seq<SubdomainReport>) -> Seq<Subdomain> {
    v.map_values(|s: SubdomainReport| s.subdomain)
}

/// Whether `r` holds what the store lists of its target: its IPs, its ASNs
/// and its subdomains, each with what the store lists of it.
pub open spec fn target_report_of(t: Store, r: TargetReport) -> bool {
    &&& ips_listing(t, r.target.id@, r.ips@)
    &&& asns_listing(t, r.target.id@, r.asns@)
    &&& subdomains_listing(t, r.target.id@, report_subdomains(r.subdomains@))
    &&& forall|i: int|
        0 <= i < r.subdomains@.len() ==> subdomain_report_of(t, #[trigger] r.subdomains@[i])
}

/// The targets that the reports `v` are about.
pub open spec fn report_targets(v: Seq<TargetReport>) -> Seq<Target> {
    v.map_values(|r: TargetReport| r.target)
}

/// Whether `reps` holds what the store lists of engagement `engagement_id`:
/// its targets, each with what the store lists of it.
pub open spec fn engagement_report_of(t: Store, engagement_id: Seq<char>, reps: Seq<TargetReport>) -> bool {
    &&& targets_listing(t, engagement_id, report_targets(reps))
    &&& forall|i: int| 0 <= i < reps.len() ==> target_report_of(t, #[trigger] reps[i])
}

/// Reads the technologies and URLs of each subdomain of `subs`.
pub fn subdomain_reports(db: &Database, subs: Vec<Subdomain>) -> (r: Result<
    Vec<SubdomainReport>,
    RatariaError,
>)
    ensures
        r matches Ok(v) ==> report_subdomains(v@) == subs@ && forall|i: int|
            0 <= i < v@.len() ==> subdomain_report_of(db.tables(), #[trigger] v@[i]),
        r matches Err(e) ==> e is Database,
{
    let mut subs = subs;
    let ghost all = subs@;
    let mut out: Vec<SubdomainReport> = Vec::new();
    while subs.len() > 0
        invariant
            out@.len() + subs@.len() == all.len(),
            subs@ == all.skip(out@.len() as int),
            forall|i: int| 0 <= i < out@.len() ==> (#[trigger] out@[i]).subdomain == all[i],
            forall|i: int|
                0 <= i < out@.len() ==> subdomain_report_of(db.tables(), #[trigger] out@[i]),
        decreases subs@.len(),
    {
        let ghost k = out@.len() as int;
        assert(subs@[0] == all[k]);
        let s = subs.remove(0);
        assert(subs@ =~= all.skip(k + 1));
        let technologies = match list_technologies(db, s.id.as_str()) {
            Ok(v) => v,
            Err(e) => return Err(e),
        };
        let urls = match list_urls(db, s.id.as_str()) {
            Ok(v) => v,
            Err(e) => return Err(e),
        };
        out.push(SubdomainReport { subdomain: s, technologies, urls });
    }
    assert(report_subdomains(out@) =~= all);
    Ok(out)
}

/// Reads the IPs, ASNs and subdomains of each target of `targets`, with what
/// was found on each subdomain.
pub fn target_reports(db: &Database, targets: Vec<Target>) -> (r: Result<
    Vec<TargetReport>,
    RatariaError,
>)
    ensures
        r matches Ok(v) ==> report_targets(v@) == targets@ && forall|i: int|
            0 <= i < v@.len() ==> target_report_of(db.tables(), #[trigger] v@[i]),
        r matches Err(e) ==> e is Database,
{
    let mut targets = targets;
    let ghost all = targets@;
    let mut out: Vec<TargetReport> = Vec::new();
    while targets.len() > 0
        invariant
            out@.len() + targets@.len() == all.len(),
            targets@ == all.skip(out@.len() as int),
            forall|i: int| 0 <= i < out@.len() ==> (#[trigger] out@[i]).target == all[i],
            forall|i: int|
                0 <= i < out@.len() ==> target_report_of(db.tables(), #[trigger] out@[i]),
        decreases targets@.len(),
    {
        let ghost k = out@.len() as int;
        assert(targets@[0] == all[k]);
        let t = targets.remove(0);
        assert(targets@ =~= all.skip(k + 1));
        let ips = match list_ips(db, t.id.as_str()) {
            Ok(v) => v,
            Err(e) => return Err(e),
        };
        let asns = match list_asns(db, t.id.as_str()) {
            Ok(v) => v,
            Err(e) => return Err(e),
        };
        let subs = match list_subdomains(db, t.id.as_str()) {
            Ok(v) => v,
            Err(e) => return Err(e),
        };
        let subdomains = match subdomain_reports(db, subs) {
            Ok(v) => v,
            Err(e) => return Err(e),
        };
        let rep = TargetReport { target: t, ips, asns, subdomains };
        assert(target_report_of(db.tables(), rep));
        out.push(rep);
    }
    assert(report_targets(out@) =~= all);
    Ok(out)
}

/// Reads engagement `engagement_id` and what the store lists of it, for its
/// report.
///
/// It fails with `NotFound("Engagement não encontrado")` when there is no
/// such engagement.
pub fn engagement_report(db: &Database, engagement_id: &str) -> (r: Result<
    (Engagement, Vec<TargetReport>),
    RatariaError,
>)
    ensures
        r matches Ok((e, reps)) ==> {
            &&& e.id@ == engagement_id@
            &&& db.tables().engagements.contains_key(engagement_id@)
            &&& db.tables().engagements[engagement_id@] == engagement_row(e)
            &&& engagement_report_of(db.tables(), engagement_id@, reps@)
        },
        !db.tables().engagements.contains_key(engagement_id@) ==> r is Err && (r->Err_0 is NotFound
            || r->Err_0 is Database),
        r matches Err(RatariaError::NotFound(m)) ==> m@ == "Engagement não encontrado"@
            && !db.tables().engagements.contains_key(engagement_id@),
        r matches Err(e) ==> e is Database || e is NotFound,
{
    let engagement = match get_engagement(db, engagement_id) {
        Ok(Some(e)) => e,
        Ok(None) => return Err(RatariaError::NotFound("Engagement não encontrado".to_owned())),
        Err(e) => return Err(e),
    };
    let targets = match list_targets(db, engagement.id.as_str()) {
        Ok(v) => v,
        Err(e) => return Err(e),
    };
    let reps = match target_reports(db, targets) {
        Ok(v) => v,
        Err(e) => return Err(e),
    };
    Ok((engagement, reps))
}

/// Whether `md` is a report of engagement `engagement_id` as store `t`
/// holds it: the report of the engagement's row over what the store lists
/// of it, at some time of generation.
pub open spec fn is_report_of(t: Store, engagement_id: Seq<char>, md: Seq<char>) -> bool {
    exists|e: Engagement, at: Seq<char>, reps: Seq<TargetReport>|
        {
            &&& #[trigger] markdown_spec(e, at, reps) == md
            &&& e.id@ == engagement_id
            &&& t.engagements.contains_key(engagement_id)
            &&& t.engagements[engagement_id] == engagement_row(e)
            &&& engagement_report_of(t, engagement_id, reps)
        }
}

/// The Markdown report of engagement `engagement_id`, stamped with the
/// current time.
///
/// It fails with `NotFound("Engagement não encontrado")` when there is no
/// such engagement. On success the report is that of the engagement's row,
/// over what the store lists of it, at some time of generation.
pub fn export_engagement_markdown(db: &Database, engagement_id: &str) -> (r: Result<
    String,
    RatariaError,
>)
    ensures
        r matches Ok(md) ==> is_report_of(db.tables(), engagement_id@, md@),
        !db.tables().engagements.contains_key(engagement_id@) ==> r is Err && (r->Err_0 is NotFound
            || r->Err_0 is Database),
        r matches Err(RatariaError::NotFound(m)) ==> m@ == "Engagement não encontrado"@
            && !db.tables().engagements.contains_key(engagement_id@),
        r matches Err(e) ==> e is Database || e is NotFound || e is IoError,
{
    match engagement_report(db, engagement_id) {
        Ok((engagement, reps)) => {
            let generated_at = match report_timestamp() {
                Ok(t) => t,
                Err(e) => return Err(RatariaError::IoError(e)),
            };
            let md = render_engagement_markdown(&engagement, generated_at.as_str(), &reps);
            assert(markdown_spec(engagement, generated_at@, reps@) == md@);
            Ok(md)
        },
        Err(e) => Err(e),
    }
}

} // verus!

verus! {

/// The character that stands for `c` in a file name: `c` itself when it is
/// alphanumeric or `-`, else `_`.
pub open spec fn file_name_char(c: char) -> char {
    if alphanumeric(c) || c == '-' {
        c
    } else {
        '_'
    }
}

/// The name of an engagement as it stands in a report's file name: each
/// character that is not alphanumeric or `-` made `_`, then lowercased.
pub open spec fn safe_name_spec(name: Seq<char>) -> Seq<char> {
    lowercase(name.map_values(|c: char| file_name_char(c)))
}

/// The path of a report in directory `home` (`.` when there is none) for an
/// engagement whose safe name is `safe_name`, stamped `timestamp`.
pub open spec fn report_path_spec(home: Option<Seq<char>>, safe_name: Seq<char>, timestamp: Seq<
    char,
>) -> Seq<char> {
    (match home {
        Some(h) => h,
        None => "."@,
    }) + "/rataria_"@ + safe_name + "_"@ + timestamp + ".md"@
}

/// The name of engagement `name` as it stands in a report's file name.
pub fn safe_report_name(name: &str) -> (r: String)
    ensures
        r@ == safe_name_spec(name@),
{
    let chars = crate::text::chars_of(name);
    let mut mapped = String::new();
    let mut k: usize = 0;
    while k < chars.len()
        invariant
            k <= chars@.len(),
            chars@ == name@,
            mapped@ == name@.take(k as int).map_values(|c: char| file_name_char(c)),
        decreases chars@.len() - k,
    {
        let c = chars[k];
        let keep = is_alphanumeric(c) || c == '-';
        if keep {
            push_char(&mut mapped, c);
        } else {
            push_char(&mut mapped, '_');
        }
        assert(name@.take(k + 1).map_values(|c: char| file_name_char(c)) =~= name@.take(
            k as int,
        ).map_values(|c: char| file_name_char(c)).push(file_name_char(c)));
        k = k + 1;
    }
    assert(name@.take(chars@.len() as int) =~= name@);
    to_lower(mapped.as_str())
}

/// The path of a report in directory `home` (`.` when there is none) for an
/// engagement whose safe name is `safe_name`, stamped `timestamp`.
pub fn report_path(home: Option<String>, safe_name: &str, timestamp: &str) -> (r: String)
    ensures
        r@ == report_path_spec(opt_view(home), safe_name@, timestamp@),
{
    let mut p = match home {
        Some(h) => h,
        None => ".".to_owned(),
    };
    push_text(&mut p, "/rataria_");
    push_text(&mut p, safe_name);
    push_text(&mut p, "_");
    push_text(&mut p, timestamp);
    push_text(&mut p, ".md");
    p
}

/// `dirs`'s `home_dir()`, as text. It depends on the environment, so nothing
/// is stated of it.
#[verifier::external_body]
fn home_dir_text() -> (r: Option<String>) {
    dirs::home_dir().map(|p| p.display().to_string())
}

/// Whether `path` is a default path of the report of engagement `name`: in
/// some home directory, stamped with some time.
pub open spec fn is_report_path_for(name: Seq<char>, path: Seq<char>) -> bool {
    exists|home: Option<Seq<char>>, timestamp: Seq<char>|
        path == #[trigger] report_path_spec(home, safe_name_spec(name), timestamp)
}

/// The default path of the report of engagement `engagement_name`: in the
/// home directory (`.` when there is none), named after the engagement and
/// the current time.
///
/// It fails with `IoError` when the clock cannot be read.
pub fn default_report_path(engagement_name: &str) -> (r: Result<String, RatariaError>)
    ensures
        r matches Ok(p) ==> is_report_path_for(engagement_name@, p@),
        r matches Err(e) ==> e is IoError,
{
    let safe = safe_report_name(engagement_name);
    let timestamp = match file_timestamp() {
        Ok(t) => t,
        Err(e) => return Err(RatariaError::IoError(e)),
    };
    let home = home_dir_text();
    let ghost h = opt_view(home);
    let r = report_path(home, safe.as_str(), timestamp.as_str());
    assert(r@ == report_path_spec(h, safe_name_spec(engagement_name@), timestamp@));
    Ok(r)
}

} // verus!

verus! {

/// Whether `part` occurs in `whole` as a run of consecutive characters.
pub open spec fn occurs_in(part: Seq<char>, whole: Seq<char>) -> bool {
    exists|p: int|
        0 <= p && p + part.len() <= whole.len() && #[trigger] whole.subrange(p, p + part.len())
            == part
}

/// What occurs in `a` occurs in `a` followed by `b`.
proof fn lemma_occurs_before(x: Seq<char>, a: Seq<char>, b: Seq<char>)
    requires
        occurs_in(x, a),
    ensures
        occurs_in(x, a + b),
{
    let p = choose|p: int|
        0 <= p && p + x.len() <= a.len() && #[trigger] a.subrange(p, p + x.len()) == x;
    assert((a + b).subrange(p, p + x.len()) =~= a.subrange(p, p + x.len()));
}

/// What occurs in `b` occurs in `a` followed by `b`.
proof fn lemma_occurs_after(x: Seq<char>, a: Seq<char>, b: Seq<char>)
    requires
        occurs_in(x, b),
    ensures
        occurs_in(x, a + b),
{
    let p = choose|p: int|
        0 <= p && p + x.len() <= b.len() && #[trigger] b.subrange(p, p + x.len()) == x;
    assert((a + b).subrange(a.len() + p, a.len() + p + x.len()) =~= b.subrange(p, p + x.len()));
}

/// A text occurs in itself.
proof fn lemma_occurs_self(x: Seq<char>)
    ensures
        occurs_in(x, x),
{
    assert(x.subrange(0int, 0int + x.len()) =~= x);
}

/// What occurs in a part of `z` occurs in `z`.
proof fn lemma_occurs_trans(x: Seq<char>, y: Seq<char>, z: Seq<char>)
    requires
        occurs_in(x, y),
        occurs_in(y, z),
    ensures
        occurs_in(x, z),
{
    let p = choose|p: int|
        0 <= p && p + x.len() <= y.len() && #[trigger] y.subrange(p, p + x.len()) == x;
    let q = choose|q: int|
        0 <= q && q + y.len() <= z.len() && #[trigger] z.subrange(q, q + y.len()) == y;
    assert(z.subrange(q + p, q + p + x.len()) =~= y.subrange(p, p + x.len()));
}

/// The text of each element occurs in the texts of all of them.
proof fn lemma_concat_map_occurs<T>(s: Seq<T>, f: spec_fn(T) -> Seq<char>, i: int)
    requires
        0 <= i < s.len(),
    ensures
        occurs_in(f(s[i]), concat_map(s, f)),
    decreases s.len(),
{
    lemma_occurs_self(f(s[i]));
    if i == s.len() - 1 {
        lemma_occurs_after(f(s[i]), concat_map(s.drop_last(), f), f(s.last()));
    } else {
        lemma_concat_map_occurs(s.drop_last(), f, i);
        assert(s.drop_last()[i] == s[i]);
        lemma_occurs_before(f(s[i]), concat_map(s.drop_last(), f), f(s.last()));
    }
}

/// The heading line of a subdomain in a report.
pub open spec fn subdomain_heading(name: Seq<char>) -> Seq<char> {
    "#### "@ + name + "\n\n"@
}

/// The block of each target occurs in the report.
proof fn lemma_target_block_occurs(e: Engagement, at: Seq<char>, targets: Seq<TargetReport>, i: int)
    requires
        0 <= i < targets.len(),
    ensures
        occurs_in(target_block(targets[i]), markdown_spec(e, at, targets)),
{
    let ft = |x: TargetReport| target_block(x);
    lemma_concat_map_occurs(targets, ft, i);
    let top = "# Engagement: "@ + e.name@ + "\n\n"@ + (match e.description {
        Some(d) => "**Descrição:** "@ + d@ + "\n\n"@,
        None => Seq::empty(),
    }) + "**Gerado em:** "@ + at + "\n\n"@ + "---\n\n"@;
    lemma_occurs_after(target_block(targets[i]), top, concat_map(targets, ft));
    assert(markdown_spec(e, at, targets) == top + concat_map(targets, ft));
}

/// The part of a target block before its subdomains.
pub open spec fn target_top(r: TargetReport) -> Seq<char> {
    "## Target: "@ + r.target.domain@ + "\n\n"@ + ips_part(r.ips@) + asns_part(r.asns@)
}

/// What occurs in the first part of a target block, or in its Subdomains
/// section, occurs in the block.
proof fn lemma_in_target_block(x: Seq<char>, r: TargetReport)
    requires
        occurs_in(x, target_top(r)) || occurs_in(x, subs_part(r.subdomains@)),
    ensures
        occurs_in(x, target_block(r)),
{
    if occurs_in(x, target_top(r)) {
        lemma_occurs_before(x, target_top(r), subs_part(r.subdomains@));
    } else {
        lemma_occurs_after(x, target_top(r), subs_part(r.subdomains@));
    }
    lemma_occurs_before(x, target_top(r) + subs_part(r.subdomains@), "---\n\n"@);
    assert(target_block(r) =~= target_top(r) + subs_part(r.subdomains@) + "---\n\n"@);
}

/// The block of each subdomain of a target occurs in the target's block.
proof fn lemma_subdomain_block_occurs(r: TargetReport, j: int)
    requires
        0 <= j < r.subdomains@.len(),
    ensures
        occurs_in(subdomain_block(r.subdomains@[j]), target_block(r)),
{
    let v = r.subdomains@;
    let fs = |x: SubdomainReport| subdomain_block(x);
    lemma_concat_map_occurs(v, fs, j);
    lemma_occurs_after(subdomain_block(v[j]), "### Subdomains\n\n"@, concat_map(v, fs));
    lemma_in_target_block(subdomain_block(v[j]), r);
}

/// Every subdomain of every target of a report has its heading in the
/// report: the Subdomains section of a target holds a block for each of its
/// subdomains, not only for the first.
pub proof fn law_report_has_every_subdomain_heading(
    e: Engagement,
    at: Seq<char>,
    targets: Seq<TargetReport>,
    i: int,
    j: int,
)
    requires
        0 <= i < targets.len(),
        0 <= j < targets[i].subdomains@.len(),
    ensures
        occurs_in(
            subdomain_heading(targets[i].subdomains@[j].subdomain.subdomain@),
            markdown_spec(e, at, targets),
        ),
{
    let r = targets[i];
    let s = r.subdomains@[j].subdomain;
    let h = subdomain_heading(s.subdomain@);
    let head = subdomain_head(s);
    let status = "- **Status:** "@ + status_text(s.status) + "\n"@;
    assert(head =~= h + status);
    lemma_occurs_self(h);
    lemma_occurs_before(h, h, status);
    let block = subdomain_block(r.subdomains@[j]);
    let rest = http_part(s) + notes_part(s) + techs_part(r.subdomains@[j].technologies@) + urls_part(
        r.subdomains@[j].urls@,
    ) + "\n"@;
    assert(block =~= head + rest);
    lemma_occurs_self(head);
    lemma_occurs_before(head, head, rest);
    lemma_occurs_trans(h, head, block);
    lemma_subdomain_block_occurs(r, j);
    lemma_occurs_trans(h, block, target_block(r));
    lemma_target_block_occurs(e, at, targets, i);
    lemma_occurs_trans(h, target_block(r), markdown_spec(e, at, targets));
}

/// Every IP and every ASN of every target of a report, and every technology
/// and every URL of each of its subdomains, has its line in the report.
pub proof fn law_report_has_every_line(
    e: Engagement,
    at: Seq<char>,
    targets: Seq<TargetReport>,
    i: int,
)
    requires
        0 <= i < targets.len(),
    ensures
        forall|a: int|
            0 <= a < targets[i].ips@.len() ==> occurs_in(
                ip_line(#[trigger] targets[i].ips@[a]),
                markdown_spec(e, at, targets),
            ),
        forall|a: int|
            0 <= a < targets[i].asns@.len() ==> occurs_in(
                asn_line(#[trigger] targets[i].asns@[a]),
                markdown_spec(e, at, targets),
            ),
        forall|j: int, k: int|
            0 <= j < targets[i].subdomains@.len() && 0 <= k
                < targets[i].subdomains@[j].technologies@.len() ==> occurs_in(
                tech_line(#[trigger] targets[i].subdomains@[j].technologies@[k]),
                markdown_spec(e, at, targets),
            ),
        forall|j: int, k: int|
            0 <= j < targets[i].subdomains@.len() && 0 <= k < targets[i].subdomains@[j].urls@.len()
                ==> occurs_in(
                url_line(#[trigger] targets[i].subdomains@[j].urls@[k]),
                markdown_spec(e, at, targets),
            ),
{
    let r = targets[i];
    let md = markdown_spec(e, at, targets);
    lemma_target_block_occurs(e, at, targets, i);
    let pre = "## Target: "@ + r.target.domain@ + "\n\n"@;
    assert(target_top(r) == pre + ips_part(r.ips@) + asns_part(r.asns@));
    assert forall|a: int| 0 <= a < r.ips@.len() implies occurs_in(
        ip_line(#[trigger] r.ips@[a]),
        md,
    ) by {
        let x = ip_line(r.ips@[a]);
        let fi = |y: Ip| ip_line(y);
        lemma_concat_map_occurs(r.ips@, fi, a);
        lemma_occurs_after(x, "### IPs\n\n"@, concat_map(r.ips@, fi));
        lemma_occurs_before(x, "### IPs\n\n"@ + concat_map(r.ips@, fi), "\n"@);
        lemma_occurs_after(x, pre, ips_part(r.ips@));
        lemma_occurs_before(x, pre + ips_part(r.ips@), asns_part(r.asns@));
        lemma_in_target_block(x, r);
        lemma_occurs_trans(x, target_block(r), md);
    }
    assert forall|a: int| 0 <= a < r.asns@.len() implies occurs_in(
        asn_line(#[trigger] r.asns@[a]),
        md,
    ) by {
        let x = asn_line(r.asns@[a]);
        let fa = |y: Asn| asn_line(y);
        lemma_concat_map_occurs(r.asns@, fa, a);
        lemma_occurs_after(x, "### ASNs\n\n"@, concat_map(r.asns@, fa));
        lemma_occurs_before(x, "### ASNs\n\n"@ + concat_map(r.asns@, fa), "\n"@);
        lemma_occurs_after(x, pre + ips_part(r.ips@), asns_part(r.asns@));
        lemma_in_target_block(x, r);
        lemma_occurs_trans(x, target_block(r), md);
    }
    assert forall|j: int, k: int|
        0 <= j < r.subdomains@.len() && 0 <= k < r.subdomains@[j].technologies@.len() implies occurs_in(
        tech_line(#[trigger] r.subdomains@[j].technologies@[k]),
        md,
    ) by {
        let sr = r.subdomains@[j];
        let s = sr.subdomain;
        let x = tech_line(sr.technologies@[k]);
        let ft = |y: Technology| tech_line(y);
        lemma_concat_map_occurs(sr.technologies@, ft, k);
        lemma_occurs_after(x, "\n"@ + "**Technologies:**\n\n"@, concat_map(sr.technologies@, ft));
        let a = subdomain_head(s) + http_part(s) + notes_part(s);
        let b = urls_part(sr.urls@) + "\n"@;
        lemma_occurs_after(x, a, techs_part(sr.technologies@));
        lemma_occurs_before(x, a + techs_part(sr.technologies@), b);
        assert(subdomain_block(sr) =~= a + techs_part(sr.technologies@) + b);
        lemma_subdomain_block_occurs(r, j);
        lemma_occurs_trans(x, subdomain_block(sr), target_block(r));
        lemma_occurs_trans(x, target_block(r), md);
    }
    assert forall|j: int, k: int|
        0 <= j < r.subdomains@.len() && 0 <= k < r.subdomains@[j].urls@.len() implies occurs_in(
        url_line(#[trigger] r.subdomains@[j].urls@[k]),
        md,
    ) by {
        let sr = r.subdomains@[j];
        let s = sr.subdomain;
        let x = url_line(sr.urls@[k]);
        let fu = |y: Url| url_line(y);
        lemma_concat_map_occurs(sr.urls@, fu, k);
        lemma_occurs_after(x, "\n"@ + "**URLs:**\n\n"@, concat_map(sr.urls@, fu));
        let a = subdomain_head(s) + http_part(s) + notes_part(s) + techs_part(sr.technologies@);
        lemma_occurs_after(x, a, urls_part(sr.urls@));
        lemma_occurs_before(x, a + urls_part(sr.urls@), "\n"@);
        assert(subdomain_block(sr) =~= a + urls_part(sr.urls@) + "\n"@);
        lemma_subdomain_block_occurs(r, j);
        lemma_occurs_trans(x, subdomain_block(sr), target_block(r));
        lemma_occurs_trans(x, target_block(r), md);
    }
}

/// Where a report of engagement `engagement_id` holds the subdomain of
/// store row `sid`: the report's parts, the index of its target and the
/// index of the subdomain under that target.
proof fn lemma_subdomain_report_found(t: Store, engagement_id: Seq<char>, md: Seq<char>, sid: Seq<char>) -> (found: (
    Engagement,
    Seq<char>,
    Seq<TargetReport>,
    int,
    int,
))
    requires
        is_report_of(t, engagement_id, md),
        t.subdomains.contains_key(sid),
        t.targets.contains_key(t.subdomains[sid].0),
        t.targets[t.subdomains[sid].0].0 == engagement_id,
    ensures
        markdown_spec(found.0, found.1, found.2) == md,
        0 <= found.3 < found.2.len(),
        0 <= found.4 < found.2[found.3].subdomains@.len(),
        subdomain_report_of(t, found.2[found.3].subdomains@[found.4]),
        found.2[found.3].subdomains@[found.4].subdomain.id@ == sid,
        found.2[found.3].subdomains@[found.4].subdomain.subdomain@ == t.subdomains[sid].1,
{
    let (e, at, reps) = choose|e: Engagement, at: Seq<char>, reps: Seq<TargetReport>|
        {
            &&& #[trigger] markdown_spec(e, at, reps) == md
            &&& e.id@ == engagement_id
            &&& t.engagements.contains_key(engagement_id)
            &&& t.engagements[engagement_id] == engagement_row(e)
            &&& engagement_report_of(t, engagement_id, reps)
        };
    let tid = t.subdomains[sid].0;
    let rt = report_targets(reps);
    let ids = rt.map_values(|x: Target| x.id@);
    assert(ids.contains(tid));
    let i = choose|i: int| 0 <= i < ids.len() && ids[i] == tid;
    assert(rt[i] == reps[i].target);
    assert(target_report_of(t, reps[i]));
    let v = report_subdomains(reps[i].subdomains@);
    assert(subdomains_listing(t, tid, v));
    let sids = v.map_values(|s: Subdomain| s.id@);
    assert(sids.contains(sid));
    let j = choose|j: int| 0 <= j < sids.len() && sids[j] == sid;
    assert(v[j] == reps[i].subdomains@[j].subdomain);
    assert(v[j].id@ == sid);
    (e, at, reps, i, j)
}

/// An exported report names every subdomain that the store holds under a
/// target of the engagement: its heading occurs in the report.
pub proof fn law_exported_report_names_every_subdomain(
    t: Store,
    engagement_id: Seq<char>,
    md: Seq<char>,
    k: Seq<char>,
)
    requires
        is_report_of(t, engagement_id, md),
        t.subdomains.contains_key(k),
        t.targets.contains_key(t.subdomains[k].0),
        t.targets[t.subdomains[k].0].0 == engagement_id,
    ensures
        occurs_in(subdomain_heading(t.subdomains[k].1), md),
{
    let (e, at, reps, i, j) = lemma_subdomain_report_found(t, engagement_id, md, k);
    law_report_has_every_subdomain_heading(e, at, reps, i, j);
}

/// An exported report has a line for every technology that the store holds
/// on a subdomain of a target of the engagement.
pub proof fn law_exported_report_names_every_technology(
    t: Store,
    engagement_id: Seq<char>,
    md: Seq<char>,
    k: Seq<char>,
)
    requires
        is_report_of(t, engagement_id, md),
        t.technologies.contains_key(k),
        t.subdomains.contains_key(t.technologies[k].0),
        t.targets.contains_key(t.subdomains[t.technologies[k].0].0),
        t.targets[t.subdomains[t.technologies[k].0].0].0 == engagement_id,
    ensures
        exists|x: Technology|
            technology_row(x) == t.technologies[k] && #[trigger] occurs_in(tech_line(x), md),
{
    let sid = t.technologies[k].0;
    let (e, at, reps, i, j) = lemma_subdomain_report_found(t, engagement_id, md, sid);
    let sr = reps[i].subdomains@[j];
    assert(technologies_listing(t, sid, sr.technologies@));
    let ids = technology_ids(sr.technologies@);
    assert(ids.contains(k));
    let m = choose|m: int| 0 <= m < ids.len() && ids[m] == k;
    let x = sr.technologies@[m];
    assert(sr.technologies@.map_values(|y: Technology| technology_row(y))[m] == technology_row(x));
    law_report_has_every_line(e, at, reps, i);
    assert(occurs_in(tech_line(x), md));
}

/// An exported report has a line for every URL that the store holds on a
/// subdomain of a target of the engagement.
pub proof fn law_exported_report_names_every_url(
    t: Store,
    engagement_id: Seq<char>,
    md: Seq<char>,
    k: Seq<char>,
)
    requires
        is_report_of(t, engagement_id, md),
        t.urls.contains_key(k),
        t.subdomains.contains_key(t.urls[k].0),
        t.targets.contains_key(t.subdomains[t.urls[k].0].0),
        t.targets[t.subdomains[t.urls[k].0].0].0 == engagement_id,
    ensures
        exists|x: Url| url_is_row(x, k, t.urls[k]) && #[trigger] occurs_in(url_line(x), md),
{
    let sid = t.urls[k].0;
    let (e, at, reps, i, j) = lemma_subdomain_report_found(t, engagement_id, md, sid);
    let sr = reps[i].subdomains@[j];
    assert(urls_listing(t, sid, sr.urls@));
    let ids = sr.urls@.map_values(|u: Url| u.id@);
    assert(ids.contains(k));
    let m = choose|m: int| 0 <= m < ids.len() && ids[m] == k;
    let x = sr.urls@[m];
    assert(x.id@ == k);
    law_report_has_every_line(e, at, reps, i);
    assert(occurs_in(url_line(x), md));
}

} // verus!
