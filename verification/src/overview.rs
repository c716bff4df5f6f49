//! The overview texts of the engagement dashboard: one line per record of
//! each section, or a note when the section is empty.

use vstd::prelude::*;
use crate::app::App;
use crate::export::{decimal, push_decimal};
use crate::models::{Asn, Ip, Screenshot, Subdomain, Target, Technology, Url, status_text, url_type_text};
use crate::text::push_text;
use crate::textops::path_exists;

verus! {

/// The lines of `s`, separated by line breaks.
pub open spec fn joined(s: Seq<Seq<char>>) -> Seq<char>
    decreases s.len(),
{
    if s.len() == 0 {
        Seq::empty()
    } else if s.len() == 1 {
        s[0]
    } else {
        joined(s.drop_last()) + "\n"@ + s.last()
    }
}

/// A section of the overview: its lines, or `none` when it has no line.
pub open spec fn section_text(lines: Seq<Seq<char>>, none: Seq<char>) -> Seq<char> {
    if lines.len() == 0 {
        none
    } else {
        joined(lines)
    }
}

/// The line of a target.
pub open spec fn target_entry(t: Target) -> Seq<char> {
    "  • "@ + t.domain@
}

/// The HTTP code shown after a subdomain, when it has one.
pub open spec fn code_part(c: Option<i32>) -> Seq<char> {
    match c {
        Some(c) => " ["@ + decimal(c as int) + "]"@,
        None => Seq::empty(),
    }
}

/// The line of a subdomain: its name, HTTP code and status.
pub open spec fn subdomain_entry(s: Subdomain) -> Seq<char> {
    "  • "@ + s.subdomain@ + code_part(s.status_code) + " — "@ + status_text(s.status)
}

/// The line of an IP.
pub open spec fn ip_entry(i: Ip) -> Seq<char> {
    "  • "@ + i.ip@
}

/// The line of an ASN, with its organisation when known.
pub open spec fn asn_entry(a: Asn) -> Seq<char> {
    match a.org {
        Some(org) => "  • "@ + a.asn@ + " — "@ + org@,
        None => "  • "@ + a.asn@,
    }
}

/// The line of a URL, with its kind.
pub open spec fn url_entry(u: Url) -> Seq<char> {
    "  • ["@ + url_type_text(u.url_type) + "] "@ + u.url@
}

/// The line of a technology, with its version when known.
pub open spec fn technology_entry(t: Technology) -> Seq<char> {
    match t.version {
        Some(v) => "  • "@ + t.name@ + " v"@ + v@,
        None => "  • "@ + t.name@,
    }
}

/// The line of a screenshot: a mark saying whether its file is there, and
/// its path.
pub open spec fn screenshot_entry(s: Screenshot, present: bool) -> Seq<char> {
    "  "@ + (if present { "✓"@ } else { "✗"@ }) + " "@ + s.file_path@
}

/// The lines of the screenshots of `s`, the `i`-th marked by `present[i]`.
pub open spec fn screenshot_entries(s: Seq<Screenshot>, present: Seq<bool>) -> Seq<Seq<char>> {
    Seq::new(s.len(), |i: int| screenshot_entry(s[i], present[i]))
}

proof fn lemma_joined_step(s: Seq<Seq<char>>, i: int)
    requires
        0 <= i < s.len(),
    ensures
        joined(s.take(i + 1)) == (if i == 0 {
            s[0]
        } else {
            joined(s.take(i)) + "\n"@ + s[i]
        }),
{
    assert(s.take(i + 1).drop_last() =~= s.take(i));
}

/// The lines of `lines`, separated by line breaks.
pub fn join_lines(lines: &Vec<String>) -> (r: String)
    ensures
        r@ == joined(lines@.map_values(|l: String| l@)),
{
    let ghost views = lines@.map_values(|l: String| l@);
    let mut out = String::new();
    let mut i: usize = 0;
    while i < lines.len()
        invariant
            i <= lines.len(),
            views == lines@.map_values(|l: String| l@),
            out@ == joined(views.take(i as int)),
        decreases lines.len() - i,
    {
        proof {
            lemma_joined_step(views, i as int);
        }
        if i > 0 {
            push_text(&mut out, "\n");
        }
        push_text(&mut out, lines[i].as_str());
        i = i + 1;
    }
    assert(views.take(lines.len() as int) =~= views);
    out
}

/// The targets section of the overview.
pub fn format_targets(app: &App) -> (r: String)
    ensures
        r@ == section_text(
            app.targets@.map_values(|t: Target| target_entry(t)),
            "  Nenhum target cadastrado."@,
        ),
{
    if app.targets.len() == 0 {
        return "  Nenhum target cadastrado.".to_owned();
    }
    let mut lines: Vec<String> = Vec::new();
    for i in 0..app.targets.len()
        invariant
            lines@.len() == i,
            forall|j: int| 0 <= j < i ==> #[trigger] lines@[j]@ == target_entry(app.targets@[j]),
    {
        let mut l = "  • ".to_owned();
        push_text(&mut l, app.targets[i].domain.as_str());
        lines.push(l);
    }
    assert(lines@.map_values(|l: String| l@) =~= app.targets@.map_values(
        |t: Target| target_entry(t),
    ));
    join_lines(&lines)
}

/// The line of subdomain `s`.
fn subdomain_line(s: &Subdomain) -> (r: String)
    ensures
        r@ == subdomain_entry(*s),
{
    let mut l = "  • ".to_owned();
    push_text(&mut l, s.subdomain.as_str());
    match s.status_code {
        Some(c) => {
            push_text(&mut l, " [");
            push_decimal(&mut l, c);
            push_text(&mut l, "]");
        },
        None => {},
    }
    push_text(&mut l, " — ");
    push_text(&mut l, s.status.as_str());
    l
}

/// The subdomains section of the overview.
pub fn format_subdomains(app: &App) -> (r: String)
    ensures
        r@ == section_text(
            app.subdomains@.map_values(|s: Subdomain| subdomain_entry(s)),
            "  Nenhum subdomain cadastrado."@,
        ),
{
    if app.subdomains.len() == 0 {
        return "  Nenhum subdomain cadastrado.".to_owned();
    }
    let mut lines: Vec<String> = Vec::new();
    for i in 0..app.subdomains.len()
        invariant
            lines@.len() == i,
            forall|j: int| 0 <= j < i ==> #[trigger] lines@[j]@ == subdomain_entry(app.subdomains@[j]),
    {
        lines.push(subdomain_line(&app.subdomains[i]));
    }
    assert(lines@.map_values(|l: String| l@) =~= app.subdomains@.map_values(
        |s: Subdomain| subdomain_entry(s),
    ));
    join_lines(&lines)
}

/// The IPs section of the overview.
pub fn format_ips(app: &App) -> (r: String)
    ensures
        r@ == section_text(app.ips@.map_values(|i: Ip| ip_entry(i)), "  Nenhum IP cadastrado."@),
{
    if app.ips.len() == 0 {
        return "  Nenhum IP cadastrado.".to_owned();
    }
    let mut lines: Vec<String> = Vec::new();
    for i in 0..app.ips.len()
        invariant
            lines@.len() == i,
            forall|j: int| 0 <= j < i ==> #[trigger] lines@[j]@ == ip_entry(app.ips@[j]),
    {
        let mut l = "  • ".to_owned();
        push_text(&mut l, app.ips[i].ip.as_str());
        lines.push(l);
    }
    assert(lines@.map_values(|l: String| l@) =~= app.ips@.map_values(|i: Ip| ip_entry(i)));
    join_lines(&lines)
}

/// The line of ASN `a`.
fn asn_line(a: &Asn) -> (r: String)
    ensures
        r@ == asn_entry(*a),
{
    let mut l = "  • ".to_owned();
    push_text(&mut l, a.asn.as_str());
    match &a.org {
        Some(org) => {
            push_text(&mut l, " — ");
            push_text(&mut l, org.as_str());
        },
        None => {},
    }
    l
}

/// The ASNs section of the overview.
pub fn format_asns(app: &App) -> (r: String)
    ensures
        r@ == section_text(app.asns@.map_values(|a: Asn| asn_entry(a)), "  Nenhum ASN cadastrado."@),
{
    if app.asns.len() == 0 {
        return "  Nenhum ASN cadastrado.".to_owned();
    }
    let mut lines: Vec<String> = Vec::new();
    for i in 0..app.asns.len()
        invariant
            lines@.len() == i,
            forall|j: int| 0 <= j < i ==> #[trigger] lines@[j]@ == asn_entry(app.asns@[j]),
    {
        lines.push(asn_line(&app.asns[i]));
    }
    assert(lines@.map_values(|l: String| l@) =~= app.asns@.map_values(|a: Asn| asn_entry(a)));
    join_lines(&lines)
}

/// The URLs section of the overview.
pub fn format_urls(app: &App) -> (r: String)
    ensures
        r@ == section_text(app.urls@.map_values(|u: Url| url_entry(u)), "  Nenhum URL cadastrado."@),
{
    if app.urls.len() == 0 {
        return "  Nenhum URL cadastrado.".to_owned();
    }
    let mut lines: Vec<String> = Vec::new();
    for i in 0..app.urls.len()
        invariant
            lines@.len() == i,
            forall|j: int| 0 <= j < i ==> #[trigger] lines@[j]@ == url_entry(app.urls@[j]),
    {
        let mut l = "  • [".to_owned();
        push_text(&mut l, app.urls[i].url_type.as_str());
        push_text(&mut l, "] ");
        push_text(&mut l, app.urls[i].url.as_str());
        lines.push(l);
    }
    assert(lines@.map_values(|l: String| l@) =~= app.urls@.map_values(|u: Url| url_entry(u)));
    join_lines(&lines)
}

/// The line of technology `t`.
fn technology_line(t: &Technology) -> (r: String)
    ensures
        r@ == technology_entry(*t),
{
    let mut l = "  • ".to_owned();
    push_text(&mut l, t.name.as_str());
    match &t.version {
        Some(v) => {
            push_text(&mut l, " v");
            push_text(&mut l, v.as_str());
        },
        None => {},
    }
    l
}

/// The technologies section of the overview.
pub fn format_technologies(app: &App) -> (r: String)
    ensures
        r@ == section_text(
            app.technologies@.map_values(|t: Technology| technology_entry(t)),
            "  Nenhuma tecnologia cadastrada."@,
        ),
{
    if app.technologies.len() == 0 {
        return "  Nenhuma tecnologia cadastrada.".to_owned();
    }
    let mut lines: Vec<String> = Vec::new();
    for i in 0..app.technologies.len()
        invariant
            lines@.len() == i,
            forall|j: int| 0 <= j < i ==> #[trigger] lines@[j]@ == technology_entry(app.technologies@[j]),
    {
        lines.push(technology_line(&app.technologies[i]));
    }
    assert(lines@.map_values(|l: String| l@) =~= app.technologies@.map_values(
        |t: Technology| technology_entry(t),
    ));
    join_lines(&lines)
}

/// The screenshots section of the overview, the `i`-th screenshot marked as
/// present on disk by `present[i]`.
pub fn format_screenshots_marked(app: &App, present: &Vec<bool>) -> (r: String)
    requires
        present@.len() == app.screenshots@.len(),
    ensures
        r@ == section_text(
            screenshot_entries(app.screenshots@, present@),
            "  Nenhuma screenshot cadastrada."@,
        ),
{
    if app.screenshots.len() == 0 {
        return "  Nenhuma screenshot cadastrada.".to_owned();
    }
    let mut lines: Vec<String> = Vec::new();
    for i in 0..app.screenshots.len()
        invariant
            lines@.len() == i,
            present@.len() == app.screenshots@.len(),
            forall|j: int|
                0 <= j < i ==> #[trigger] lines@[j]@ == screenshot_entry(
                    app.screenshots@[j],
                    present@[j],
                ),
    {
        let mut l = "  ".to_owned();
        if present[i] {
            push_text(&mut l, "✓");
        } else {
            push_text(&mut l, "✗");
        }
        push_text(&mut l, " ");
        push_text(&mut l, app.screenshots[i].file_path.as_str());
        lines.push(l);
    }
    assert(lines@.map_values(|l: String| l@) =~= screenshot_entries(app.screenshots@, present@));
    join_lines(&lines)
}

/// The screenshots section of the overview, each marked by whether its file
/// exists now. Which files exist is the file system's: the marks are some
/// booleans, one per screenshot.
pub fn format_screenshots(app: &App) -> (r: String)
    ensures
        exists|present: Seq<bool>|
            present.len() == app.screenshots@.len() && r@ == section_text(
                #[trigger] screenshot_entries(app.screenshots@, present),
                "  Nenhuma screenshot cadastrada."@,
            ),
{
    let mut present: Vec<bool> = Vec::new();
    for i in 0..app.screenshots.len()
        invariant
            present@.len() == i,
    {
        present.push(path_exists(app.screenshots[i].file_path.as_str()));
    }
    let r = format_screenshots_marked(app, &present);
    assert(screenshot_entries(app.screenshots@, present@) == screenshot_entries(
        app.screenshots@,
        present@,
    ));
    r
}

} // verus!
