//! What every write keeps of the store: each row hangs from a row that
//! exists (the schema's foreign keys), and deleting a row deletes everything
//! that hangs from it and nothing else.

use vstd::prelude::*;
use crate::models::{Subdomain, SubdomainStatus, lemma_status_text_roundtrip, status_text};
use crate::queries::{lists_subdomains, subdomains_listing};
use crate::sql::{with_asn, with_ip, with_screenshot, with_subdomain, with_tag, with_target, with_technology, with_url};
use crate::sql::with_engagement;
use crate::store::{
    AsnRow, EngRow, IpRow, ShotRow, Store, SubRow, TagRow, TargetRow, TechRow, UrlRow, asn_taken,
    ascending, engagement_name_taken, engagement_named, ip_taken, subdomain_name_taken,
    tag_name_taken, text_le, url_taken,
};

verus! {

/// Whether every row of `s` hangs from a row that exists: each target from
/// its engagement; each subdomain, IP and ASN from its target; each tag,
/// technology, URL and screenshot from its subdomain.
pub open spec fn intact(s: Store) -> bool {
    &&& forall|k: Seq<char>| #[trigger]
        s.targets.contains_key(k) ==> s.engagements.contains_key(s.targets[k].0)
    &&& forall|k: Seq<char>| #[trigger]
        s.subdomains.contains_key(k) ==> s.targets.contains_key(s.subdomains[k].0)
    &&& forall|k: Seq<char>| #[trigger] s.ips.contains_key(k) ==> s.targets.contains_key(s.ips[k].0)
    &&& forall|k: Seq<char>| #[trigger] s.asns.contains_key(k) ==> s.targets.contains_key(s.asns[k].0)
    &&& forall|k: Seq<char>| #[trigger]
        s.tags.contains_key(k) ==> s.subdomains.contains_key(s.tags[k].0)
    &&& forall|k: Seq<char>| #[trigger]
        s.technologies.contains_key(k) ==> s.subdomains.contains_key(s.technologies[k].0)
    &&& forall|k: Seq<char>| #[trigger] s.urls.contains_key(k) ==> s.subdomains.contains_key(s.urls[k].0)
    &&& forall|k: Seq<char>| #[trigger]
        s.screenshots.contains_key(k) ==> s.subdomains.contains_key(s.screenshots[k].0)
}

/// Deleting a subdomain removes it and every tag, technology, URL and
/// screenshot of it; every other row stays as it was, and every row still
/// hangs from a row that exists.
pub proof fn law_delete_subdomain_cascades(s: Store, id: Seq<char>)
    requires
        intact(s),
    ensures
        intact(s.delete_subdomain(id)),
        !s.delete_subdomain(id).subdomains.contains_key(id),
        forall|k: Seq<char>| #[trigger]
            s.delete_subdomain(id).tags.contains_key(k) ==> s.delete_subdomain(id).tags[k].0 != id,
        forall|k: Seq<char>| #[trigger]
            s.delete_subdomain(id).technologies.contains_key(k)
                ==> s.delete_subdomain(id).technologies[k].0 != id,
        forall|k: Seq<char>| #[trigger]
            s.delete_subdomain(id).urls.contains_key(k) ==> s.delete_subdomain(id).urls[k].0 != id,
        forall|k: Seq<char>| #[trigger]
            s.delete_subdomain(id).screenshots.contains_key(k)
                ==> s.delete_subdomain(id).screenshots[k].0 != id,
        forall|k: Seq<char>|
            k != id && s.subdomains.contains_key(k) ==> #[trigger] s.delete_subdomain(
                id,
            ).subdomains.contains_key(k) && s.delete_subdomain(id).subdomains[k] == s.subdomains[k],
        forall|k: Seq<char>|
            s.tags.contains_key(k) && s.tags[k].0 != id ==> #[trigger] s.delete_subdomain(
                id,
            ).tags.contains_key(k) && s.delete_subdomain(id).tags[k] == s.tags[k],
        s.delete_subdomain(id).engagements == s.engagements,
        s.delete_subdomain(id).targets == s.targets,
        s.delete_subdomain(id).ips == s.ips,
        s.delete_subdomain(id).asns == s.asns,
{
    let a = s.delete_subdomain(id);
    assert forall|k: Seq<char>| #[trigger] a.tags.contains_key(k) implies a.subdomains.contains_key(
        a.tags[k].0,
    ) by {
        assert(s.tags.contains_key(k));
    }
    assert forall|k: Seq<char>| #[trigger] a.technologies.contains_key(
        k,
    ) implies a.subdomains.contains_key(a.technologies[k].0) by {
        assert(s.technologies.contains_key(k));
    }
    assert forall|k: Seq<char>| #[trigger] a.urls.contains_key(k) implies a.subdomains.contains_key(
        a.urls[k].0,
    ) by {
        assert(s.urls.contains_key(k));
    }
    assert forall|k: Seq<char>| #[trigger] a.screenshots.contains_key(
        k,
    ) implies a.subdomains.contains_key(a.screenshots[k].0) by {
        assert(s.screenshots.contains_key(k));
    }
    assert forall|k: Seq<char>| #[trigger] a.subdomains.contains_key(k) implies a.targets.contains_key(
        a.subdomains[k].0,
    ) by {
        assert(s.subdomains.contains_key(k));
    }
}

/// Removing the targets `gone` keeps every row hanging from a row that
/// exists.
proof fn lemma_without_targets_intact(s: Store, gone: Set<Seq<char>>)
    requires
        intact(s),
    ensures
        intact(s.without_targets(gone)),
{
    let a = s.without_targets(gone);
    let subs = s.subdomains.dom().filter(|k: Seq<char>| gone.contains(s.subdomains[k].0));
    assert forall|k: Seq<char>| #[trigger] a.subdomains.contains_key(k) implies a.targets.contains_key(
        a.subdomains[k].0,
    ) by {
        assert(s.subdomains.contains_key(k));
        assert(!subs.contains(k));
    }
    assert forall|k: Seq<char>| #[trigger] a.ips.contains_key(k) implies a.targets.contains_key(
        a.ips[k].0,
    ) by {
        assert(s.ips.contains_key(k));
    }
    assert forall|k: Seq<char>| #[trigger] a.asns.contains_key(k) implies a.targets.contains_key(
        a.asns[k].0,
    ) by {
        assert(s.asns.contains_key(k));
    }
    assert forall|k: Seq<char>| #[trigger] a.targets.contains_key(k) implies a.engagements.contains_key(
        a.targets[k].0,
    ) by {
        assert(s.targets.contains_key(k));
    }
    assert forall|k: Seq<char>| #[trigger] a.tags.contains_key(k) implies a.subdomains.contains_key(
        a.tags[k].0,
    ) by {
        assert(s.tags.contains_key(k));
    }
    assert forall|k: Seq<char>| #[trigger] a.technologies.contains_key(
        k,
    ) implies a.subdomains.contains_key(a.technologies[k].0) by {
        assert(s.technologies.contains_key(k));
    }
    assert forall|k: Seq<char>| #[trigger] a.urls.contains_key(k) implies a.subdomains.contains_key(
        a.urls[k].0,
    ) by {
        assert(s.urls.contains_key(k));
    }
    assert forall|k: Seq<char>| #[trigger] a.screenshots.contains_key(
        k,
    ) implies a.subdomains.contains_key(a.screenshots[k].0) by {
        assert(s.screenshots.contains_key(k));
    }
}

/// Deleting a target removes it and every subdomain, IP and ASN of it (and,
/// with those subdomains, everything of them); every other row stays as it
/// was, and every row still hangs from a row that exists.
pub proof fn law_delete_target_cascades(s: Store, id: Seq<char>)
    requires
        intact(s),
    ensures
        intact(s.delete_target(id)),
        !s.delete_target(id).targets.contains_key(id),
        forall|k: Seq<char>| #[trigger]
            s.delete_target(id).subdomains.contains_key(k) ==> s.delete_target(id).subdomains[k].0
                != id,
        forall|k: Seq<char>| #[trigger]
            s.delete_target(id).ips.contains_key(k) ==> s.delete_target(id).ips[k].0 != id,
        forall|k: Seq<char>| #[trigger]
            s.delete_target(id).asns.contains_key(k) ==> s.delete_target(id).asns[k].0 != id,
        s.delete_target(id).engagements == s.engagements,
        forall|k: Seq<char>|
            k != id && s.targets.contains_key(k) ==> #[trigger] s.delete_target(
                id,
            ).targets.contains_key(k) && s.delete_target(id).targets[k] == s.targets[k],
        forall|k: Seq<char>|
            s.subdomains.contains_key(k) && s.subdomains[k].0 != id ==> #[trigger] s.delete_target(
                id,
            ).subdomains.contains_key(k) && s.delete_target(id).subdomains[k] == s.subdomains[k],
        forall|k: Seq<char>|
            s.ips.contains_key(k) && s.ips[k].0 != id ==> #[trigger] s.delete_target(
                id,
            ).ips.contains_key(k) && s.delete_target(id).ips[k] == s.ips[k],
        forall|k: Seq<char>|
            s.asns.contains_key(k) && s.asns[k].0 != id ==> #[trigger] s.delete_target(
                id,
            ).asns.contains_key(k) && s.delete_target(id).asns[k] == s.asns[k],
{
    lemma_without_targets_intact(s, set![id]);
    let subs = s.subdomains.dom().filter(|k: Seq<char>| set![id].contains(s.subdomains[k].0));
    assert forall|k: Seq<char>|
        s.subdomains.contains_key(k) && s.subdomains[k].0 != id implies #[trigger] s.delete_target(
            id,
        ).subdomains.contains_key(k) by {
        assert(!subs.contains(k));
    }
}

/// Deleting an engagement removes it and every target of it (and, with
/// those targets, everything under them); every other row stays as it was,
/// and every row still hangs from a row that exists.
pub proof fn law_delete_engagement_cascades(s: Store, id: Seq<char>)
    requires
        intact(s),
    ensures
        intact(s.delete_engagement(id)),
        !s.delete_engagement(id).engagements.contains_key(id),
        forall|k: Seq<char>| #[trigger]
            s.delete_engagement(id).targets.contains_key(k) ==> s.delete_engagement(id).targets[k].0
                != id,
        forall|k: Seq<char>|
            k != id && s.engagements.contains_key(k) ==> #[trigger] s.delete_engagement(
                id,
            ).engagements.contains_key(k) && s.delete_engagement(id).engagements[k]
                == s.engagements[k],
        forall|k: Seq<char>|
            s.targets.contains_key(k) && s.targets[k].0 != id ==> #[trigger] s.delete_engagement(
                id,
            ).targets.contains_key(k) && s.delete_engagement(id).targets[k] == s.targets[k],
        forall|k: Seq<char>|
            s.subdomains.contains_key(k) && s.targets[s.subdomains[k].0].0 != id
                ==> #[trigger] s.delete_engagement(id).subdomains.contains_key(k)
                && s.delete_engagement(id).subdomains[k] == s.subdomains[k],
{
    let gone = s.targets.dom().filter(|k: Seq<char>| s.targets[k].0 == id);
    let s1 = Store { engagements: s.engagements.remove(id), ..s };
    assert forall|k: Seq<char>| #[trigger] s1.targets.contains_key(k) && !gone.contains(
        k,
    ) implies s1.engagements.contains_key(s1.targets[k].0) by {}
    let a = s.delete_engagement(id);
    assert(a == s1.without_targets(gone));
    let subs = s1.subdomains.dom().filter(|k: Seq<char>| gone.contains(s1.subdomains[k].0));
    assert forall|k: Seq<char>| #[trigger] a.targets.contains_key(k) implies a.engagements.contains_key(
        a.targets[k].0,
    ) by {
        assert(s.targets.contains_key(k));
        assert(!gone.contains(k));
    }
    assert forall|k: Seq<char>| #[trigger] a.subdomains.contains_key(k) implies a.targets.contains_key(
        a.subdomains[k].0,
    ) by {
        assert(s.subdomains.contains_key(k));
        assert(!subs.contains(k));
    }
    assert forall|k: Seq<char>| #[trigger] a.ips.contains_key(k) implies a.targets.contains_key(
        a.ips[k].0,
    ) by {
        assert(s.ips.contains_key(k));
    }
    assert forall|k: Seq<char>| #[trigger] a.asns.contains_key(k) implies a.targets.contains_key(
        a.asns[k].0,
    ) by {
        assert(s.asns.contains_key(k));
    }
    assert forall|k: Seq<char>| #[trigger] a.tags.contains_key(k) implies a.subdomains.contains_key(
        a.tags[k].0,
    ) by {
        assert(s.tags.contains_key(k));
    }
    assert forall|k: Seq<char>| #[trigger] a.technologies.contains_key(
        k,
    ) implies a.subdomains.contains_key(a.technologies[k].0) by {
        assert(s.technologies.contains_key(k));
    }
    assert forall|k: Seq<char>| #[trigger] a.urls.contains_key(k) implies a.subdomains.contains_key(
        a.urls[k].0,
    ) by {
        assert(s.urls.contains_key(k));
    }
    assert forall|k: Seq<char>| #[trigger] a.screenshots.contains_key(
        k,
    ) implies a.subdomains.contains_key(a.screenshots[k].0) by {
        assert(s.screenshots.contains_key(k));
    }
    assert forall|k: Seq<char>|
        s.targets.contains_key(k) && s.targets[k].0 != id implies #[trigger] a.targets.contains_key(
        k,
    ) by {
        assert(!gone.contains(k));
    }
    assert forall|k: Seq<char>|
        s.subdomains.contains_key(k) && s.targets[s.subdomains[k].0].0 != id implies #[trigger] a.subdomains.contains_key(
        k,
    ) by {
        assert(s.targets.contains_key(s.subdomains[k].0));
        assert(!gone.contains(s.subdomains[k].0));
        assert(!subs.contains(k));
    }
}

/// Writing a target under an engagement that exists keeps every row hanging
/// from a row that exists.
pub proof fn law_insert_target_keeps_intact(s: Store, id: Seq<char>, row: TargetRow)
    requires
        intact(s),
        s.engagements.contains_key(row.0),
    ensures
        intact(with_target(s, id, row)),
{
}

/// Writing a subdomain under a target that exists keeps every row hanging
/// from a row that exists.
pub proof fn law_insert_subdomain_keeps_intact(s: Store, id: Seq<char>, row: SubRow)
    requires
        intact(s),
        s.targets.contains_key(row.0),
    ensures
        intact(with_subdomain(s, id, row)),
{
}

/// Writing an IP under a target that exists keeps every row hanging from a
/// row that exists.
pub proof fn law_insert_ip_keeps_intact(s: Store, id: Seq<char>, row: IpRow)
    requires
        intact(s),
        s.targets.contains_key(row.0),
    ensures
        intact(with_ip(s, id, row)),
{
}

/// Writing an ASN under a target that exists keeps every row hanging from a
/// row that exists.
pub proof fn law_insert_asn_keeps_intact(s: Store, id: Seq<char>, row: AsnRow)
    requires
        intact(s),
        s.targets.contains_key(row.0),
    ensures
        intact(with_asn(s, id, row)),
{
}

/// Writing a tag, a technology, a URL or a screenshot under a subdomain that
/// exists keeps every row hanging from a row that exists.
pub proof fn law_insert_detail_keeps_intact(
    s: Store,
    id: Seq<char>,
    tag: TagRow,
    tech: TechRow,
    url: UrlRow,
    shot: ShotRow,
)
    requires
        intact(s),
    ensures
        s.subdomains.contains_key(tag.0) ==> intact(with_tag(s, id, tag)),
        s.subdomains.contains_key(tech.0) ==> intact(with_technology(s, id, tech)),
        s.subdomains.contains_key(url.0) ==> intact(with_url(s, id, url)),
        s.subdomains.contains_key(shot.0) ==> intact(with_screenshot(s, id, shot)),
{
}

/// Whether no two rows of `s` share what must be unique: an engagement's
/// name; a subdomain's name, an IP or an ASN within its target; a tag's name
/// or a URL within its subdomain.
pub open spec fn unique_names(s: Store) -> bool {
    &&& forall|a: Seq<char>, b: Seq<char>|
        #![trigger s.engagements[a], s.engagements[b]]
        s.engagements.contains_key(a) && s.engagements.contains_key(b) && s.engagements[a].0
            == s.engagements[b].0 ==> a == b
    &&& forall|a: Seq<char>, b: Seq<char>|
        #![trigger s.subdomains[a], s.subdomains[b]]
        s.subdomains.contains_key(a) && s.subdomains.contains_key(b) && s.subdomains[a].0
            == s.subdomains[b].0 && s.subdomains[a].1 == s.subdomains[b].1 ==> a == b
    &&& forall|a: Seq<char>, b: Seq<char>|
        #![trigger s.ips[a], s.ips[b]]
        s.ips.contains_key(a) && s.ips.contains_key(b) && s.ips[a].0 == s.ips[b].0 && s.ips[a].1
            == s.ips[b].1 ==> a == b
    &&& forall|a: Seq<char>, b: Seq<char>|
        #![trigger s.asns[a], s.asns[b]]
        s.asns.contains_key(a) && s.asns.contains_key(b) && s.asns[a].0 == s.asns[b].0
            && s.asns[a].1 == s.asns[b].1 ==> a == b
    &&& forall|a: Seq<char>, b: Seq<char>|
        #![trigger s.tags[a], s.tags[b]]
        s.tags.contains_key(a) && s.tags.contains_key(b) && s.tags[a].0 == s.tags[b].0
            && s.tags[a].1 == s.tags[b].1 ==> a == b
    &&& forall|a: Seq<char>, b: Seq<char>|
        #![trigger s.urls[a], s.urls[b]]
        s.urls.contains_key(a) && s.urls.contains_key(b) && s.urls[a].0 == s.urls[b].0
            && s.urls[a].1 == s.urls[b].1 ==> a == b
}

/// Creating an engagement under a fresh id with a name that no engagement
/// has, or renaming engagement `id` to a name that no other engagement has,
/// keeps the names unique.
pub proof fn law_engagement_write_keeps_unique(s: Store, id: Seq<char>, row: EngRow)
    requires
        unique_names(s),
        !engagement_name_taken(s, row.0, id),
    ensures
        unique_names(with_engagement(s, id, row)),
{
    let a = with_engagement(s, id, row);
    assert forall|x: Seq<char>, y: Seq<char>|
        a.engagements.contains_key(x) && a.engagements.contains_key(y) && #[trigger] a.engagements[x].0
            == #[trigger] a.engagements[y].0 implies x == y by {
        if x != id && y != id {
            assert(s.engagements[x] == a.engagements[x]);
            assert(s.engagements[y] == a.engagements[y]);
        } else if x == id && y != id {
            assert(s.engagements.contains_key(y) && y != id && s.engagements[y].0 == row.0);
        } else if x != id && y == id {
            assert(s.engagements.contains_key(x) && x != id && s.engagements[x].0 == row.0);
        }
    }
}

/// A name that no engagement has is taken by no engagement other than `id`.
pub proof fn law_unnamed_is_untaken(s: Store, name: Seq<char>, id: Seq<char>)
    requires
        !engagement_named(s, name),
    ensures
        !engagement_name_taken(s, name, id),
{
    if engagement_name_taken(s, name, id) {
        let k = choose|k: Seq<char>| #[trigger]
            s.engagements.contains_key(k) && k != id && s.engagements[k].0 == name;
        assert(s.engagements.contains_key(k) && s.engagements[k].0 == name);
    }
}

/// Writing subdomain `id` keeps the names unique within each target: a new
/// row under a fresh id with a name that its target does not list yet, or a
/// new version of row `id` with the same target and name.
pub proof fn law_subdomain_write_keeps_unique(s: Store, id: Seq<char>, row: SubRow)
    requires
        unique_names(s),
        (!s.subdomains.contains_key(id) && !subdomain_name_taken(s, row.0, row.1)) || (
        s.subdomains.contains_key(id) && s.subdomains[id].0 == row.0 && s.subdomains[id].1
            == row.1),
    ensures
        unique_names(with_subdomain(s, id, row)),
{
    let a = with_subdomain(s, id, row);
    assert forall|x: Seq<char>, y: Seq<char>|
        a.subdomains.contains_key(x) && a.subdomains.contains_key(y) && #[trigger] a.subdomains[x].0
            == #[trigger] a.subdomains[y].0 && a.subdomains[x].1 == a.subdomains[y].1 implies x
        == y by {
        if x != id && y != id {
            assert(s.subdomains[x] == a.subdomains[x]);
            assert(s.subdomains[y] == a.subdomains[y]);
        } else if x == id && y != id {
            assert(s.subdomains.contains_key(y) && s.subdomains[y].0 == row.0 && s.subdomains[y].1
                == row.1);
            if s.subdomains.contains_key(id) {
                assert(s.subdomains[id].0 == s.subdomains[y].0);
            }
        } else if x != id && y == id {
            assert(s.subdomains.contains_key(x) && s.subdomains[x].0 == row.0 && s.subdomains[x].1
                == row.1);
            if s.subdomains.contains_key(id) {
                assert(s.subdomains[id].0 == s.subdomains[x].0);
            }
        }
    }
}

/// Writing an IP, an ASN, a tag or a URL under a fresh id, with a value that
/// its parent does not list yet, keeps the values unique within each parent.
pub proof fn law_detail_write_keeps_unique(
    s: Store,
    id: Seq<char>,
    ip: IpRow,
    asn: AsnRow,
    tag: TagRow,
    url: UrlRow,
)
    requires
        unique_names(s),
    ensures
        !s.ips.contains_key(id) && !ip_taken(s, ip.0, ip.1) ==> unique_names(with_ip(s, id, ip)),
        !s.asns.contains_key(id) && !asn_taken(s, asn.0, asn.1) ==> unique_names(
            with_asn(s, id, asn),
        ),
        !s.tags.contains_key(id) && !tag_name_taken(s, tag.0, tag.1) ==> unique_names(
            with_tag(s, id, tag),
        ),
        !s.urls.contains_key(id) && !url_taken(s, url.0, url.1) ==> unique_names(
            with_url(s, id, url),
        ),
{
    if !s.ips.contains_key(id) && !ip_taken(s, ip.0, ip.1) {
        let a = with_ip(s, id, ip);
        assert forall|x: Seq<char>, y: Seq<char>|
            a.ips.contains_key(x) && a.ips.contains_key(y) && #[trigger] a.ips[x].0
                == #[trigger] a.ips[y].0 && a.ips[x].1 == a.ips[y].1 implies x == y by {
            if x == id && y != id {
                assert(s.ips.contains_key(y) && s.ips[y].0 == ip.0 && s.ips[y].1 == ip.1);
            } else if x != id && y == id {
                assert(s.ips.contains_key(x) && s.ips[x].0 == ip.0 && s.ips[x].1 == ip.1);
            }
        }
    }
    if !s.asns.contains_key(id) && !asn_taken(s, asn.0, asn.1) {
        let a = with_asn(s, id, asn);
        assert forall|x: Seq<char>, y: Seq<char>|
            a.asns.contains_key(x) && a.asns.contains_key(y) && #[trigger] a.asns[x].0
                == #[trigger] a.asns[y].0 && a.asns[x].1 == a.asns[y].1 implies x == y by {
            if x == id && y != id {
                assert(s.asns.contains_key(y) && s.asns[y].0 == asn.0 && s.asns[y].1 == asn.1);
            } else if x != id && y == id {
                assert(s.asns.contains_key(x) && s.asns[x].0 == asn.0 && s.asns[x].1 == asn.1);
            }
        }
    }
    if !s.tags.contains_key(id) && !tag_name_taken(s, tag.0, tag.1) {
        let a = with_tag(s, id, tag);
        assert forall|x: Seq<char>, y: Seq<char>|
            a.tags.contains_key(x) && a.tags.contains_key(y) && #[trigger] a.tags[x].0
                == #[trigger] a.tags[y].0 && a.tags[x].1 == a.tags[y].1 implies x == y by {
            if x == id && y != id {
                assert(s.tags.contains_key(y) && s.tags[y].0 == tag.0 && s.tags[y].1 == tag.1);
            } else if x != id && y == id {
                assert(s.tags.contains_key(x) && s.tags[x].0 == tag.0 && s.tags[x].1 == tag.1);
            }
        }
    }
    if !s.urls.contains_key(id) && !url_taken(s, url.0, url.1) {
        let a = with_url(s, id, url);
        assert forall|x: Seq<char>, y: Seq<char>|
            a.urls.contains_key(x) && a.urls.contains_key(y) && #[trigger] a.urls[x].0
                == #[trigger] a.urls[y].0 && a.urls[x].1 == a.urls[y].1 implies x == y by {
            if x == id && y != id {
                assert(s.urls.contains_key(y) && s.urls[y].0 == url.0 && s.urls[y].1 == url.1);
            } else if x != id && y == id {
                assert(s.urls.contains_key(x) && s.urls[x].0 == url.0 && s.urls[x].1 == url.1);
            }
        }
    }
}

/// Whether every row of `a` is a row of `b`.
pub open spec fn rows_within<V>(a: Map<Seq<char>, V>, b: Map<Seq<char>, V>) -> bool {
    forall|k: Seq<char>| #[trigger] a.contains_key(k) ==> b.contains_key(k) && a[k] == b[k]
}

/// A store whose tables each hold some of the rows of a store with unique
/// names has unique names too.
proof fn lemma_fewer_rows_unique(s: Store, a: Store)
    requires
        unique_names(s),
        rows_within(a.engagements, s.engagements),
        rows_within(a.subdomains, s.subdomains),
        rows_within(a.ips, s.ips),
        rows_within(a.asns, s.asns),
        rows_within(a.tags, s.tags),
        rows_within(a.urls, s.urls),
    ensures
        unique_names(a),
{
    assert forall|x: Seq<char>, y: Seq<char>|
        a.engagements.contains_key(x) && a.engagements.contains_key(y) && #[trigger] a.engagements[x].0
            == #[trigger] a.engagements[y].0 implies x == y by {
        assert(s.engagements[x] == a.engagements[x] && s.engagements[y] == a.engagements[y]);
    }
    assert forall|x: Seq<char>, y: Seq<char>|
        a.subdomains.contains_key(x) && a.subdomains.contains_key(y) && #[trigger] a.subdomains[x].0
            == #[trigger] a.subdomains[y].0 && a.subdomains[x].1 == a.subdomains[y].1 implies x
        == y by {
        assert(s.subdomains[x] == a.subdomains[x] && s.subdomains[y] == a.subdomains[y]);
    }
    assert forall|x: Seq<char>, y: Seq<char>|
        a.ips.contains_key(x) && a.ips.contains_key(y) && #[trigger] a.ips[x].0
            == #[trigger] a.ips[y].0 && a.ips[x].1 == a.ips[y].1 implies x == y by {
        assert(s.ips[x] == a.ips[x] && s.ips[y] == a.ips[y]);
    }
    assert forall|x: Seq<char>, y: Seq<char>|
        a.asns.contains_key(x) && a.asns.contains_key(y) && #[trigger] a.asns[x].0
            == #[trigger] a.asns[y].0 && a.asns[x].1 == a.asns[y].1 implies x == y by {
        assert(s.asns[x] == a.asns[x] && s.asns[y] == a.asns[y]);
    }
    assert forall|x: Seq<char>, y: Seq<char>|
        a.tags.contains_key(x) && a.tags.contains_key(y) && #[trigger] a.tags[x].0
            == #[trigger] a.tags[y].0 && a.tags[x].1 == a.tags[y].1 implies x == y by {
        assert(s.tags[x] == a.tags[x] && s.tags[y] == a.tags[y]);
    }
    assert forall|x: Seq<char>, y: Seq<char>|
        a.urls.contains_key(x) && a.urls.contains_key(y) && #[trigger] a.urls[x].0
            == #[trigger] a.urls[y].0 && a.urls[x].1 == a.urls[y].1 implies x == y by {
        assert(s.urls[x] == a.urls[x] && s.urls[y] == a.urls[y]);
    }
}

/// Deleting an engagement, a target or a subdomain keeps the names unique.
pub proof fn law_delete_keeps_unique(s: Store, id: Seq<char>)
    requires
        unique_names(s),
    ensures
        unique_names(s.delete_engagement(id)),
        unique_names(s.delete_target(id)),
        unique_names(s.delete_subdomain(id)),
{
    let a = s.delete_engagement(id);
    let b = s.delete_target(id);
    let c = s.delete_subdomain(id);
    assert(rows_within(a.engagements, s.engagements));
    assert(rows_within(a.subdomains, s.subdomains));
    assert(rows_within(a.ips, s.ips));
    assert(rows_within(a.asns, s.asns));
    assert(rows_within(a.tags, s.tags));
    assert(rows_within(a.urls, s.urls));
    lemma_fewer_rows_unique(s, a);
    assert(rows_within(b.subdomains, s.subdomains));
    assert(rows_within(b.ips, s.ips));
    assert(rows_within(b.asns, s.asns));
    assert(rows_within(b.tags, s.tags));
    assert(rows_within(b.urls, s.urls));
    lemma_fewer_rows_unique(s, b);
    assert(rows_within(c.subdomains, s.subdomains));
    assert(rows_within(c.tags, s.tags));
    assert(rows_within(c.urls, s.urls));
    lemma_fewer_rows_unique(s, c);
}

/// The ids of subdomains, in order.
pub open spec fn subdomain_ids(v: Seq<Subdomain>) -> Seq<Seq<char>> {
    v.map_values(|s: Subdomain| s.id@)
}

/// The listing of a target's subdomains by status holds exactly the
/// subdomains of its full listing that have that status, each with that
/// status.
pub proof fn law_status_listing_filters(
    t: Store,
    target_id: Seq<char>,
    status: SubdomainStatus,
    v: Seq<Subdomain>,
    w: Seq<Subdomain>,
)
    requires
        subdomains_listing(t, target_id, v),
        lists_subdomains(
            w,
            t.subdomains,
            |row: SubRow| row.0 == target_id && row.2 == status_text(status),
        ),
    ensures
        forall|k: Seq<char>|
            #[trigger] subdomain_ids(w).contains(k) <==> (subdomain_ids(v).contains(k)
                && t.subdomains[k].2 == status_text(status)),
        forall|i: int| 0 <= i < w.len() ==> (#[trigger] w[i]).status == status,
{
    let wi = subdomain_ids(w);
    let vi = subdomain_ids(v);
    assert forall|k: Seq<char>| #[trigger] wi.contains(k) implies vi.contains(k)
        && t.subdomains[k].2 == status_text(status) by {
        let i = choose|i: int| 0 <= i < wi.len() && wi[i] == k;
        assert(wi[i] == w[i].id@);
        assert(t.subdomains.contains_key(w[i].id@));
    }
    assert forall|k: Seq<char>| vi.contains(k) && t.subdomains[k].2 == status_text(status) implies #[trigger] wi.contains(
        k,
    ) by {
        let i = choose|i: int| 0 <= i < vi.len() && vi[i] == k;
        assert(vi[i] == v[i].id@);
        assert(t.subdomains.contains_key(v[i].id@));
    }
    assert forall|i: int| 0 <= i < w.len() implies (#[trigger] w[i]).status == status by {
        assert(t.subdomains.contains_key(w[i].id@));
        lemma_status_text_roundtrip(status);
    }
}

/// Texts that each come no later than the other are the same text.
pub proof fn lemma_text_le_antisymmetric(a: Seq<char>, b: Seq<char>)
    requires
        text_le(a, b),
        text_le(b, a),
    ensures
        a == b,
    decreases a.len(),
{
    if a.len() == 0 {
        assert(b.len() == 0);
        assert(a =~= b);
    } else {
        assert(b.len() > 0);
        assert(a[0] == b[0]);
        lemma_text_le_antisymmetric(a.drop_first(), b.drop_first());
        assert(a =~= seq![a[0]] + a.drop_first());
        assert(b =~= seq![b[0]] + b.drop_first());
    }
}

/// The ids of `x` whose subdomain row in `t` has the status text `st`, in
/// the order of `x`.
pub open spec fn ids_with_status(t: Store, x: Seq<Seq<char>>, st: Seq<char>) -> Seq<Seq<char>>
    decreases x.len(),
{
    if x.len() == 0 {
        Seq::empty()
    } else {
        let rest = ids_with_status(t, x.drop_last(), st);
        if t.subdomains[x.last()].2 == st {
            rest.push(x.last())
        } else {
            rest
        }
    }
}

/// Whether the subdomains of ids `x` come in ascending order of name in `t`.
pub open spec fn sorted_by_name(t: Store, x: Seq<Seq<char>>) -> bool {
    forall|i: int, j: int|
        0 <= i < j < x.len() ==> text_le(
            #[trigger] t.subdomains[x[i]].1,
            #[trigger] t.subdomains[x[j]].1,
        )
}

/// What keeping the ids of a status keeps: each id of that status, and
/// nothing twice or out of order.
proof fn lemma_ids_with_status(t: Store, x: Seq<Seq<char>>, st: Seq<char>)
    requires
        x.no_duplicates(),
        sorted_by_name(t, x),
    ensures
        forall|k: Seq<char>|
            #[trigger] ids_with_status(t, x, st).contains(k) <==> (x.contains(k) && t.subdomains[k].2
                == st),
        ids_with_status(t, x, st).no_duplicates(),
        sorted_by_name(t, ids_with_status(t, x, st)),
    decreases x.len(),
{
    if x.len() > 0 {
        let p = x.drop_last();
        assert(sorted_by_name(t, p)) by {
            assert forall|i: int, j: int| 0 <= i < j < p.len() implies text_le(
                #[trigger] t.subdomains[p[i]].1,
                #[trigger] t.subdomains[p[j]].1,
            ) by {
                assert(p[i] == x[i] && p[j] == x[j]);
            }
        }
        assert(p.no_duplicates());
        lemma_ids_with_status(t, p, st);
        let f = ids_with_status(t, p, st);
        assert forall|k: Seq<char>| #[trigger] x.contains(k) implies p.contains(k) || k == x.last() by {
            let i = choose|i: int| 0 <= i < x.len() && x[i] == k;
            if i < x.len() - 1 {
                assert(p[i] == k);
            }
        }
        assert forall|k: Seq<char>| #[trigger] p.contains(k) implies x.contains(k) by {
            let i = choose|i: int| 0 <= i < p.len() && p[i] == k;
            assert(x[i] == k);
        }
        assert(!p.contains(x.last())) by {
            if p.contains(x.last()) {
                let i = choose|i: int| 0 <= i < p.len() && p[i] == x.last();
                assert(x[i] == x[x.len() - 1]);
            }
        }
        if t.subdomains[x.last()].2 == st {
            let g = f.push(x.last());
            assert(g == ids_with_status(t, x, st));
            assert forall|k: Seq<char>| #[trigger] g.contains(k) <==> (x.contains(k) && t.subdomains[k].2 == st) by {
                if g.contains(k) {
                    let i = choose|i: int| 0 <= i < g.len() && g[i] == k;
                    if i < f.len() {
                        assert(f[i] == k);
                        assert(f.contains(k));
                    }
                }
                if x.contains(k) && t.subdomains[k].2 == st {
                    if k == x.last() {
                        assert(g[f.len() as int] == k);
                    } else {
                        assert(f.contains(k));
                        let i = choose|i: int| 0 <= i < f.len() && f[i] == k;
                        assert(g[i] == k);
                    }
                }
            }
            assert(g.no_duplicates()) by {
                assert(!f.contains(x.last()));
                assert forall|i: int, j: int| 0 <= i < j < g.len() implies g[i] != g[j] by {
                    if j == f.len() {
                        assert(g[i] == f[i]);
                        assert(f.contains(f[i]));
                    } else {
                        assert(g[i] == f[i] && g[j] == f[j]);
                    }
                }
            }
            assert(sorted_by_name(t, g)) by {
                assert forall|i: int, j: int| 0 <= i < j < g.len() implies text_le(
                    #[trigger] t.subdomains[g[i]].1,
                    #[trigger] t.subdomains[g[j]].1,
                ) by {
                    if j == f.len() {
                        assert(g[i] == f[i]);
                        assert(f.contains(f[i]));
                        assert(p.contains(f[i]));
                        let a = choose|a: int| 0 <= a < p.len() && p[a] == f[i];
                        assert(x[a] == f[i]);
                        assert(g[j] == x[x.len() - 1]);
                    } else {
                        assert(g[i] == f[i] && g[j] == f[j]);
                    }
                }
            }
        } else {
            assert(f == ids_with_status(t, x, st));
            assert forall|k: Seq<char>| #[trigger] f.contains(k) <==> (x.contains(k) && t.subdomains[k].2 == st) by {
                if x.contains(k) && t.subdomains[k].2 == st {
                    assert(k != x.last());
                }
            }
        }
    }
}

/// Two orderings by distinct names of the same ids are the same ordering.
proof fn lemma_sorted_unique(t: Store, target_id: Seq<char>, x: Seq<Seq<char>>, y: Seq<Seq<char>>)
    requires
        x.no_duplicates(),
        y.no_duplicates(),
        forall|k: Seq<char>| #[trigger] x.contains(k) <==> y.contains(k),
        sorted_by_name(t, x),
        sorted_by_name(t, y),
        forall|k: Seq<char>|
            #[trigger] x.contains(k) ==> t.subdomains.contains_key(k) && t.subdomains[k].0 == target_id,
        unique_names(t),
    ensures
        x == y,
    decreases x.len(),
{
    if x.len() == 0 {
        if y.len() > 0 {
            assert(y.contains(y[0]));
            assert(x.contains(y[0]));
            assert(false);
        }
        assert(x =~= y);
    } else {
        assert(x.contains(x[0]));
        assert(y.contains(x[0]));
        let j = choose|j: int| 0 <= j < y.len() && y[j] == x[0];
        assert(y.len() > 0);
        assert(y.contains(y[0]));
        assert(x.contains(y[0]));
        let i = choose|i: int| 0 <= i < x.len() && x[i] == y[0];
        if j != 0 {
            assert(y[0] != y[j]);
            assert(i != 0);
            assert(text_le(t.subdomains[y[0]].1, t.subdomains[y[j]].1));
            assert(text_le(t.subdomains[x[0]].1, t.subdomains[x[i]].1));
            lemma_text_le_antisymmetric(t.subdomains[x[0]].1, t.subdomains[y[0]].1);
            assert(x.contains(x[i]));
            assert(t.subdomains[x[0]] == t.subdomains[x[0]] && t.subdomains[x[i]] == t.subdomains[x[i]]);
            assert(x[0] == x[i]);
        }
        assert(x[0] == y[0]);
        let xr = x.drop_first();
        let yr = y.drop_first();
        assert forall|k: Seq<char>| #[trigger] xr.contains(k) <==> yr.contains(k) by {
            if xr.contains(k) {
                let a = choose|a: int| 0 <= a < xr.len() && xr[a] == k;
                assert(x[a + 1] == k);
                assert(x[a + 1] != x[0]);
                assert(x.contains(k));
                assert(y.contains(k));
                let b = choose|b: int| 0 <= b < y.len() && y[b] == k;
                assert(b != 0);
                assert(yr[b - 1] == k);
            }
            if yr.contains(k) {
                let a = choose|a: int| 0 <= a < yr.len() && yr[a] == k;
                assert(y[a + 1] == k);
                assert(y[a + 1] != y[0]);
                assert(y.contains(k));
                assert(x.contains(k));
                let b = choose|b: int| 0 <= b < x.len() && x[b] == k;
                assert(b != 0);
                assert(xr[b - 1] == k);
            }
        }
        assert(sorted_by_name(t, xr)) by {
            assert forall|a: int, b: int| 0 <= a < b < xr.len() implies text_le(
                #[trigger] t.subdomains[xr[a]].1,
                #[trigger] t.subdomains[xr[b]].1,
            ) by {
                assert(xr[a] == x[a + 1] && xr[b] == x[b + 1]);
            }
        }
        assert(sorted_by_name(t, yr)) by {
            assert forall|a: int, b: int| 0 <= a < b < yr.len() implies text_le(
                #[trigger] t.subdomains[yr[a]].1,
                #[trigger] t.subdomains[yr[b]].1,
            ) by {
                assert(yr[a] == y[a + 1] && yr[b] == y[b + 1]);
            }
        }
        assert forall|k: Seq<char>| #[trigger] xr.contains(k) implies t.subdomains.contains_key(k)
            && t.subdomains[k].0 == target_id by {
            let a = choose|a: int| 0 <= a < xr.len() && xr[a] == k;
            assert(x[a + 1] == k);
            assert(x.contains(k));
        }
        assert(xr.no_duplicates()) by {
            assert forall|a: int, b: int| 0 <= a < b < xr.len() implies xr[a] != xr[b] by {
                assert(xr[a] == x[a + 1] && xr[b] == x[b + 1]);
            }
        }
        assert(yr.no_duplicates()) by {
            assert forall|a: int, b: int| 0 <= a < b < yr.len() implies yr[a] != yr[b] by {
                assert(yr[a] == y[a + 1] && yr[b] == y[b + 1]);
            }
        }
        lemma_sorted_unique(t, target_id, xr, yr);
        assert(x =~= seq![x[0]] + xr);
        assert(y =~= seq![y[0]] + yr);
    }
}

/// The listing of a target's subdomains by status is its full listing with
/// the other statuses left out, in the same order (names are unique under
/// a target, as the store keeps them).
pub proof fn law_status_listing_in_order(
    t: Store,
    target_id: Seq<char>,
    status: SubdomainStatus,
    v: Seq<Subdomain>,
    w: Seq<Subdomain>,
)
    requires
        unique_names(t),
        subdomains_listing(t, target_id, v),
        lists_subdomains(
            w,
            t.subdomains,
            |row: SubRow| row.0 == target_id && row.2 == status_text(status),
        ),
        ascending(w.map_values(|s: Subdomain| s.subdomain@)),
    ensures
        subdomain_ids(w) == ids_with_status(t, subdomain_ids(v), status_text(status)),
{
    law_status_listing_filters(t, target_id, status, v, w);
    let vi = subdomain_ids(v);
    let wi = subdomain_ids(w);
    assert(sorted_by_name(t, vi)) by {
        assert forall|i: int, j: int| 0 <= i < j < vi.len() implies text_le(
            #[trigger] t.subdomains[vi[i]].1,
            #[trigger] t.subdomains[vi[j]].1,
        ) by {
            assert(vi[i] == v[i].id@ && vi[j] == v[j].id@);
            assert(t.subdomains.contains_key(v[i].id@) && t.subdomains.contains_key(v[j].id@));
            assert(v.map_values(|s: Subdomain| s.subdomain@)[i] == v[i].subdomain@);
            assert(v.map_values(|s: Subdomain| s.subdomain@)[j] == v[j].subdomain@);
        }
    }
    assert(sorted_by_name(t, wi)) by {
        assert forall|i: int, j: int| 0 <= i < j < wi.len() implies text_le(
            #[trigger] t.subdomains[wi[i]].1,
            #[trigger] t.subdomains[wi[j]].1,
        ) by {
            assert(wi[i] == w[i].id@ && wi[j] == w[j].id@);
            assert(t.subdomains.contains_key(w[i].id@) && t.subdomains.contains_key(w[j].id@));
            assert(w.map_values(|s: Subdomain| s.subdomain@)[i] == w[i].subdomain@);
            assert(w.map_values(|s: Subdomain| s.subdomain@)[j] == w[j].subdomain@);
        }
    }
    lemma_ids_with_status(t, vi, status_text(status));
    let f = ids_with_status(t, vi, status_text(status));
    assert forall|k: Seq<char>| #[trigger] wi.contains(k) implies t.subdomains.contains_key(k)
        && t.subdomains[k].0 == target_id by {
        let i = choose|i: int| 0 <= i < wi.len() && wi[i] == k;
        assert(wi[i] == w[i].id@);
        assert(t.subdomains.contains_key(w[i].id@));
    }
    assert forall|k: Seq<char>| #[trigger] wi.contains(k) <==> f.contains(k) by {
        assert(wi.contains(k) <==> (vi.contains(k) && t.subdomains[k].2 == status_text(status)));
    }
    lemma_sorted_unique(t, target_id, wi, f);
}

} // verus!
