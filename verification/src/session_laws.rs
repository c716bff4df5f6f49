//! What every key of the interface keeps: deletions wait for confirmation.

use vstd::prelude::*;
use crate::handle_engagements::Action;
use crate::handle_session::{key_step, list_screen_step, menu_screen_step};
use crate::keys::{Key, app_tables};
use crate::app::{App, Screen, filtered_subdomains};
use crate::models::{Subdomain, SubdomainStatus};
use crate::store::Store;

verus! {

/// The key that asks to delete (`d`) never changes the store, on any screen
/// and in any form: it only asks for confirmation, or is typed as a letter.
pub proof fn law_delete_key_keeps_store(t: App, f: App, a: Action, kitty: bool)
    requires
        key_step(t, f, a, Key::Char('d'), kitty),
    ensures
        f.db == t.db,
{
    reveal(list_screen_step);
    reveal(menu_screen_step);
}

/// While a deletion waits for confirmation, no key but Enter changes what
/// the store holds.
pub proof fn law_pending_deletion_needs_enter(t: App, f: App, a: Action, k: Key, kitty: bool)
    requires
        key_step(t, f, a, k, kitty),
        t.confirm_delete,
        k != Key::Enter,
    ensures
        app_tables(f) == app_tables(t),
{
    reveal(list_screen_step);
    reveal(menu_screen_step);
}

/// Whether every row of `s` is still in `u` (under its id; its values may
/// have been changed).
pub open spec fn keeps_rows(s: Store, u: Store) -> bool {
    &&& forall|k: Seq<char>| s.engagements.contains_key(k) ==> #[trigger] u.engagements.contains_key(k)
    &&& forall|k: Seq<char>| s.targets.contains_key(k) ==> #[trigger] u.targets.contains_key(k)
    &&& forall|k: Seq<char>| s.subdomains.contains_key(k) ==> #[trigger] u.subdomains.contains_key(k)
    &&& forall|k: Seq<char>| s.tags.contains_key(k) ==> #[trigger] u.tags.contains_key(k)
    &&& forall|k: Seq<char>| s.technologies.contains_key(k) ==> #[trigger] u.technologies.contains_key(k)
    &&& forall|k: Seq<char>| s.urls.contains_key(k) ==> #[trigger] u.urls.contains_key(k)
    &&& forall|k: Seq<char>| s.ips.contains_key(k) ==> #[trigger] u.ips.contains_key(k)
    &&& forall|k: Seq<char>| s.asns.contains_key(k) ==> #[trigger] u.asns.contains_key(k)
    &&& forall|k: Seq<char>| s.screenshots.contains_key(k) ==> #[trigger] u.screenshots.contains_key(k)
}

/// No row is ever removed but by Enter on a pending deletion: every other
/// key, on every screen past the password, keeps each row of the store.
pub proof fn law_rows_removed_only_on_confirmation(t: App, f: App, a: Action, k: Key, kitty: bool)
    requires
        key_step(t, f, a, k, kitty),
        t.screen != Screen::Password,
        !(t.confirm_delete && k == Key::Enter),
    ensures
        keeps_rows(app_tables(t), app_tables(f)),
{
    reveal(list_screen_step);
    reveal(menu_screen_step);
}

/// Opening the help with `?` and closing it (with `?` or Esc) gives back
/// the state the help was opened from, but for the remembered screen.
pub proof fn law_help_round_trip(
    t: App,
    m: App,
    f: App,
    a1: Action,
    a2: Action,
    close: Key,
    kitty: bool,
)
    requires
        t.screen != Screen::Password,
        t.screen != Screen::Help,
        key_step(t, m, a1, Key::Char('?'), kitty),
        close == Key::Char('?') || close == Key::Esc,
        key_step(m, f, a2, close, kitty),
    ensures
        f == (App { help_previous_screen: None, ..t }),
        a1 is Nothing && a2 is Nothing,
{
    reveal(menu_screen_step);
}

/// The status filter lets through exactly the subdomains of the list whose
/// status is the filter's, in list order: each one it gives back has that
/// status, and each subdomain of the list with that status is given back.
/// Without a filter the whole list is given back.
pub proof fn law_status_filter_keeps_exactly_that_status(v: Seq<Subdomain>, st: SubdomainStatus)
    ensures
        filtered_subdomains(v, Some(st)) == v.filter(|s: Subdomain| s.status == st),
        forall|i: int|
            0 <= i < filtered_subdomains(v, Some(st)).len() ==> (#[trigger] filtered_subdomains(
                v,
                Some(st),
            )[i]).status == st,
        forall|i: int|
            0 <= i < v.len() && (#[trigger] v[i]).status == st ==> filtered_subdomains(
                v,
                Some(st),
            ).contains(v[i]),
        filtered_subdomains(v, None) == v,
    decreases v.len(),
{
    let pred = |s: Subdomain| s.status == st;
    reveal(Seq::filter);
    if v.len() > 0 {
        law_status_filter_keeps_exactly_that_status(v.drop_last(), st);
        assert(v.drop_last().push(v.last()) =~= v);
    } else {
        assert(filtered_subdomains(v, None) =~= v);
    }
    assert(filtered_subdomains(v, Some(st)) == v.filter(pred));
    assert forall|i: int|
        0 <= i < filtered_subdomains(v, Some(st)).len() implies (#[trigger] filtered_subdomains(
            v,
            Some(st),
        )[i]).status == st by {
        v.lemma_filter_pred(pred, i);
    }
    assert forall|i: int|
        0 <= i < v.len() && (#[trigger] v[i]).status == st implies filtered_subdomains(
            v,
            Some(st),
        ).contains(v[i]) by {
        v.lemma_filter_contains(pred, i);
    }
}

} // verus!
