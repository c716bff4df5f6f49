//! The summary of an import: how many records of each kind were added and
//! how many were already there.

use vstd::prelude::*;

verus! {

/// Counts of added and skipped records, per kind, for one import.
#[derive(Debug, Clone, Copy, PartialEq, Eq, Structural)]
pub struct ImportReport {
    pub subdomains_added: usize,
    pub subdomains_skipped: usize,
    pub ips_added: usize,
    pub ips_skipped: usize,
    pub asns_added: usize,
    pub asns_skipped: usize,
    pub urls_added: usize,
    pub urls_skipped: usize,
    pub technologies_added: usize,
    pub technologies_skipped: usize,
}

impl Default for ImportReport {
    fn default() -> (r: Self)
        ensures
            r == ImportReport::zero(),
    {
        ImportReport {
            subdomains_added: 0,
            subdomains_skipped: 0,
            ips_added: 0,
            ips_skipped: 0,
            asns_added: 0,
            asns_skipped: 0,
            urls_added: 0,
            urls_skipped: 0,
            technologies_added: 0,
            technologies_skipped: 0,
        }
    }
}

impl ImportReport {
    /// The report of an import that touched nothing.
    pub open spec fn zero() -> ImportReport {
        ImportReport {
            subdomains_added: 0,
            subdomains_skipped: 0,
            ips_added: 0,
            ips_skipped: 0,
            asns_added: 0,
            asns_skipped: 0,
            urls_added: 0,
            urls_skipped: 0,
            technologies_added: 0,
            technologies_skipped: 0,
        }
    }

    /// All records added, of every kind.
    pub open spec fn added_sum(self) -> int {
        self.subdomains_added + self.ips_added + self.asns_added + self.urls_added
            + self.technologies_added
    }

    /// All records skipped, of every kind.
    pub open spec fn skipped_sum(self) -> int {
        self.subdomains_skipped + self.ips_skipped + self.asns_skipped + self.urls_skipped
            + self.technologies_skipped
    }

    /// Whether every count of `a` plus the same count of `b` fits in a `usize`.
    pub open spec fn can_merge(a: ImportReport, b: ImportReport) -> bool {
        &&& a.subdomains_added + b.subdomains_added <= usize::MAX
        &&& a.subdomains_skipped + b.subdomains_skipped <= usize::MAX
        &&& a.ips_added + b.ips_added <= usize::MAX
        &&& a.ips_skipped + b.ips_skipped <= usize::MAX
        &&& a.asns_added + b.asns_added <= usize::MAX
        &&& a.asns_skipped + b.asns_skipped <= usize::MAX
        &&& a.urls_added + b.urls_added <= usize::MAX
        &&& a.urls_skipped + b.urls_skipped <= usize::MAX
        &&& a.technologies_added + b.technologies_added <= usize::MAX
        &&& a.technologies_skipped + b.technologies_skipped <= usize::MAX
    }

    /// The report whose every count is the sum of the counts of `a` and `b`.
    pub open spec fn merged(a: ImportReport, b: ImportReport) -> ImportReport {
        ImportReport {
            subdomains_added: (a.subdomains_added + b.subdomains_added) as usize,
            subdomains_skipped: (a.subdomains_skipped + b.subdomains_skipped) as usize,
            ips_added: (a.ips_added + b.ips_added) as usize,
            ips_skipped: (a.ips_skipped + b.ips_skipped) as usize,
            asns_added: (a.asns_added + b.asns_added) as usize,
            asns_skipped: (a.asns_skipped + b.asns_skipped) as usize,
            urls_added: (a.urls_added + b.urls_added) as usize,
            urls_skipped: (a.urls_skipped + b.urls_skipped) as usize,
            technologies_added: (a.technologies_added + b.technologies_added) as usize,
            technologies_skipped: (a.technologies_skipped + b.technologies_skipped) as usize,
        }
    }

    /// Adds every count of `other` to the same count of `self`.
    pub fn merge(&mut self, other: ImportReport)
        requires
            ImportReport::can_merge(*old(self), other),
        ensures
            *final(self) == ImportReport::merged(*old(self), other),
    {
        self.subdomains_added = self.subdomains_added + other.subdomains_added;
        self.subdomains_skipped = self.subdomains_skipped + other.subdomains_skipped;
        self.ips_added = self.ips_added + other.ips_added;
        self.ips_skipped = self.ips_skipped + other.ips_skipped;
        self.asns_added = self.asns_added + other.asns_added;
        self.asns_skipped = self.asns_skipped + other.asns_skipped;
        self.urls_added = self.urls_added + other.urls_added;
        self.urls_skipped = self.urls_skipped + other.urls_skipped;
        self.technologies_added = self.technologies_added + other.technologies_added;
        self.technologies_skipped = self.technologies_skipped + other.technologies_skipped;
    }

    /// Whether the totals of added and of skipped records fit in a `usize`.
    pub fn totals_fit(&self) -> (r: bool)
        ensures
            r == (self.added_sum() <= usize::MAX && self.skipped_sum() <= usize::MAX),
    {
        let a = (self.subdomains_added as u128) + (self.ips_added as u128) + (self.asns_added as u128)
            + (self.urls_added as u128) + (self.technologies_added as u128);
        let s = (self.subdomains_skipped as u128) + (self.ips_skipped as u128) + (
        self.asns_skipped as u128) + (self.urls_skipped as u128) + (
        self.technologies_skipped as u128);
        a <= (usize::MAX as u128) && s <= (usize::MAX as u128)
    }

    /// Records added, all kinds together.
    pub fn total_added(&self) -> (r: usize)
        requires
            self.added_sum() <= usize::MAX,
        ensures
            r == self.added_sum(),
    {
        self.subdomains_added + self.ips_added + self.asns_added + self.urls_added
            + self.technologies_added
    }

    /// Records skipped, all kinds together.
    pub fn total_skipped(&self) -> (r: usize)
        requires
            self.skipped_sum() <= usize::MAX,
        ensures
            r == self.skipped_sum(),
    {
        self.subdomains_skipped + self.ips_skipped + self.asns_skipped + self.urls_skipped
            + self.technologies_skipped
    }
}

/// Merging adds the totals: what two imports added (skipped) together is the
/// sum of what each added (skipped).
pub proof fn lemma_merge_adds_totals(a: ImportReport, b: ImportReport)
    requires
        ImportReport::can_merge(a, b),
    ensures
        ImportReport::merged(a, b).added_sum() == a.added_sum() + b.added_sum(),
        ImportReport::merged(a, b).skipped_sum() == a.skipped_sum() + b.skipped_sum(),
{
}

/// The empty report is neutral for merging.
pub proof fn lemma_merge_zero(a: ImportReport)
    ensures
        ImportReport::can_merge(a, ImportReport::zero()),
        ImportReport::merged(a, ImportReport::zero()) == a,
        ImportReport::merged(ImportReport::zero(), a) == a,
{
}

/// The order in which two reports are merged does not matter.
pub proof fn lemma_merge_commutes(a: ImportReport, b: ImportReport)
    requires
        ImportReport::can_merge(a, b),
    ensures
        ImportReport::can_merge(b, a),
        ImportReport::merged(a, b) == ImportReport::merged(b, a),
{
}

/// Merging three reports gives the same report however it is grouped.
pub proof fn lemma_merge_associates(a: ImportReport, b: ImportReport, c: ImportReport)
    requires
        ImportReport::can_merge(a, b),
        ImportReport::can_merge(ImportReport::merged(a, b), c),
    ensures
        ImportReport::can_merge(b, c),
        ImportReport::can_merge(a, ImportReport::merged(b, c)),
        ImportReport::merged(ImportReport::merged(a, b), c) == ImportReport::merged(
            a,
            ImportReport::merged(b, c),
        ),
{
}

} // verus!
