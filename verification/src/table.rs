//! Dispatch table: the ordered collection of registered metrics, built
//! once at startup and read-only thereafter. Construction rejects two
//! entries with the same (cluster, item) coordinates — a fatal
//! configuration error, never a silent overwrite.

use vstd::prelude::*;
use crate::codec::{spec_cluster_of, spec_item_of};
use crate::model::Metric;

verus! {

/// A fatal configuration error detected at or before table construction.
#[derive(Clone, Copy, PartialEq, Eq, Structural, Debug)]
pub enum ConfigError {
    /// Two registered metrics share (cluster, item) coordinates.
    DuplicateMetric,
    /// The agent name or base directory is empty or holds a NUL.
    BadIdentity,
}

/// The (cluster, item) coordinates a metric is looked up by. The domain
/// part of the identifier is fixed per agent process and takes no part
/// in dispatch.
pub open spec fn spec_key(m: Metric) -> (u32, u32) {
    (spec_cluster_of(m.desc.pmid), spec_item_of(m.desc.pmid))
}

/// No two entries of the sequence share (cluster, item) coordinates.
pub open spec fn spec_unique_keys(s: Seq<Metric>) -> bool {
    forall|i: int, j: int|
        0 <= i < j < s.len() ==> spec_key(s[i]) != spec_key(s[j])
}

/// Some entry of the sequence has the given coordinates.
pub open spec fn spec_has_key(s: Seq<Metric>, cluster: u32, item: u32) -> bool {
    exists|k: int| 0 <= k < s.len() && spec_key(s[k]) == (cluster, item)
}

/// The ordered, immutable mapping from metric coordinates to descriptors.
pub struct DispatchTable {
    metrics: Vec<Metric>,
}

impl View for DispatchTable {
    type V = Seq<Metric>;

    closed spec fn view(&self) -> Seq<Metric> {
        self.metrics@
    }
}

impl DispatchTable {
    /// Every constructed table has pairwise distinct (cluster, item)
    /// coordinates.
    pub open spec fn wf(self) -> bool {
        spec_unique_keys(self@)
    }

    /// Build the table from the caller-supplied descriptor sequence,
    /// keeping its order. Fails — and builds nothing — exactly when two
    /// entries collide on (cluster, item), whatever their other fields.
    pub fn new(metrics: Vec<Metric>) -> (r: Result<DispatchTable, ConfigError>)
        ensures
            r matches Ok(t) ==> t@ == metrics@ && t.wf(),
            r is Ok <==> spec_unique_keys(metrics@),
            r is Err ==> r == Err::<DispatchTable, ConfigError>(ConfigError::DuplicateMetric),
    {
        let n = metrics.len();
        let mut i: usize = 0;
        while i < n
            invariant
                n == metrics@.len(),
                i <= n,
                forall|p: int, q: int|
                    0 <= p < q < metrics@.len() && p < i ==> spec_key(metrics@[p]) != spec_key(
                    metrics@[q]),
            decreases n - i,
        {
            let mut j: usize = i + 1;
            while j < n
                invariant
                    n == metrics@.len(),
                    i < j <= n,
                    forall|q: int|
                        i < q < j ==> spec_key(metrics@[i as int]) != spec_key(metrics@[q]),
                decreases n - j,
            {
                let ci = metrics[i].desc.id().cluster();
                let ii = metrics[i].desc.id().item();
                let cj = metrics[j].desc.id().cluster();
                let ij = metrics[j].desc.id().item();
                if ci == cj && ii == ij {
                    return Err(ConfigError::DuplicateMetric);
                }
                j = j + 1;
            }
            i = i + 1;
        }
        Ok(DispatchTable { metrics })
    }

    /// How many metrics are registered.
    pub fn len(&self) -> (n: usize)
        ensures
            n == self@.len(),
    {
        self.metrics.len()
    }

    /// All registered metrics, in registration order, for describe and
    /// enumeration requests.
    pub fn all(&self) -> (r: &Vec<Metric>)
        ensures
            r@ == self@,
    {
        &self.metrics
    }

    /// Resolve (cluster, item) coordinates to the registered metric.
    /// Returns `None` exactly when no entry matches; with the table
    /// well-formed the match is unique.
    pub fn lookup(&self, cluster: u32, item: u32) -> (r: Option<Metric>)
        ensures
            r is Some <==> spec_has_key(self@, cluster, item),
            r matches Some(m) ==> exists|k: int|
                0 <= k < self@.len() && self@[k] == m && spec_key(m) == (cluster, item),
    {
        let n = self.metrics.len();
        let mut k: usize = 0;
        while k < n
            invariant
                n == self@.len(),
                k <= n,
                forall|p: int| 0 <= p < k ==> spec_key(self@[p]) != (cluster, item),
            decreases n - k,
        {
            let c = self.metrics[k].desc.id().cluster();
            let i = self.metrics[k].desc.id().item();
            if c == cluster && i == item {
                return Some(self.metrics[k]);
            }
            k = k + 1;
        }
        None
    }
}

} // verus!
