//! Fetch router: resolve a (metric identifier, instance) request to the
//! registered descriptor, validate instance applicability, and translate
//! the callback's outcome into a protocol status code.
//!
//! The callback itself is supplied by the agent author and invoked by
//! the surrounding serve loop; the router decides, before the call, what
//! to invoke with which carrier, and after the call, what to answer —
//! both decisions carry exact contracts.

use vstd::prelude::*;
use crate::atom::{Atom, AtomValue};
use crate::codec::{spec_cluster_of, spec_item_of};
use crate::model::Metric;
use crate::table::{spec_has_key, spec_key, spec_unique_keys, DispatchTable};

verus! {

/// Sentinel instance value meaning "no instance": the request targets a
/// singleton metric.
pub const NO_INSTANCE: u32 = 0xffff_ffff;

/// Status code a request fails with when its (cluster, item) coordinates
/// match no registered metric. Wrong cluster and wrong item are
/// deliberately collapsed into this one code.
pub const STATUS_UNKNOWN_METRIC: i32 = -12358;

/// Status code a request fails with when its instance value does not fit
/// the metric's instance-domain binding.
pub const STATUS_INVALID_INSTANCE: i32 = -12360;

/// Status code answered when a callback reports success without having
/// written a value.
pub const STATUS_NO_VALUE: i32 = -12351;

/// The two request errors the router itself produces. A callback's own
/// negative status codes pass through verbatim and are never
/// reinterpreted into these.
#[derive(Clone, Copy, PartialEq, Eq, Structural, Debug)]
pub enum FetchError {
    UnknownMetric,
    InvalidInstance,
}

impl FetchError {
    /// The fixed integer vocabulary of the collector boundary.
    pub open spec fn spec_code(self) -> i32 {
        match self {
            FetchError::UnknownMetric => STATUS_UNKNOWN_METRIC,
            FetchError::InvalidInstance => STATUS_INVALID_INSTANCE,
        }
    }

    pub fn code(&self) -> (c: i32)
        ensures
            c == self.spec_code(),
    {
        match self {
            FetchError::UnknownMetric => STATUS_UNKNOWN_METRIC,
            FetchError::InvalidInstance => STATUS_INVALID_INSTANCE,
        }
    }
}

/// What the serve loop must do for one routed request: invoke the
/// agent's callback with the resolved metric and an empty carrier, or
/// answer the given status code at once.
#[derive(Clone, Debug)]
pub enum RequestStep {
    Invoke(Metric, AtomValue),
    Respond(i32),
}

/// What goes back to the collector for one fetch request: a serialized
/// value, or a status code alone.
#[derive(Clone, Copy, PartialEq, Eq, Structural, Debug)]
pub enum FetchResponse {
    Value(Atom),
    Error(i32),
}

/// The instance value fits the metric's instance-domain binding: a
/// singleton metric accepts exactly the "no instance" sentinel, a metric
/// bound to an instance domain accepts exactly the non-sentinel values.
pub open spec fn spec_instance_ok(m: Metric, inst: u32) -> bool {
    match m.desc.indom {
        None => inst == NO_INSTANCE,
        Some(_) => inst != NO_INSTANCE,
    }
}

/// The first entry of the sequence with the given coordinates.
pub open spec fn spec_lookup(s: Seq<Metric>, cluster: u32, item: u32) -> Option<Metric>
    decreases s.len(),
{
    if s.len() == 0 {
        None
    } else if spec_key(s[0]) == (cluster, item) {
        Some(s[0])
    } else {
        spec_lookup(s.drop_first(), cluster, item)
    }
}

/// What a request resolves to before any callback runs: the registered
/// metric, or the router's own error.
pub open spec fn spec_resolve(s: Seq<Metric>, pmid: u32, inst: u32) -> Result<Metric, FetchError> {
    match spec_lookup(s, spec_cluster_of(pmid), spec_item_of(pmid)) {
        None => Err(FetchError::UnknownMetric),
        Some(m) => if spec_instance_ok(m, inst) {
            Ok(m)
        } else {
            Err(FetchError::InvalidInstance)
        },
    }
}

/// How a callback's outcome translates into the response: a negative
/// status passes through verbatim; a non-negative status answers the
/// written value, or reports that none was written.
pub open spec fn spec_respond(status: i32, slot: Option<Atom>) -> FetchResponse {
    if status < 0 {
        FetchResponse::Error(status)
    } else {
        match slot {
            Some(a) => FetchResponse::Value(a),
            None => FetchResponse::Error(STATUS_NO_VALUE),
        }
    }
}

/// The response of one whole fetch, as a function of the table, the
/// request, and the callback's outcome (its status and what it wrote).
pub open spec fn spec_fetch(
    s: Seq<Metric>,
    pmid: u32,
    inst: u32,
    status: i32,
    slot: Option<Atom>,
) -> FetchResponse {
    match spec_resolve(s, pmid, inst) {
        Err(e) => FetchResponse::Error(e.spec_code()),
        Ok(_) => spec_respond(status, slot),
    }
}

/// `spec_lookup` finds nothing in a prefix free of the key, so it equals
/// the lookup in the rest.
proof fn lemma_lookup_skip(s: Seq<Metric>, cluster: u32, item: u32, k: int)
    requires
        0 <= k <= s.len(),
        forall|p: int| 0 <= p < k ==> spec_key(s[p]) != (cluster, item),
    ensures
        spec_lookup(s, cluster, item) == spec_lookup(s.skip(k), cluster, item),
    decreases k,
{
    if k > 0 {
        assert(spec_key(s[0]) != (cluster, item));
        assert(spec_lookup(s, cluster, item) == spec_lookup(s.drop_first(), cluster, item));
        lemma_lookup_skip(s.drop_first(), cluster, item, k - 1);
        assert(s.drop_first().skip(k - 1) =~= s.skip(k));
    } else {
        assert(s.skip(0) =~= s);
    }
}

/// Resolve a request to its registered metric, or to the router's own
/// error: `UnknownMetric` exactly when no entry matches the identifier's
/// (cluster, item) coordinates, `InvalidInstance` exactly when an entry
/// matches but the instance value does not fit its instance-domain
/// binding. No callback is involved in either failure.
pub fn resolve(table: &DispatchTable, pmid: u32, inst: u32) -> (r: Result<Metric, FetchError>)
    ensures
        r == spec_resolve(table@, pmid, inst),
{
    let id = crate::codec::Id::new(pmid);
    let cluster = id.cluster();
    let item = id.item();
    match lookup_first(table, cluster, item) {
        None => Err(FetchError::UnknownMetric),
        Some(m) => {
            let ok = match m.desc.indom {
                None => inst == NO_INSTANCE,
                Some(_) => inst != NO_INSTANCE,
            };
            if ok {
                Ok(m)
            } else {
                Err(FetchError::InvalidInstance)
            }
        },
    }
}

/// First-match scan behind `resolve`, proved equal to `spec_lookup`.
fn lookup_first(table: &DispatchTable, cluster: u32, item: u32) -> (r: Option<Metric>)
    ensures
        r == spec_lookup(table@, cluster, item),
{
    let n = table.len();
    let all = table.all();
    let mut k: usize = 0;
    while k < n
        invariant
            n == table@.len(),
            all@ == table@,
            k <= n,
            forall|p: int| 0 <= p < k ==> spec_key(table@[p]) != (cluster, item),
        decreases n - k,
    {
        let c = all[k].desc.id().cluster();
        let i = all[k].desc.id().item();
        if c == cluster && i == item {
            proof {
                lemma_lookup_skip(table@, cluster, item, k as int);
                assert(table@.skip(k as int)[0] == table@[k as int]);
            }
            return Some(all[k]);
        }
        k = k + 1;
    }
    proof {
        lemma_lookup_skip(table@, cluster, item, n as int);
        assert(table@.skip(n as int).len() == 0);
    }
    None
}

/// Allocate the carrier for one resolved request, typed by the target
/// descriptor's value type and empty.
pub fn new_carrier(m: &Metric) -> (c: AtomValue)
    ensures
        c.expected == m.desc.value_type,
        c.slot is None,
        c.wf(),
{
    AtomValue::new(m.desc.value_type)
}

/// Translate a callback's outcome into the response sent back: a
/// negative status — the callback's own vocabulary — passes through
/// verbatim; on success the carrier's contents are answered.
pub fn respond(status: i32, carrier: &AtomValue) -> (r: FetchResponse)
    ensures
        r == spec_respond(status, carrier.slot),
{
    if status < 0 {
        FetchResponse::Error(status)
    } else {
        match carrier.value() {
            Some(a) => FetchResponse::Value(a),
            None => FetchResponse::Error(STATUS_NO_VALUE),
        }
    }
}

/// A singleton metric — one whose descriptor binds no instance domain —
/// fetched with any instance value other than the sentinel resolves to
/// `InvalidInstance`; the callback is never reached.
pub proof fn lemma_singleton_rejects_instance(s: Seq<Metric>, pmid: u32, inst: u32)
    requires
        spec_lookup(s, spec_cluster_of(pmid), spec_item_of(pmid)) matches Some(m) && m.desc.indom
            is None,
        inst != NO_INSTANCE,
    ensures
        spec_resolve(s, pmid, inst) == Err::<Metric, FetchError>(FetchError::InvalidInstance),
{
}

/// An instance-bound metric fetched with the sentinel likewise resolves
/// to `InvalidInstance` without reaching the callback.
pub proof fn lemma_bound_rejects_sentinel(s: Seq<Metric>, pmid: u32)
    requires
        spec_lookup(s, spec_cluster_of(pmid), spec_item_of(pmid)) matches Some(m) && m.desc.indom
            is Some,
    ensures
        spec_resolve(s, pmid, NO_INSTANCE) == Err::<Metric, FetchError>(
            FetchError::InvalidInstance,
        ),
{
}

/// Fetching is deterministic in the request and the callback's outcome:
/// two fetches of the same table, metric and instance whose callback
/// returned the same status and wrote the same value answer the same
/// response — repeated fetches with a deterministic callback cannot
/// diverge.
pub proof fn lemma_fetch_deterministic(
    s: Seq<Metric>,
    pmid: u32,
    inst: u32,
    status: i32,
    slot: Option<Atom>,
    r1: FetchResponse,
    r2: FetchResponse,
)
    requires
        r1 == spec_fetch(s, pmid, inst, status, slot),
        r2 == spec_fetch(s, pmid, inst, status, slot),
    ensures
        r1 == r2,
{
}

/// With unique keys, any matching entry is the one `spec_lookup` finds:
/// the router cannot answer from a different entry than the registered
/// one.
pub proof fn lemma_lookup_unique(s: Seq<Metric>, k: int)
    requires
        spec_unique_keys(s),
        0 <= k < s.len(),
    ensures
        spec_lookup(s, spec_key(s[k]).0, spec_key(s[k]).1) == Some(s[k]),
    decreases s.len(),
{
    let cluster = spec_key(s[k]).0;
    let item = spec_key(s[k]).1;
    if k == 0 {
    } else {
        assert(spec_key(s[0]) != (cluster, item));
        assert(spec_unique_keys(s.drop_first())) by {
            assert forall|i: int, j: int|
                0 <= i < j < s.drop_first().len() implies spec_key(s.drop_first()[i]) != spec_key(
                s.drop_first()[j]) by {
                assert(s.drop_first()[i] == s[i + 1]);
                assert(s.drop_first()[j] == s[j + 1]);
            }
        }
        assert(s.drop_first()[k - 1] == s[k]);
        lemma_lookup_unique(s.drop_first(), k - 1);
    }
}

/// Registered metrics are found: if the table holds an entry with the
/// request's coordinates, resolution never answers `UnknownMetric`.
pub proof fn lemma_registered_not_unknown(s: Seq<Metric>, pmid: u32, inst: u32)
    requires
        spec_has_key(s, spec_cluster_of(pmid), spec_item_of(pmid)),
    ensures
        spec_resolve(s, pmid, inst) != Err::<Metric, FetchError>(FetchError::UnknownMetric),
    decreases s.len(),
{
    let cluster = spec_cluster_of(pmid);
    let item = spec_item_of(pmid);
    let k = choose|k: int| 0 <= k < s.len() && spec_key(s[k]) == (cluster, item);
    if spec_key(s[0]) == (cluster, item) {
    } else {
        assert(s.drop_first()[k - 1] == s[k]);
        assert(spec_has_key(s.drop_first(), cluster, item));
        lemma_registered_not_unknown(s.drop_first(), pmid, inst);
    }
}

} // verus!
