//! Descriptor model: the immutable metadata of one metric — value type,
//! instance-domain binding, semantic kind and unit encoding.

use vstd::prelude::*;

verus! {

/// The value type a metric's callback produces.
#[derive(Clone, Copy, PartialEq, Eq, Structural, Debug)]
pub enum ValueType {
    Int32,
    UInt32,
    Int64,
    UInt64,
    Float32,
    Float64,
    Text,
    Aggregate,
    NoSupport,
}

/// The semantic kind of a metric's value.
#[derive(Clone, Copy, PartialEq, Eq, Structural, Debug)]
pub enum Semantics {
    Counter,
    Instant,
    Discrete,
}

/// Dimensional exponents and scale factors of a metric's value; opaque to
/// the dispatch logic, preserved verbatim from registration through to
/// protocol responses.
#[derive(Clone, Copy, PartialEq, Eq, Structural, Debug)]
pub struct Units {
    pub dim_space: i8,
    pub dim_time: i8,
    pub dim_count: i8,
    pub scale_space: u8,
    pub scale_time: u8,
    pub scale_count: i8,
}

impl Units {
    pub fn new(
        dim_space: i8,
        dim_time: i8,
        dim_count: i8,
        scale_space: u8,
        scale_time: u8,
        scale_count: i8,
    ) -> (u: Units)
        ensures
            u == (Units {
                dim_space,
                dim_time,
                dim_count,
                scale_space,
                scale_time,
                scale_count,
            }),
    {
        Units { dim_space, dim_time, dim_count, scale_space, scale_time, scale_count }
    }

    /// A dimensionless, unscaled value.
    pub open spec fn spec_none() -> Units {
        Units {
            dim_space: 0,
            dim_time: 0,
            dim_count: 0,
            scale_space: 0,
            scale_time: 0,
            scale_count: 0,
        }
    }
}

impl Default for Units {
    /// Dimensionless, unscaled.
    fn default() -> (u: Units)
        ensures
            u == Units::spec_none(),
    {
        Units { dim_space: 0, dim_time: 0, dim_count: 0, scale_space: 0, scale_time: 0, scale_count: 0 }
    }
}

/// The descriptor of one metric. Created once at registration time and
/// immutable for the process lifetime; the dispatch table owns it, a
/// callback only ever reads it.
#[derive(Clone, Copy, PartialEq, Eq, Structural, Debug)]
pub struct Desc {
    /// Packed metric identifier (see `codec`).
    pub pmid: u32,
    pub value_type: ValueType,
    /// Instance domain the metric reports per-instance values for;
    /// `None` means the metric is a singleton.
    pub indom: Option<u32>,
    pub semantics: Semantics,
    pub units: Units,
}

impl Desc {
    /// Build a descriptor with every field given up front, so that no
    /// half-initialized descriptor can reach the dispatch table.
    pub fn new(
        pmid: u32,
        value_type: ValueType,
        indom: Option<u32>,
        semantics: Semantics,
        units: Units,
    ) -> (d: Desc)
        ensures
            d == (Desc { pmid, value_type, indom, semantics, units }),
    {
        Desc { pmid, value_type, indom, semantics, units }
    }

    /// The descriptor's packed identifier, as an `Id` carrying the field
    /// accessors.
    pub fn id(&self) -> (r: crate::codec::Id)
        ensures
            r.id == self.pmid,
    {
        crate::codec::Id::new(self.pmid)
    }
}

/// One dispatch entry: a registered metric. The fetch callback itself is
/// installed once for the whole agent (see `lifecycle`), so an entry
/// carries the descriptor alone.
#[derive(Clone, Copy, PartialEq, Eq, Structural, Debug)]
pub struct Metric {
    pub desc: Desc,
}

impl Metric {
    pub fn new(desc: Desc) -> (m: Metric)
        ensures
            m.desc == desc,
    {
        Metric { desc }
    }

    pub fn desc(&self) -> (d: Desc)
        ensures
            d == self.desc,
    {
        self.desc
    }
}

} // verus!
