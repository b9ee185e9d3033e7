//! Identity codec: a metric identifier packs a (domain, cluster, item)
//! triple into one 32-bit value.
//!
//! Layout, from the most significant bit down: one reserved flag bit
//! (always zero for a legal identifier), 9 bits of domain, 12 bits of
//! cluster, 10 bits of item.

use vstd::prelude::*;

verus! {

/// Exclusive upper bound of the domain field (9 bits).
pub const DOMAIN_LIMIT: u32 = 0x200;

/// Exclusive upper bound of the cluster field (12 bits).
pub const CLUSTER_LIMIT: u32 = 0x1000;

/// Exclusive upper bound of the item field (10 bits).
pub const ITEM_LIMIT: u32 = 0x400;

pub open spec fn spec_pack(domain: u32, cluster: u32, item: u32) -> u32 {
    (domain << 22) | (cluster << 10) | item
}

pub open spec fn spec_domain_of(id: u32) -> u32 {
    (id >> 22) & 0x1ff
}

pub open spec fn spec_cluster_of(id: u32) -> u32 {
    (id >> 10) & 0xfff
}

pub open spec fn spec_item_of(id: u32) -> u32 {
    id & 0x3ff
}

/// An identifier is legal when its reserved flag bit is clear.
pub open spec fn spec_legal_id(id: u32) -> bool {
    id >> 31 == 0
}

/// Pack a (domain, cluster, item) triple into one identifier.
/// Exceeding a field's bit width is a contract violation, not a
/// recoverable error.
pub fn pack(domain: u32, cluster: u32, item: u32) -> (id: u32)
    requires
        domain < DOMAIN_LIMIT,
        cluster < CLUSTER_LIMIT,
        item < ITEM_LIMIT,
    ensures
        id == spec_pack(domain, cluster, item),
        spec_legal_id(id),
        spec_domain_of(id) == domain,
        spec_cluster_of(id) == cluster,
        spec_item_of(id) == item,
{
    proof {
        lemma_pack_fields(domain, cluster, item);
        lemma_pack_unpack(domain, cluster, item);
    }
    (domain << 22u32) | (cluster << 10u32) | item
}

/// Unpack any 32-bit value into its (domain, cluster, item) triple;
/// total, with no failure case.
pub fn unpack(id: u32) -> (r: (u32, u32, u32))
    ensures
        r.0 == spec_domain_of(id),
        r.1 == spec_cluster_of(id),
        r.2 == spec_item_of(id),
        r.0 < DOMAIN_LIMIT,
        r.1 < CLUSTER_LIMIT,
        r.2 < ITEM_LIMIT,
{
    proof {
        lemma_field_bounds(id);
    }
    ((id >> 22u32) & 0x1ff, (id >> 10u32) & 0xfff, id & 0x3ff)
}

/// Identifier with the domain field left zero; the domain is assigned
/// out-of-band, per agent process.
pub fn pm_id(cluster: u32, item: u32) -> (id: u32)
    requires
        cluster < CLUSTER_LIMIT,
        item < ITEM_LIMIT,
    ensures
        id == spec_pack(0, cluster, item),
        spec_cluster_of(id) == cluster,
        spec_item_of(id) == item,
        spec_domain_of(id) == 0,
        spec_legal_id(id),
{
    proof {
        lemma_pack_unpack(0, cluster, item);
    }
    pack(0, cluster, item)
}

/// A packed metric identifier together with its field accessors.
#[derive(Clone, Copy, PartialEq, Eq, Structural, Debug)]
pub struct Id {
    pub id: u32,
}

impl Id {
    pub fn new(id: u32) -> (r: Id)
        ensures
            r.id == id,
    {
        Id { id }
    }

    pub fn domain(&self) -> (d: u32)
        ensures
            d == spec_domain_of(self.id),
            d < DOMAIN_LIMIT,
    {
        proof {
            lemma_field_bounds(self.id);
        }
        (self.id >> 22u32) & 0x1ff
    }

    pub fn cluster(&self) -> (c: u32)
        ensures
            c == spec_cluster_of(self.id),
            c < CLUSTER_LIMIT,
    {
        proof {
            lemma_field_bounds(self.id);
        }
        (self.id >> 10u32) & 0xfff
    }

    pub fn item(&self) -> (i: u32)
        ensures
            i == spec_item_of(self.id),
            i < ITEM_LIMIT,
    {
        proof {
            lemma_field_bounds(self.id);
        }
        self.id & 0x3ff
    }
}

/// Each unpacked field lies below its limit, whatever the identifier.
pub proof fn lemma_field_bounds(id: u32)
    ensures
        spec_domain_of(id) < DOMAIN_LIMIT,
        spec_cluster_of(id) < CLUSTER_LIMIT,
        spec_item_of(id) < ITEM_LIMIT,
{
    assert(((id >> 22) & 0x1ff) < 0x200) by (bit_vector);
    assert(((id >> 10) & 0xfff) < 0x1000) by (bit_vector);
    assert((id & 0x3ff) < 0x400) by (bit_vector);
}

/// A legal pack keeps the reserved flag bit clear.
pub proof fn lemma_pack_fields(domain: u32, cluster: u32, item: u32)
    requires
        domain < DOMAIN_LIMIT,
        cluster < CLUSTER_LIMIT,
        item < ITEM_LIMIT,
    ensures
        spec_legal_id(spec_pack(domain, cluster, item)),
{
    assert(domain < 0x200 && cluster < 0x1000 && item < 0x400 ==> (((domain << 22) | (
    cluster << 10) | item) >> 31) == 0) by (bit_vector);
}

/// Round trip one way: unpacking a packed triple gives the triple back,
/// for every domain below 2^9, cluster below 2^12 and item below 2^10.
pub proof fn lemma_pack_unpack(domain: u32, cluster: u32, item: u32)
    requires
        domain < DOMAIN_LIMIT,
        cluster < CLUSTER_LIMIT,
        item < ITEM_LIMIT,
    ensures
        spec_domain_of(spec_pack(domain, cluster, item)) == domain,
        spec_cluster_of(spec_pack(domain, cluster, item)) == cluster,
        spec_item_of(spec_pack(domain, cluster, item)) == item,
{
    assert(domain < 0x200 && cluster < 0x1000 && item < 0x400 ==> ((((domain << 22) | (
    cluster << 10) | item) >> 22) & 0x1ff) == domain) by (bit_vector);
    assert(cluster < 0x1000 && item < 0x400 ==> ((((domain << 22) | (cluster << 10)
    | item) >> 10) & 0xfff) == cluster) by (bit_vector);
    assert(item < 0x400 ==> (((domain << 22) | (cluster << 10) | item) & 0x3ff)
    == item) by (bit_vector);
}

/// Round trip the other way: packing the unpacked fields of a legal
/// identifier gives the identifier back.
pub proof fn lemma_unpack_pack(id: u32)
    requires
        spec_legal_id(id),
    ensures
        spec_pack(spec_domain_of(id), spec_cluster_of(id), spec_item_of(id)) == id,
{
    assert(id >> 31 == 0 ==> ((((id >> 22) & 0x1ff) << 22) | (((id >> 10) & 0xfff)
    << 10) | (id & 0x3ff)) == id) by (bit_vector);
}

} // verus!
