//! Value carrier: the single-occupancy slot a fetch callback writes its
//! value into. The router allocates one per request, typed by the target
//! descriptor's value type; the callback must write exactly one value of
//! the matching type, and only the router reads it back afterwards.
//!
//! Floating-point values travel as their IEEE 754 bit patterns, so the
//! carrier itself holds plain integers only.

use vstd::prelude::*;
use crate::model::ValueType;

verus! {

/// One written metric value.
#[derive(Clone, Copy, PartialEq, Eq, Structural, Debug)]
pub enum Atom {
    I32(i32),
    U32(u32),
    I64(i64),
    U64(u64),
    /// Bit pattern of a 32-bit IEEE 754 value.
    F32Bits(u32),
    /// Bit pattern of a 64-bit IEEE 754 value.
    F64Bits(u64),
}

impl Atom {
    /// The value type a written atom matches.
    pub open spec fn spec_type(self) -> ValueType {
        match self {
            Atom::I32(_) => ValueType::Int32,
            Atom::U32(_) => ValueType::UInt32,
            Atom::I64(_) => ValueType::Int64,
            Atom::U64(_) => ValueType::UInt64,
            Atom::F32Bits(_) => ValueType::Float32,
            Atom::F64Bits(_) => ValueType::Float64,
        }
    }
}

/// The carrier handed to a callback: empty on allocation, then written
/// exactly once with a value of the expected type. Writing a second
/// value, or one of another type, is a contract violation of the
/// callback, not a recoverable error.
#[derive(Clone, PartialEq, Eq, Structural, Debug)]
pub struct AtomValue {
    /// The value type the target descriptor declares.
    pub expected: ValueType,
    /// The written value, if any.
    pub slot: Option<Atom>,
}

impl AtomValue {
    /// The carrier is empty or holds a value of the expected type.
    pub open spec fn wf(self) -> bool {
        match self.slot {
            Some(a) => a.spec_type() == self.expected,
            None => true,
        }
    }

    /// An empty carrier for a descriptor of the given value type.
    pub fn new(expected: ValueType) -> (c: AtomValue)
        ensures
            c.expected == expected,
            c.slot is None,
            c.wf(),
    {
        AtomValue { expected, slot: None }
    }

    /// The written value, read by the router to serialize the response.
    pub fn value(&self) -> (v: Option<Atom>)
        ensures
            v == self.slot,
    {
        self.slot
    }

    pub fn set_i32(&mut self, value: i32)
        requires
            old(self).expected == ValueType::Int32,
            old(self).slot is None,
        ensures
            *final(self) == (AtomValue { slot: Some(Atom::I32(value)), ..*old(self) }),
            final(self).wf(),
    {
        self.slot = Some(Atom::I32(value));
    }

    pub fn set_u32(&mut self, value: u32)
        requires
            old(self).expected == ValueType::UInt32,
            old(self).slot is None,
        ensures
            *final(self) == (AtomValue { slot: Some(Atom::U32(value)), ..*old(self) }),
            final(self).wf(),
    {
        self.slot = Some(Atom::U32(value));
    }

    pub fn set_i64(&mut self, value: i64)
        requires
            old(self).expected == ValueType::Int64,
            old(self).slot is None,
        ensures
            *final(self) == (AtomValue { slot: Some(Atom::I64(value)), ..*old(self) }),
            final(self).wf(),
    {
        self.slot = Some(Atom::I64(value));
    }

    pub fn set_u64(&mut self, value: u64)
        requires
            old(self).expected == ValueType::UInt64,
            old(self).slot is None,
        ensures
            *final(self) == (AtomValue { slot: Some(Atom::U64(value)), ..*old(self) }),
            final(self).wf(),
    {
        self.slot = Some(Atom::U64(value));
    }

    /// Write a 32-bit floating-point value, given as its bit pattern.
    pub fn set_f32_bits(&mut self, bits: u32)
        requires
            old(self).expected == ValueType::Float32,
            old(self).slot is None,
        ensures
            *final(self) == (AtomValue { slot: Some(Atom::F32Bits(bits)), ..*old(self) }),
            final(self).wf(),
    {
        self.slot = Some(Atom::F32Bits(bits));
    }

    /// Write a 64-bit floating-point value, given as its bit pattern.
    pub fn set_f64_bits(&mut self, bits: u64)
        requires
            old(self).expected == ValueType::Float64,
            old(self).slot is None,
        ensures
            *final(self) == (AtomValue { slot: Some(Atom::F64Bits(bits)), ..*old(self) }),
            final(self).wf(),
    {
        self.slot = Some(Atom::F64Bits(bits));
    }
}

} // verus!
