use vstd::prelude::*;

use crate::exceptions::Exception;

verus! {

/// One architectural register: a 64-bit cell and whether it is in 64-bit mode.
/// A register in 32-bit mode reads back only its low 32 bits and refuses
/// values that do not fit in them.
#[derive(Copy, Clone)]
pub struct Reg {
    pub value: u64,
    pub u64_mode: bool,
}

impl Reg {
    /// What a read of the register returns.
    pub open spec fn read(self) -> u64 {
        if self.u64_mode {
            self.value
        } else {
            self.value & 0xFFFF_FFFF
        }
    }

    /// The register after `v` has been stored in it.
    pub open spec fn with_value(self, v: u64) -> Reg {
        Reg { value: v, u64_mode: self.u64_mode }
    }

    /// Whether a store of `v` is accepted.
    pub open spec fn accepts(self, v: u64) -> bool {
        self.u64_mode || v <= 0xFFFF_FFFF
    }

    /// The register as it is at power-on: zero, in 32-bit mode.
    pub open spec fn default_spec() -> Reg {
        Reg { value: 0, u64_mode: false }
    }

    pub fn default() -> (r: Reg)
        ensures
            r == Reg::default_spec(),
    {
        Reg { value: 0, u64_mode: false }
    }

    pub fn new(value: u64, u64_mode: bool) -> (r: Reg)
        ensures
            r.value == value,
            r.u64_mode == u64_mode,
    {
        Reg { value: value, u64_mode: u64_mode }
    }

    pub fn get_value(self) -> (r: u64)
        ensures
            r == self.read(),
            r as u32 == self.value as u32,
            !self.u64_mode ==> r <= 0xFFFF_FFFF,
    {
        let v = self.value;
        assert((v & 0xFFFF_FFFF) as u32 == v as u32) by (bit_vector);
        assert(v & 0xFFFF_FFFF <= 0xFFFF_FFFF) by (bit_vector);
        if self.u64_mode {
            self.value
        } else {
            self.value & 0xFFFF_FFFF
        }
    }

    /// Stores `value`; a register in 32-bit mode refuses a value above
    /// 2^32 - 1 and keeps its contents.
    pub fn set_value(&mut self, value: u64) -> (r: Result<(), Exception>)
        ensures
            old(self).accepts(value) ==> r is Ok && *final(self) == old(self).with_value(value),
            !old(self).accepts(value) ==> (r matches Err(Exception::OTHER(_))) && *final(self) == *old(self),
    {
        if self.u64_mode || value <= 0xFFFF_FFFF {
            self.value = value;
            Ok(())
        } else {
            Err(Exception::OTHER("Cannot set a 32 bit register with a 64 bit value".to_owned()))
        }
    }

    /// Stores a 32-bit value, which every register accepts.
    pub fn set_u32(&mut self, value: u32)
        ensures
            *final(self) == old(self).with_value(value as u64),
    {
        self.value = value as u64;
    }
}

/// A register in 32-bit mode reads back exactly what was stored in it, and
/// refuses anything wider; one in 64-bit mode reads back any stored value.
pub proof fn lemma_register_round_trip(r: Reg, v: u64)
    ensures
        !r.u64_mode ==> (r.accepts(v) <==> v <= 0xFFFF_FFFF),
        r.accepts(v) ==> r.with_value(v).read() == v,
        r.u64_mode ==> r.accepts(v),
{
    assert(v <= 0xFFFF_FFFF ==> v & 0xFFFF_FFFF == v) by (bit_vector);
}

} // verus!
