use vstd::prelude::*;

use crate::binary_helpers::{copy_range, lemma_word_round_trip, store_word_at, u32_to_u8_vector_by_loc, u8_slice_to_u32, word_at};
use crate::exceptions::Exception;

verus! {

pub const RDRAM_RANGE_0_START: usize = 0x00000000;
pub const RDRAM_RANGE_0_END: usize = 0x001FFFFF;
pub const RDRAM_RANGE_1_START: usize = 0x00200000;
pub const RDRAM_RANGE_1_END: usize = 0x003FFFFF;
pub const RDRAM_RANGE_2_START: usize = 0x00400000;
pub const RDRAM_RANGE_2_END: usize = 0x007FFFFF;

/// Main memory, as three banks of bytes.
pub struct RDRAM {
    pub range0: Vec<u8>,
    pub range1: Vec<u8>,
    pub range2: Vec<u8>,
}

impl RDRAM {
    pub open spec fn wf(self) -> bool {
        &&& self.range0.len() == RDRAM_RANGE_0_END - RDRAM_RANGE_0_START + 1
        &&& self.range1.len() == RDRAM_RANGE_1_END - RDRAM_RANGE_1_START + 1
        &&& self.range2.len() == RDRAM_RANGE_2_END - RDRAM_RANGE_2_START + 1
    }

    /// What a word read at `address` returns.
    pub open spec fn read_spec(self, address: usize) -> Result<u32, Exception> {
        if address % 4 != 0 {
            Err(Exception::ADDRESS_ERROR)
        } else if address <= RDRAM_RANGE_0_END {
            Ok(word_at(self.range0@, address - RDRAM_RANGE_0_START))
        } else if address <= RDRAM_RANGE_1_END {
            Ok(word_at(self.range1@, address - RDRAM_RANGE_1_START))
        } else if address <= RDRAM_RANGE_2_END {
            Ok(word_at(self.range2@, address - RDRAM_RANGE_2_START))
        } else {
            Err(Exception::UNIMPLEMENTED_ADDRESS)
        }
    }

    /// Whether a word write at `address` is accepted.
    pub open spec fn write_result(address: usize) -> Result<(), Exception> {
        if address % 4 != 0 {
            Err(Exception::ADDRESS_ERROR)
        } else if address <= RDRAM_RANGE_2_END {
            Ok(())
        } else {
            Err(Exception::UNIMPLEMENTED_ADDRESS)
        }
    }

    /// `new` is this memory after an accepted word write of `value` at `address`.
    pub open spec fn written_by(self, new: RDRAM, address: usize, value: u32) -> bool {
        if address <= RDRAM_RANGE_0_END {
            &&& new.range0@ == store_word_at(self.range0@, address - RDRAM_RANGE_0_START, value)
            &&& new.range1 == self.range1
            &&& new.range2 == self.range2
        } else if address <= RDRAM_RANGE_1_END {
            &&& new.range0 == self.range0
            &&& new.range1@ == store_word_at(self.range1@, address - RDRAM_RANGE_1_START, value)
            &&& new.range2 == self.range2
        } else {
            &&& new.range0 == self.range0
            &&& new.range1 == self.range1
            &&& new.range2@ == store_word_at(self.range2@, address - RDRAM_RANGE_2_START, value)
        }
    }

    /// Every byte is zero.
    pub open spec fn is_reset(self) -> bool {
        &&& forall|i: int| 0 <= i < self.range0.len() ==> #[trigger] self.range0@[i] == 0
        &&& forall|i: int| 0 <= i < self.range1.len() ==> #[trigger] self.range1@[i] == 0
        &&& forall|i: int| 0 <= i < self.range2.len() ==> #[trigger] self.range2@[i] == 0
    }

    pub fn new() -> (r: RDRAM)
        ensures
            r.wf(),
            r.is_reset(),
    {
        let r = RDRAM { range0: vec![0; 0x200000], range1: vec![0; 0x200000], range2: vec![0; 0x400000] };
        assert(r.range0@ =~= Seq::new(0x200000, |i: int| 0u8));
        assert(r.range1@ =~= Seq::new(0x200000, |i: int| 0u8));
        assert(r.range2@ =~= Seq::new(0x400000, |i: int| 0u8));
        r
    }

    pub fn read_u32_from_address(&self, address: usize) -> (r: Result<u32, Exception>)
        requires
            self.wf(),
        ensures
            r == self.read_spec(address),
    {
        if address % 4 != 0 {
            return Err(Exception::ADDRESS_ERROR);
        }
        if address <= RDRAM_RANGE_0_END {
            let loc = address - RDRAM_RANGE_0_START;
            Ok(u8_slice_to_u32(copy_range(&self.range0, loc, loc + 4)))
        } else if address <= RDRAM_RANGE_1_END {
            let loc = address - RDRAM_RANGE_1_START;
            Ok(u8_slice_to_u32(copy_range(&self.range1, loc, loc + 4)))
        } else if address <= RDRAM_RANGE_2_END {
            let loc = address - RDRAM_RANGE_2_START;
            Ok(u8_slice_to_u32(copy_range(&self.range2, loc, loc + 4)))
        } else {
            Err(Exception::UNIMPLEMENTED_ADDRESS)
        }
    }

    pub fn load_u32_to_address(&mut self, address: usize, value: u32) -> (r: Result<(), Exception>)
        requires
            old(self).wf(),
        ensures
            final(self).wf(),
            r == Self::write_result(address),
            r is Ok ==> old(self).written_by(*final(self), address, value),
            r is Err ==> *final(self) == *old(self),
            r is Ok && old(self).read_spec(address) is Ok ==> final(self).read_spec(address) == Ok::<u32, Exception>(value),
    {
        proof {
            lemma_word_round_trip(value);
        }
        if address % 4 != 0 {
            return Err(Exception::ADDRESS_ERROR);
        }
        if address <= RDRAM_RANGE_0_END {
            u32_to_u8_vector_by_loc(value, address - RDRAM_RANGE_0_START, &mut self.range0);
            Ok(())
        } else if address <= RDRAM_RANGE_1_END {
            u32_to_u8_vector_by_loc(value, address - RDRAM_RANGE_1_START, &mut self.range1);
            Ok(())
        } else if address <= RDRAM_RANGE_2_END {
            u32_to_u8_vector_by_loc(value, address - RDRAM_RANGE_2_START, &mut self.range2);
            Ok(())
        } else {
            Err(Exception::UNIMPLEMENTED_ADDRESS)
        }
    }
}

} // verus!
