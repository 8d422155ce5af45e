use vstd::prelude::*;

verus! {

pub const ICACHE_LINES: usize = 512;

/// Tag store of the instruction cache: one line per 32-byte block of a
/// 16 KiB index space.
pub struct ICache {
    pub line: Vec<ICacheLine>,
}

/// Line index selected by bits 5 to 13 of a virtual address.
pub open spec fn line_index(virtual_address: u32) -> u32 {
    (virtual_address & 0x3FE0) >> 5u32
}

impl ICache {
    pub open spec fn wf(self) -> bool {
        self.line.len() == ICACHE_LINES
    }

    /// `new` is this tag store after the line that `virtual_address` selects
    /// got the tag `value`.
    pub open spec fn tag_set_by(self, new: ICache, virtual_address: u32, value: u32) -> bool {
        let k = line_index(virtual_address) as int;
        &&& new.line.len() == self.line.len()
        &&& forall|i: int| 0 <= i < self.line.len() && i != k ==> #[trigger] new.line@[i] == self.line@[i]
        &&& new.line@[k].tag() == value & 0xFFFFF
        &&& new.line@[k].valid == self.line@[k].valid
        &&& new.line@[k].data == self.line@[k].data
    }

    /// Every line is invalid with a zero tag.
    pub open spec fn is_reset(self) -> bool {
        forall|i: int| 0 <= i < self.line.len() ==> (#[trigger] self.line@[i]).tag() == 0 && !self.line@[i].valid
    }

    pub fn new() -> (r: ICache)
        ensures
            r.wf(),
            r.is_reset(),
    {
        let mut line: Vec<ICacheLine> = Vec::new();
        let mut i: usize = 0;
        while i < ICACHE_LINES
            invariant
                i <= ICACHE_LINES,
                line.len() == i,
                forall|k: int| 0 <= k < i ==> (#[trigger] line@[k]).tag() == 0 && !line@[k].valid,
            decreases ICACHE_LINES - i,
        {
            line.push(ICacheLine::new());
            i = i + 1;
        }
        ICache { line: line }
    }

    pub fn parse_line_index_from_virtual_index(&self, virtual_address: u32) -> (r: usize)
        ensures
            r == line_index(virtual_address),
            r < ICACHE_LINES,
    {
        assert((virtual_address & 0x3FE0) >> 5u32 < 512) by (bit_vector);
        ((virtual_address & 0x3FE0) >> 5u32) as usize
    }

    /// Sets the physical tag of the line that `virtual_address` selects.
    pub fn set_physical_tag_by_virtual_address(&mut self, virtual_address: u32, value: u32)
        requires
            old(self).wf(),
        ensures
            final(self).wf(),
            old(self).tag_set_by(*final(self), virtual_address, value),
    {
        let tag_line: usize = self.parse_line_index_from_virtual_index(virtual_address);
        self.line[tag_line].set_physical_tag(value);
    }
}

/// One line of the instruction cache.
#[derive(Clone)]
pub struct ICacheLine {
    pub valid: bool,
    pub physical_tag: u32,
    pub data: Vec<u32>,
}

impl ICacheLine {
    /// The 20-bit physical tag of the line.
    pub open spec fn tag(self) -> u32 {
        self.physical_tag & 0xFFFFF
    }

    pub fn new() -> (r: ICacheLine)
        ensures
            r.tag() == 0,
            !r.valid,
            r.data.len() == 8,
    {
        let r = ICacheLine { valid: false, physical_tag: 0, data: vec![0u32; 8] };
        assert(0u32 & 0xFFFFF == 0) by (bit_vector);
        r
    }

    pub fn get_physical_tag(&self) -> (r: u32)
        ensures
            r == self.tag(),
    {
        self.physical_tag & 0xFFFFF
    }

    pub fn set_physical_tag(&mut self, value: u32)
        ensures
            final(self).tag() == value & 0xFFFFF,
            final(self).valid == old(self).valid,
            final(self).data == old(self).data,
    {
        assert((value & 0xFFFFF) & 0xFFFFF == value & 0xFFFFF) by (bit_vector);
        self.physical_tag = value & 0xFFFFF;
    }
}

} // verus!
