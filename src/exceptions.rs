use vstd::prelude::*;

verus! {

/// The faults that the core reports; each is raised where the violation
/// happens and handed upward unchanged.
#[derive(Debug, Clone, PartialEq)]
#[allow(non_camel_case_types)]
pub enum Exception {
    INTEGER_OVERFLOW,
    ADDRESS_ERROR,
    /// Faulting virtual address and the address-space id it was looked up with.
    TLB_MISS(u32, u8),
    UNIMPLEMENTED_OPCODE,
    UNIMPLEMENTED_ADDRESS,
    OTHER(String),
}

} // verus!
