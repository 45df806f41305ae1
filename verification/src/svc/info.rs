//! The process memory layout, computed from the kernel's information queries.
//!
//! The caller queries the kernel (the `GetInfo` call on the current process,
//! with the number of each `InfoType`) and hands the answers to these
//! functions, which compute the regions.

use core::ops::Range;
use vstd::prelude::*;
use crate::result::NxResult;

verus! {

/// The kinds of information queried from the kernel.
#[derive(Debug, Copy, Clone, PartialEq, Eq, Structural)]
pub enum InfoType {
    AliasRegionAddr,
    AliasRegionSize,
    HeapRegionAddr,
    HeapRegionSize,
    TotalMemorySize,
    UsedMemorySize,
    RandomEntropy,
    AslrRegionAddr,
    AslrRegionSize,
    StackRegionAddr,
    StackRegionSize,
    AliasRegionExtraSize,
}

impl InfoType {
    /// The number the kernel knows this kind of information by.
    pub fn id(self) -> (r: u32)
        ensures
            r == match self {
                InfoType::AliasRegionAddr => 2u32,
                InfoType::AliasRegionSize => 3,
                InfoType::HeapRegionAddr => 4,
                InfoType::HeapRegionSize => 5,
                InfoType::TotalMemorySize => 6,
                InfoType::UsedMemorySize => 7,
                InfoType::RandomEntropy => 11,
                InfoType::AslrRegionAddr => 12,
                InfoType::AslrRegionSize => 13,
                InfoType::StackRegionAddr => 14,
                InfoType::StackRegionSize => 15,
                InfoType::AliasRegionExtraSize => 18,
            },
    {
        match self {
            InfoType::AliasRegionAddr => 2,
            InfoType::AliasRegionSize => 3,
            InfoType::HeapRegionAddr => 4,
            InfoType::HeapRegionSize => 5,
            InfoType::TotalMemorySize => 6,
            InfoType::UsedMemorySize => 7,
            InfoType::RandomEntropy => 11,
            InfoType::AslrRegionAddr => 12,
            InfoType::AslrRegionSize => 13,
            InfoType::StackRegionAddr => 14,
            InfoType::StackRegionSize => 15,
            InfoType::AliasRegionExtraSize => 18,
        }
    }
}

/// Whether a region built from a start address and a size fits the address space.
pub open spec fn region_fits(address: NxResult<u64>, size: NxResult<u64>) -> bool {
    (address is Ok && size is Ok) ==> address->Ok_0 + size->Ok_0 <= u64::MAX
}

/// The region `address..address + size`, or the first error among the two answers.
pub open spec fn region_spec(address: NxResult<u64>, size: NxResult<u64>, r: NxResult<Range<u64>>) -> bool {
    match address {
        Err(e) => r == Err::<Range<u64>, _>(e),
        Ok(a) => match size {
            Err(e) => r == Err::<Range<u64>, _>(e),
            Ok(s) => r is Ok && r->Ok_0.start == a && r->Ok_0.end == a + s,
        },
    }
}

fn region(address: NxResult<u64>, size: NxResult<u64>) -> (r: NxResult<Range<u64>>)
    requires
        region_fits(address, size),
    ensures
        region_spec(address, size, r),
{
    let address = match address {
        Ok(a) => a,
        Err(e) => return Err(e),
    };
    let size = match size {
        Ok(s) => s,
        Err(e) => return Err(e),
    };
    Ok(address..address + size)
}

/// The size of the alias region: its raw size, less the extra size when the
/// kernel reports one.
pub open spec fn alias_size(size: u64, extra_size: NxResult<u64>) -> int {
    match extra_size {
        Ok(x) => size - x,
        Err(_) => size as int,
    }
}

/// The alias region, from the answers to its address, size and extra-size
/// queries. A failed extra-size query is not an error: the size is then used
/// as it is.
pub fn alias_region(address: NxResult<u64>, size: NxResult<u64>, extra_size: NxResult<u64>) -> (r:
    NxResult<Range<u64>>)
    requires
        (address is Ok && size is Ok) ==> 0 <= alias_size(size->Ok_0, extra_size)
            && address->Ok_0 + alias_size(size->Ok_0, extra_size) <= u64::MAX,
    ensures
        match address {
            Err(e) => r == Err::<Range<u64>, _>(e),
            Ok(a) => match size {
                Err(e) => r == Err::<Range<u64>, _>(e),
                Ok(s) => r is Ok && r->Ok_0.start == a && r->Ok_0.end == a + alias_size(
                    s,
                    extra_size,
                ),
            },
        },
{
    let address = match address {
        Ok(a) => a,
        Err(e) => return Err(e),
    };
    let mut size = match size {
        Ok(s) => s,
        Err(e) => return Err(e),
    };
    if let Ok(extra_size) = extra_size {
        size = size - extra_size;
    }
    Ok(address..address + size)
}

/// The heap region, from the answers to its address and size queries.
pub fn heap_region(address: NxResult<u64>, size: NxResult<u64>) -> (r: NxResult<Range<u64>>)
    requires
        region_fits(address, size),
    ensures
        region_spec(address, size, r),
{
    region(address, size)
}

/// The ASLR region, from the answers to its address and size queries.
pub fn aslr_region(address: NxResult<u64>, size: NxResult<u64>) -> (r: NxResult<Range<u64>>)
    requires
        region_fits(address, size),
    ensures
        region_spec(address, size, r),
{
    region(address, size)
}

/// The stack region, from the answers to its address and size queries.
pub fn stack_region(address: NxResult<u64>, size: NxResult<u64>) -> (r: NxResult<Range<u64>>)
    requires
        region_fits(address, size),
    ensures
        region_spec(address, size, r),
{
    region(address, size)
}

} // verus!
