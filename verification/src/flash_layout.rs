//! Where the three flash partitions of the bootloader lie.

use vstd::prelude::*;
use core::ops::Range;

verus! {

/// The size of a flash page in bytes.
pub const PAGE_SIZE: u32 = 0x0000_1000;

/// The address ranges of the bootloader's partitions. No range ends before
/// it starts.
pub struct FlashLayout {
    state_start: u32,
    state_end: u32,
    dfu_start: u32,
    dfu_end: u32,
    appdata_start: u32,
    appdata_end: u32,
}

impl FlashLayout {
    #[verifier::type_invariant]
    spec fn well_formed(self) -> bool {
        &&& self.state_start <= self.state_end
        &&& self.dfu_start <= self.dfu_end
        &&& self.appdata_start <= self.appdata_end
    }

    /// First address of the state partition.
    pub closed spec fn state_start(self) -> u32 {
        self.state_start
    }

    /// First address behind the state partition.
    pub closed spec fn state_end(self) -> u32 {
        self.state_end
    }

    /// First address of the update partition.
    pub closed spec fn dfu_start(self) -> u32 {
        self.dfu_start
    }

    /// First address behind the update partition.
    pub closed spec fn dfu_end(self) -> u32 {
        self.dfu_end
    }

    /// First address of the application data partition.
    pub closed spec fn appdata_start(self) -> u32 {
        self.appdata_start
    }

    /// First address behind the application data partition.
    pub closed spec fn appdata_end(self) -> u32 {
        self.appdata_end
    }

    /// A layout of the three given ranges, or `None` if one of them ends
    /// before it starts.
    pub fn new(state: Range<u32>, dfu: Range<u32>, appdata: Range<u32>) -> (layout: Option<
        FlashLayout,
    >)
        ensures
            layout is Some <==> state.start <= state.end && dfu.start <= dfu.end && appdata.start
                <= appdata.end,
            layout is Some ==> {
                let l = layout->Some_0;
                &&& l.state_start() == state.start
                &&& l.state_end() == state.end
                &&& l.dfu_start() == dfu.start
                &&& l.dfu_end() == dfu.end
                &&& l.appdata_start() == appdata.start
                &&& l.appdata_end() == appdata.end
            },
    {
        if state.start <= state.end && dfu.start <= dfu.end && appdata.start <= appdata.end {
            Some(
                FlashLayout {
                    state_start: state.start,
                    state_end: state.end,
                    dfu_start: dfu.start,
                    dfu_end: dfu.end,
                    appdata_start: appdata.start,
                    appdata_end: appdata.end,
                },
            )
        } else {
            None
        }
    }
}

/// The address range of the state partition.
pub fn get_bootloader_state_range(layout: &FlashLayout) -> (range: Range<u32>)
    ensures
        range.start == layout.state_start(),
        range.end == layout.state_end(),
        range.start <= range.end,
{
    proof {
        use_type_invariant(layout);
    }
    Range { start: layout.state_start, end: layout.state_end }
}

/// The address range of the update partition.
pub fn get_bootloader_dfu_range(layout: &FlashLayout) -> (range: Range<u32>)
    ensures
        range.start == layout.dfu_start(),
        range.end == layout.dfu_end(),
        range.start <= range.end,
{
    proof {
        use_type_invariant(layout);
    }
    Range { start: layout.dfu_start, end: layout.dfu_end }
}

/// The address range of the application data partition.
pub fn get_bootloader_appdata_range(layout: &FlashLayout) -> (range: Range<u32>)
    ensures
        range.start == layout.appdata_start(),
        range.end == layout.appdata_end(),
        range.start <= range.end,
{
    proof {
        use_type_invariant(layout);
    }
    Range { start: layout.appdata_start, end: layout.appdata_end }
}

/// The size of the state partition in bytes.
pub fn get_bootloader_state_size(layout: &FlashLayout) -> (size: u32)
    ensures
        size == layout.state_end() - layout.state_start(),
{
    let range = get_bootloader_state_range(layout);
    range.end - range.start
}

/// The size of the update partition in bytes.
pub fn get_bootloader_dfu_size(layout: &FlashLayout) -> (size: u32)
    ensures
        size == layout.dfu_end() - layout.dfu_start(),
{
    let range = get_bootloader_dfu_range(layout);
    range.end - range.start
}

/// The size of the application data partition in bytes.
pub fn get_bootloader_appdata_size(layout: &FlashLayout) -> (size: u32)
    ensures
        size == layout.appdata_end() - layout.appdata_start(),
{
    let range = get_bootloader_appdata_range(layout);
    range.end - range.start
}

} // verus!
