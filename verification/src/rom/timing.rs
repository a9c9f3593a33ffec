//! The cartridge's region timing, which picks the native refresh rate.

use vstd::prelude::*;

verus! {

#[derive(Copy, Clone, PartialEq, Eq, Structural)]
pub enum Timing {
    NTSC,
    PAL,
    MultipleRegion,
    Dendy,
}

} // verus!
