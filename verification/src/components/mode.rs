use vstd::prelude::*;

verus! {

/// Which console the machine emulates.
#[derive(Clone, Copy, PartialEq, Eq, Structural, Debug)]
pub enum GBMode {
    DMG,
    CGB,
}

/// Colour-correction curve applied to CGB 15-bit colours.
#[derive(Clone, Copy, PartialEq, Eq, Structural, Debug)]
pub enum CCMode {
    True,
    CGB,
    GBA,
    SGB,
}

} // verus!
