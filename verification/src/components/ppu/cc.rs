use vstd::prelude::*;

verus! {

/// The SGB's colour curve: the 8-bit level of each 5-bit component.
pub const SGB_COLOR_CURVE: [u8; 32] = [
    0, 2, 5, 9, 15, 20, 27, 34, 42, 50, 58, 67, 76, 85, 94, 104, 114, 123, 133, 143, 153, 163, 173, 182, 192,
    202, 211, 220, 229, 238, 247, 255,
];

/// A 5-bit component scaled linearly to 8 bits, rounded.
pub open spec fn scaled5(c: u8) -> u8 {
    ((c as int * 0xFF + 0xF) / 0x1F) as u8
}

/// The red, green and blue fields of a 15-bit CGB colour.
pub fn components(color: usize) -> (r: (u8, u8, u8))
    ensures
        r.0 == color % 32,
        r.1 == (color / 32) % 32,
        r.2 == (color / 1024) % 32,
{
    ((color % 32) as u8, ((color / 32) % 32) as u8, ((color / 1024) % 32) as u8)
}

/// True colour: each component scaled linearly from 5 to 8 bits.
pub fn true_color(r: u8, g: u8, b: u8) -> (c: (u8, u8, u8))
    requires
        r < 32,
        g < 32,
        b < 32,
    ensures
        c == (scaled5(r), scaled5(g), scaled5(b)),
{
    (scale5(r), scale5(g), scale5(b))
}

fn scale5(c: u8) -> (r: u8)
    requires
        c < 32,
    ensures
        r == scaled5(c),
{
    ((c as u32 * 0xFF + 0xF) / 0x1F) as u8
}

/// SGB colour: each component through the SGB curve.
pub fn sgb_color(r: u8, g: u8, b: u8) -> (c: (u8, u8, u8))
    requires
        r < 32,
        g < 32,
        b < 32,
    ensures
        c == (SGB_COLOR_CURVE[r as int], SGB_COLOR_CURVE[g as int], SGB_COLOR_CURVE[b as int]),
{
    (SGB_COLOR_CURVE[r as usize], SGB_COLOR_CURVE[g as usize], SGB_COLOR_CURVE[b as usize])
}

} // verus!
