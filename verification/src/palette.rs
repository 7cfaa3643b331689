use vstd::prelude::*;

verus! {

/// One palette entry, decoded into its four channels.
#[derive(Copy, Clone, PartialEq, Eq, Structural, Debug)]
pub struct Color {
    pub r: u8,
    pub g: u8,
    pub b: u8,
    pub a: u8,
}

impl Color {
    /// Decodes a packed 32-bit palette entry: red in the lowest byte, then
    /// green and blue, and alpha in the highest byte.
    pub fn from_rgba_u32(src: u32) -> (c: Color)
        ensures
            c.r == src % 256,
            c.g == (src / 256) % 256,
            c.b == (src / 65536) % 256,
            c.a == src / 16777216,
    {
        let r = (src & 0x00_00_00_FF) as u8;
        let g = ((src & 0x00_00_FF_00) >> 8) as u8;
        let b = ((src & 0x00_FF_00_00) >> 16) as u8;
        let a = ((src & 0xFF_00_00_00) >> 24) as u8;
        proof {
            assert((src & 0x00_00_00_FFu32) == src % 256 && ((src & 0x00_00_FF_00u32) >> 8u32)
                == (src / 256) % 256 && ((src & 0x00_FF_00_00u32) >> 16u32) == (src / 65536) % 256
                && ((src & 0xFF_00_00_00u32) >> 24u32) == src / 16777216) by (bit_vector);
        }
        Color { r, g, b, a }
    }
}

} // verus!
