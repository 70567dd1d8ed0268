//! The state that one stream's decode calls share.

use vstd::prelude::*;

verus! {

/// What earlier units of a stream have fixed for the later ones. The caller
/// owns it and hands it to each decode call.
#[derive(Debug, Clone, Copy, PartialEq, Eq, Structural)]
pub struct DecodeContext {
    /// Bits per sample: 8, 10 or 12.
    pub bit_depth: u8,
    /// Number of colour planes: 1 or 3.
    pub num_planes: u8,
    /// Width of an order hint, 0 to 8 bits.
    pub order_hint_bits: usize,
    /// Index of the operating point that the caller chose.
    pub operating_point: usize,
    /// Layer mask of the chosen operating point, 12 bits.
    pub operating_point_idc: u16,
}

impl DecodeContext {
    /// Every field is in its range.
    pub open spec fn wf(self) -> bool {
        &&& (self.bit_depth == 8 || self.bit_depth == 10 || self.bit_depth == 12)
        &&& (self.num_planes == 1 || self.num_planes == 3)
        &&& self.order_hint_bits <= 8
        &&& self.operating_point_idc < 4096
    }

    /// The context before any sequence header, for a chosen operating point.
    pub fn new(operating_point: usize) -> (ctx: Self)
        ensures
            ctx == (DecodeContext {
                bit_depth: 8,
                num_planes: 3,
                order_hint_bits: 0,
                operating_point,
                operating_point_idc: 0,
            }),
            ctx.wf(),
    {
        DecodeContext {
            bit_depth: 8,
            num_planes: 3,
            order_hint_bits: 0,
            operating_point,
            operating_point_idc: 0,
        }
    }
}

} // verus!
