use super::{CommandCode, CommandData, flag};
use vstd::prelude::*;

verus! {

/// Sets the PLL multiplier and divider.
#[derive(Debug, PartialEq, Eq)]
pub struct SetPllMn {
    pub pll_multiplier: u8,
    pub pll_divider: u8,
    pub use_multiplier_and_divider: bool,
}

impl CommandCode for SetPllMn {
    open spec fn spec_code() -> u8 {
        0xE2
    }

    fn code() -> (r: u8) {
        0xE2
    }
}

impl CommandData<3> for SetPllMn {
    open spec fn wf(&self) -> bool {
        self.pll_divider < 0x20
    }

    open spec fn payload(&self) -> Seq<u8> {
        seq![
            (self.pll_multiplier) as u8,
            (self.pll_divider) as u8,
            (flag(self.use_multiplier_and_divider) * 4) as u8,
        ]
    }

    fn data(&self) -> (r: [u8; 3]) {
        let b0 = self.pll_multiplier;
        let b1 = self.pll_divider;
        let b2_0 = flag(self.use_multiplier_and_divider);
        let b2 = (b2_0 << 2u8);
        assert(b2 == b2_0 * 4) by (bit_vector)
            requires
                b2_0 <= 1,
                b2 == (b2_0 << 2u8),
        ;
        let r = [b0, b1, b2];
        assert(r@ =~= self.payload());
        r
    }
}

} // verus!
