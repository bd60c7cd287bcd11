use super::{CommandCode, CommandData, flag};
use vstd::prelude::*;

verus! {

#[derive(Clone, Copy, Debug, PartialEq, Eq)]
pub enum SystemClockSource {
    ReferenceClock,
    PllOutput,
}

impl SystemClockSource {
    pub open spec fn spec_bits(self) -> u8 {
        match self {
            SystemClockSource::ReferenceClock => 0,
            SystemClockSource::PllOutput => 1,
        }
    }

    #[verifier::when_used_as_spec(spec_bits)]
    pub fn bits(self) -> (r: u8)
        ensures
            r == self.spec_bits(),
    {
        match self {
            SystemClockSource::ReferenceClock => 0,
            SystemClockSource::PllOutput => 1,
        }
    }
}

/// Starts the PLL and selects the system clock.
#[derive(Debug, PartialEq, Eq)]
pub struct SetPll {
    pub system_clock_source: SystemClockSource,
    pub enable_pll: bool,
}

impl CommandCode for SetPll {
    open spec fn spec_code() -> u8 {
        0xE0
    }

    fn code() -> (r: u8) {
        0xE0
    }
}

impl CommandData<1> for SetPll {
    open spec fn wf(&self) -> bool {
        true
    }

    open spec fn payload(&self) -> Seq<u8> {
        seq![
            (self.system_clock_source.bits() * 2 + flag(self.enable_pll)) as u8,
        ]
    }

    fn data(&self) -> (r: [u8; 1]) {
        let b0_0 = self.system_clock_source.bits();
        let b0_1 = flag(self.enable_pll);
        let b0 = (b0_0 << 1u8) | b0_1;
        assert(b0 == b0_0 * 2 + b0_1) by (bit_vector)
            requires
                b0_0 <= 1, b0_1 <= 1,
                b0 == (b0_0 << 1u8) | b0_1,
        ;
        let r = [b0];
        assert(r@ =~= self.payload());
        r
    }
}

} // verus!
