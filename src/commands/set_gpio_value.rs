use super::{CommandCode, CommandData};
use vstd::prelude::*;

verus! {

/// Level of an output.
#[derive(Clone, Copy, Debug, PartialEq, Eq)]
pub enum Output {
    Zero,
    One,
}

impl Output {
    pub open spec fn spec_bits(self) -> u8 {
        match self {
            Output::Zero => 0,
            Output::One => 1,
        }
    }

    #[verifier::when_used_as_spec(spec_bits)]
    pub fn bits(self) -> (r: u8)
        ensures
            r == self.spec_bits(),
    {
        match self {
            Output::Zero => 0,
            Output::One => 1,
        }
    }
}

/// Sets the level of the general purpose pins.
#[derive(Debug, PartialEq, Eq)]
pub struct SetGpioValue {
    pub gpio3_value: Output,
    pub gpio2_value: Output,
    pub gpio1_value: Output,
    pub gpio0_value: Output,
}

impl CommandCode for SetGpioValue {
    open spec fn spec_code() -> u8 {
        0xBA
    }

    fn code() -> (r: u8) {
        0xBA
    }
}

impl CommandData<1> for SetGpioValue {
    open spec fn wf(&self) -> bool {
        true
    }

    open spec fn payload(&self) -> Seq<u8> {
        seq![
            (self.gpio3_value.bits() * 8 + self.gpio2_value.bits() * 4 + self.gpio1_value.bits() * 2 + self.gpio0_value.bits()) as u8,
        ]
    }

    fn data(&self) -> (r: [u8; 1]) {
        let b0_0 = self.gpio3_value.bits();
        let b0_1 = self.gpio2_value.bits();
        let b0_2 = self.gpio1_value.bits();
        let b0_3 = self.gpio0_value.bits();
        let b0 = (b0_0 << 3u8) | (b0_1 << 2u8) | (b0_2 << 1u8) | b0_3;
        assert(b0 == b0_0 * 8 + b0_1 * 4 + b0_2 * 2 + b0_3) by (bit_vector)
            requires
                b0_0 <= 1, b0_1 <= 1, b0_2 <= 1, b0_3 <= 1,
                b0 == (b0_0 << 3u8) | (b0_1 << 2u8) | (b0_2 << 1u8) | b0_3,
        ;
        let r = [b0];
        assert(r@ =~= self.payload());
        r
    }
}

} // verus!
