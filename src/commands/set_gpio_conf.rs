use super::{CommandCode, CommandData, ControlledBy};
use vstd::prelude::*;

verus! {

#[derive(Clone, Copy, Debug, PartialEq, Eq)]
pub enum Direction {
    Input,
    Output,
}

impl Direction {
    pub open spec fn spec_bits(self) -> u8 {
        match self {
            Direction::Input => 0,
            Direction::Output => 1,
        }
    }

    #[verifier::when_used_as_spec(spec_bits)]
    pub fn bits(self) -> (r: u8)
        ensures
            r == self.spec_bits(),
    {
        match self {
            Direction::Input => 0,
            Direction::Output => 1,
        }
    }
}

#[derive(Clone, Copy, Debug, PartialEq, Eq)]
pub enum PowerControl {
    Power,
    Normal,
}

impl PowerControl {
    pub open spec fn spec_bits(self) -> u8 {
        match self {
            PowerControl::Power => 0,
            PowerControl::Normal => 1,
        }
    }

    #[verifier::when_used_as_spec(spec_bits)]
    pub fn bits(self) -> (r: u8)
        ensures
            r == self.spec_bits(),
    {
        match self {
            PowerControl::Power => 0,
            PowerControl::Normal => 1,
        }
    }
}

/// Configures the controller's general purpose pins.
#[derive(Debug, PartialEq, Eq)]
pub struct SetGpioConf {
    pub gpio3_conf: ControlledBy,
    pub gpio2_conf: ControlledBy,
    pub gpio1_conf: ControlledBy,
    pub gpio0_conf: ControlledBy,
    pub gpio3_dir: Direction,
    pub gpio2_dir: Direction,
    pub gpio1_dir: Direction,
    pub gpio0_dir: Direction,
    pub gpio0_power_control: PowerControl,
}

impl CommandCode for SetGpioConf {
    open spec fn spec_code() -> u8 {
        0xB8
    }

    fn code() -> (r: u8) {
        0xB8
    }
}

impl CommandData<2> for SetGpioConf {
    open spec fn wf(&self) -> bool {
        true
    }

    open spec fn payload(&self) -> Seq<u8> {
        seq![
            (self.gpio3_conf.bits() * 128 + self.gpio2_conf.bits() * 64 + self.gpio1_conf.bits() * 32 + self.gpio0_conf.bits() * 16 + self.gpio3_dir.bits() * 8 + self.gpio2_dir.bits() * 4 + self.gpio1_dir.bits() * 2 + self.gpio0_dir.bits()) as u8,
            (self.gpio0_power_control.bits()) as u8,
        ]
    }

    fn data(&self) -> (r: [u8; 2]) {
        let b0_0 = self.gpio3_conf.bits();
        let b0_1 = self.gpio2_conf.bits();
        let b0_2 = self.gpio1_conf.bits();
        let b0_3 = self.gpio0_conf.bits();
        let b0_4 = self.gpio3_dir.bits();
        let b0_5 = self.gpio2_dir.bits();
        let b0_6 = self.gpio1_dir.bits();
        let b0_7 = self.gpio0_dir.bits();
        let b0 = (b0_0 << 7u8) | (b0_1 << 6u8) | (b0_2 << 5u8) | (b0_3 << 4u8) | (b0_4 << 3u8) | (b0_5 << 2u8) | (b0_6 << 1u8) | b0_7;
        assert(b0 == b0_0 * 128 + b0_1 * 64 + b0_2 * 32 + b0_3 * 16 + b0_4 * 8 + b0_5 * 4 + b0_6 * 2 + b0_7) by (bit_vector)
            requires
                b0_0 <= 1, b0_1 <= 1, b0_2 <= 1, b0_3 <= 1, b0_4 <= 1, b0_5 <= 1, b0_6 <= 1, b0_7 <= 1,
                b0 == (b0_0 << 7u8) | (b0_1 << 6u8) | (b0_2 << 5u8) | (b0_3 << 4u8) | (b0_4 << 3u8) | (b0_5 << 2u8) | (b0_6 << 1u8) | b0_7,
        ;
        let b1 = self.gpio0_power_control.bits();
        let r = [b0, b1];
        assert(r@ =~= self.payload());
        r
    }
}

} // verus!
