use super::{CommandCode, CommandData, ControlledBy, flag};
use vstd::prelude::*;

verus! {

/// Level of an output.
#[derive(Clone, Copy, Debug, PartialEq, Eq)]
pub enum Output {
    Zero,
    One,
}

impl Output {
    pub open spec fn spec_bits(self) -> u8 {
        match self {
            Output::Zero => 0,
            Output::One => 1,
        }
    }

    #[verifier::when_used_as_spec(spec_bits)]
    pub fn bits(self) -> (r: u8)
        ensures
            r == self.spec_bits(),
    {
        match self {
            Output::Zero => 0,
            Output::One => 1,
        }
    }
}

/// How gradually the manual brightness changes.
#[derive(Clone, Copy, Debug, PartialEq, Eq)]
pub enum BrightnessPrescaler {
    Off,
    B1,
    B2,
    B3,
    B4,
    B6,
    B8,
    B12,
    B16,
    B24,
    B32,
    B48,
    B64,
    B96,
    B128,
    B192,
}

impl BrightnessPrescaler {
    pub open spec fn spec_bits(self) -> u8 {
        match self {
            BrightnessPrescaler::Off => 0,
            BrightnessPrescaler::B1 => 1,
            BrightnessPrescaler::B2 => 2,
            BrightnessPrescaler::B3 => 3,
            BrightnessPrescaler::B4 => 4,
            BrightnessPrescaler::B6 => 5,
            BrightnessPrescaler::B8 => 6,
            BrightnessPrescaler::B12 => 7,
            BrightnessPrescaler::B16 => 8,
            BrightnessPrescaler::B24 => 9,
            BrightnessPrescaler::B32 => 10,
            BrightnessPrescaler::B48 => 11,
            BrightnessPrescaler::B64 => 12,
            BrightnessPrescaler::B96 => 13,
            BrightnessPrescaler::B128 => 14,
            BrightnessPrescaler::B192 => 15,
        }
    }

    #[verifier::when_used_as_spec(spec_bits)]
    pub fn bits(self) -> (r: u8)
        ensures
            r == self.spec_bits(),
    {
        match self {
            BrightnessPrescaler::Off => 0,
            BrightnessPrescaler::B1 => 1,
            BrightnessPrescaler::B2 => 2,
            BrightnessPrescaler::B3 => 3,
            BrightnessPrescaler::B4 => 4,
            BrightnessPrescaler::B6 => 5,
            BrightnessPrescaler::B8 => 6,
            BrightnessPrescaler::B12 => 7,
            BrightnessPrescaler::B16 => 8,
            BrightnessPrescaler::B24 => 9,
            BrightnessPrescaler::B32 => 10,
            BrightnessPrescaler::B48 => 11,
            BrightnessPrescaler::B64 => 12,
            BrightnessPrescaler::B96 => 13,
            BrightnessPrescaler::B128 => 14,
            BrightnessPrescaler::B192 => 15,
        }
    }
}

/// Sets the backlight PWM configuration.
#[derive(Debug, PartialEq, Eq)]
pub struct SetPwmConf {
    /// PWM frequency, in system clocks.
    pub pwm_frequency: u8,
    pub pwm_duty_cycle: u8,
    pub pwm_control: ControlledBy,
    pub pwm_enable: bool,
    pub dbc_manual_brightness: u8,
    pub dbc_minimum_brightness: u8,
    pub brightness_prescaler: BrightnessPrescaler,
}

impl CommandCode for SetPwmConf {
    open spec fn spec_code() -> u8 {
        0xBE
    }

    fn code() -> (r: u8) {
        0xBE
    }
}

impl CommandData<6> for SetPwmConf {
    open spec fn wf(&self) -> bool {
        true
    }

    open spec fn payload(&self) -> Seq<u8> {
        seq![
            (self.pwm_frequency) as u8,
            (self.pwm_duty_cycle) as u8,
            (self.pwm_control.bits() * 8 + flag(self.pwm_enable)) as u8,
            (self.dbc_manual_brightness) as u8,
            (self.dbc_minimum_brightness) as u8,
            (self.brightness_prescaler.bits()) as u8,
        ]
    }

    fn data(&self) -> (r: [u8; 6]) {
        let b0 = self.pwm_frequency;
        let b1 = self.pwm_duty_cycle;
        let b2_0 = self.pwm_control.bits();
        let b2_1 = flag(self.pwm_enable);
        let b2 = (b2_0 << 3u8) | b2_1;
        assert(b2 == b2_0 * 8 + b2_1) by (bit_vector)
            requires
                b2_0 <= 1, b2_1 <= 1,
                b2 == (b2_0 << 3u8) | b2_1,
        ;
        let b3 = self.dbc_manual_brightness;
        let b4 = self.dbc_minimum_brightness;
        let b5 = self.brightness_prescaler.bits();
        let r = [b0, b1, b2, b3, b4, b5];
        assert(r@ =~= self.payload());
        r
    }
}

} // verus!
