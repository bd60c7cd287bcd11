use super::{CommandCode, CommandData, flag, high_byte, low_byte};
use vstd::prelude::*;

verus! {

#[derive(Clone, Copy, Debug, PartialEq, Eq)]
pub enum ZeroInLines {
    NormalInBoth,
    ZeroInOddLines,
    ZeroInEvenLines,
    ZeroInBoth,
}

impl ZeroInLines {
    pub open spec fn spec_bits(self) -> u8 {
        match self {
            ZeroInLines::NormalInBoth => 0,
            ZeroInLines::ZeroInOddLines => 1,
            ZeroInLines::ZeroInEvenLines => 2,
            ZeroInLines::ZeroInBoth => 3,
        }
    }

    #[verifier::when_used_as_spec(spec_bits)]
    pub fn bits(self) -> (r: u8)
        ensures
            r == self.spec_bits(),
    {
        match self {
            ZeroInLines::NormalInBoth => 0,
            ZeroInLines::ZeroInOddLines => 1,
            ZeroInLines::ZeroInEvenLines => 2,
            ZeroInLines::ZeroInBoth => 3,
        }
    }
}

#[derive(Clone, Copy, Debug, PartialEq, Eq)]
pub enum ToggleMode {
    Disable,
    ToggleByPixelClock,
    ToggleByLine,
    ToggleByFrame,
}

impl ToggleMode {
    pub open spec fn spec_bits(self) -> u8 {
        match self {
            ToggleMode::Disable => 0,
            ToggleMode::ToggleByPixelClock => 1,
            ToggleMode::ToggleByLine => 2,
            ToggleMode::ToggleByFrame => 3,
        }
    }

    #[verifier::when_used_as_spec(spec_bits)]
    pub fn bits(self) -> (r: u8)
        ensures
            r == self.spec_bits(),
    {
        match self {
            ToggleMode::Disable => 0,
            ToggleMode::ToggleByPixelClock => 1,
            ToggleMode::ToggleByLine => 2,
            ToggleMode::ToggleByFrame => 3,
        }
    }
}

/// Sets the signal generator 0.
#[derive(Debug, PartialEq, Eq)]
pub struct SetLcdGen0 {
    /// Reset the generator at the start of every frame.
    pub reset_every_frame_start: bool,
    /// Falling position, in pixel clocks.
    pub generator_falling_position: u16,
    /// Rising position, in pixel clocks.
    pub generator_rising_position: u16,
    /// Hold the output at zero outside the display period.
    pub zero_in_non_display_period: bool,
    pub zero_in_lines: ZeroInLines,
    pub toggle_mode: ToggleMode,
    /// Period, in units that the toggle mode selects.
    pub period: u16,
}

impl CommandCode for SetLcdGen0 {
    open spec fn spec_code() -> u8 {
        0xC0
    }

    fn code() -> (r: u8) {
        0xC0
    }
}

impl CommandData<7> for SetLcdGen0 {
    open spec fn wf(&self) -> bool {
        self.generator_falling_position < 0x800 && self.generator_rising_position < 0x800 && self.period < 0x800
    }

    open spec fn payload(&self) -> Seq<u8> {
        seq![
            (flag(self.reset_every_frame_start) * 128) as u8,
            ((self.generator_falling_position / 256)) as u8,
            ((self.generator_falling_position % 256)) as u8,
            ((self.generator_rising_position / 256)) as u8,
            ((self.generator_rising_position % 256)) as u8,
            (flag(self.zero_in_non_display_period) * 128 + self.zero_in_lines.bits() * 32 + self.toggle_mode.bits() * 8 + (self.period / 256)) as u8,
            ((self.period % 256)) as u8,
        ]
    }

    fn data(&self) -> (r: [u8; 7]) {
        let b0_0 = flag(self.reset_every_frame_start);
        let b0 = (b0_0 << 7u8);
        assert(b0 == b0_0 * 128) by (bit_vector)
            requires
                b0_0 <= 1,
                b0 == (b0_0 << 7u8),
        ;
        let b1 = high_byte(self.generator_falling_position);
        let b2 = low_byte(self.generator_falling_position);
        let b3 = high_byte(self.generator_rising_position);
        let b4 = low_byte(self.generator_rising_position);
        let b5_0 = flag(self.zero_in_non_display_period);
        let b5_1 = self.zero_in_lines.bits();
        let b5_2 = self.toggle_mode.bits();
        let b5_3 = high_byte(self.period);
        let b5 = (b5_0 << 7u8) | (b5_1 << 5u8) | (b5_2 << 3u8) | b5_3;
        assert(b5 == b5_0 * 128 + b5_1 * 32 + b5_2 * 8 + b5_3) by (bit_vector)
            requires
                b5_0 <= 1, b5_1 <= 3, b5_2 <= 3, b5_3 <= 7,
                b5 == (b5_0 << 7u8) | (b5_1 << 5u8) | (b5_2 << 3u8) | b5_3,
        ;
        let b6 = low_byte(self.period);
        let r = [b0, b1, b2, b3, b4, b5, b6];
        assert(r@ =~= self.payload());
        r
    }
}

/// Sets the signal generator 1.
#[derive(Debug, PartialEq, Eq)]
pub struct SetLcdGen1 {
    /// Reset the generator at the start of every frame.
    pub reset_every_frame_start: bool,
    /// Falling position, in pixel clocks.
    pub generator_falling_position: u16,
    /// Rising position, in pixel clocks.
    pub generator_rising_position: u16,
    /// Hold the output at zero outside the display period.
    pub zero_in_non_display_period: bool,
    pub zero_in_lines: ZeroInLines,
    pub toggle_mode: ToggleMode,
    /// Period, in units that the toggle mode selects.
    pub period: u16,
}

impl CommandCode for SetLcdGen1 {
    open spec fn spec_code() -> u8 {
        0xC2
    }

    fn code() -> (r: u8) {
        0xC2
    }
}

impl CommandData<7> for SetLcdGen1 {
    open spec fn wf(&self) -> bool {
        self.generator_falling_position < 0x800 && self.generator_rising_position < 0x800 && self.period < 0x800
    }

    open spec fn payload(&self) -> Seq<u8> {
        seq![
            (flag(self.reset_every_frame_start) * 128) as u8,
            ((self.generator_falling_position / 256)) as u8,
            ((self.generator_falling_position % 256)) as u8,
            ((self.generator_rising_position / 256)) as u8,
            ((self.generator_rising_position % 256)) as u8,
            (flag(self.zero_in_non_display_period) * 128 + self.zero_in_lines.bits() * 32 + self.toggle_mode.bits() * 8 + (self.period / 256)) as u8,
            ((self.period % 256)) as u8,
        ]
    }

    fn data(&self) -> (r: [u8; 7]) {
        let b0_0 = flag(self.reset_every_frame_start);
        let b0 = (b0_0 << 7u8);
        assert(b0 == b0_0 * 128) by (bit_vector)
            requires
                b0_0 <= 1,
                b0 == (b0_0 << 7u8),
        ;
        let b1 = high_byte(self.generator_falling_position);
        let b2 = low_byte(self.generator_falling_position);
        let b3 = high_byte(self.generator_rising_position);
        let b4 = low_byte(self.generator_rising_position);
        let b5_0 = flag(self.zero_in_non_display_period);
        let b5_1 = self.zero_in_lines.bits();
        let b5_2 = self.toggle_mode.bits();
        let b5_3 = high_byte(self.period);
        let b5 = (b5_0 << 7u8) | (b5_1 << 5u8) | (b5_2 << 3u8) | b5_3;
        assert(b5 == b5_0 * 128 + b5_1 * 32 + b5_2 * 8 + b5_3) by (bit_vector)
            requires
                b5_0 <= 1, b5_1 <= 3, b5_2 <= 3, b5_3 <= 7,
                b5 == (b5_0 << 7u8) | (b5_1 << 5u8) | (b5_2 << 3u8) | b5_3,
        ;
        let b6 = low_byte(self.period);
        let r = [b0, b1, b2, b3, b4, b5, b6];
        assert(r@ =~= self.payload());
        r
    }
}

/// Sets the signal generator 2.
#[derive(Debug, PartialEq, Eq)]
pub struct SetLcdGen2 {
    /// Reset the generator at the start of every frame.
    pub reset_every_frame_start: bool,
    /// Falling position, in pixel clocks.
    pub generator_falling_position: u16,
    /// Rising position, in pixel clocks.
    pub generator_rising_position: u16,
    /// Hold the output at zero outside the display period.
    pub zero_in_non_display_period: bool,
    pub zero_in_lines: ZeroInLines,
    pub toggle_mode: ToggleMode,
    /// Period, in units that the toggle mode selects.
    pub period: u16,
}

impl CommandCode for SetLcdGen2 {
    open spec fn spec_code() -> u8 {
        0xC4
    }

    fn code() -> (r: u8) {
        0xC4
    }
}

impl CommandData<7> for SetLcdGen2 {
    open spec fn wf(&self) -> bool {
        self.generator_falling_position < 0x800 && self.generator_rising_position < 0x800 && self.period < 0x800
    }

    open spec fn payload(&self) -> Seq<u8> {
        seq![
            (flag(self.reset_every_frame_start) * 128) as u8,
            ((self.generator_falling_position / 256)) as u8,
            ((self.generator_falling_position % 256)) as u8,
            ((self.generator_rising_position / 256)) as u8,
            ((self.generator_rising_position % 256)) as u8,
            (flag(self.zero_in_non_display_period) * 128 + self.zero_in_lines.bits() * 32 + self.toggle_mode.bits() * 8 + (self.period / 256)) as u8,
            ((self.period % 256)) as u8,
        ]
    }

    fn data(&self) -> (r: [u8; 7]) {
        let b0_0 = flag(self.reset_every_frame_start);
        let b0 = (b0_0 << 7u8);
        assert(b0 == b0_0 * 128) by (bit_vector)
            requires
                b0_0 <= 1,
                b0 == (b0_0 << 7u8),
        ;
        let b1 = high_byte(self.generator_falling_position);
        let b2 = low_byte(self.generator_falling_position);
        let b3 = high_byte(self.generator_rising_position);
        let b4 = low_byte(self.generator_rising_position);
        let b5_0 = flag(self.zero_in_non_display_period);
        let b5_1 = self.zero_in_lines.bits();
        let b5_2 = self.toggle_mode.bits();
        let b5_3 = high_byte(self.period);
        let b5 = (b5_0 << 7u8) | (b5_1 << 5u8) | (b5_2 << 3u8) | b5_3;
        assert(b5 == b5_0 * 128 + b5_1 * 32 + b5_2 * 8 + b5_3) by (bit_vector)
            requires
                b5_0 <= 1, b5_1 <= 3, b5_2 <= 3, b5_3 <= 7,
                b5 == (b5_0 << 7u8) | (b5_1 << 5u8) | (b5_2 << 3u8) | b5_3,
        ;
        let b6 = low_byte(self.period);
        let r = [b0, b1, b2, b3, b4, b5, b6];
        assert(r@ =~= self.payload());
        r
    }
}

/// Sets the signal generator 3.
#[derive(Debug, PartialEq, Eq)]
pub struct SetLcdGen3 {
    /// Reset the generator at the start of every frame.
    pub reset_every_frame_start: bool,
    /// Falling position, in pixel clocks.
    pub generator_falling_position: u16,
    /// Rising position, in pixel clocks.
    pub generator_rising_position: u16,
    /// Hold the output at zero outside the display period.
    pub zero_in_non_display_period: bool,
    pub zero_in_lines: ZeroInLines,
    pub toggle_mode: ToggleMode,
    /// Period, in units that the toggle mode selects.
    pub period: u16,
}

impl CommandCode for SetLcdGen3 {
    open spec fn spec_code() -> u8 {
        0xC6
    }

    fn code() -> (r: u8) {
        0xC6
    }
}

impl CommandData<7> for SetLcdGen3 {
    open spec fn wf(&self) -> bool {
        self.generator_falling_position < 0x800 && self.generator_rising_position < 0x800 && self.period < 0x800
    }

    open spec fn payload(&self) -> Seq<u8> {
        seq![
            (flag(self.reset_every_frame_start) * 128) as u8,
            ((self.generator_falling_position / 256)) as u8,
            ((self.generator_falling_position % 256)) as u8,
            ((self.generator_rising_position / 256)) as u8,
            ((self.generator_rising_position % 256)) as u8,
            (flag(self.zero_in_non_display_period) * 128 + self.zero_in_lines.bits() * 32 + self.toggle_mode.bits() * 8 + (self.period / 256)) as u8,
            ((self.period % 256)) as u8,
        ]
    }

    fn data(&self) -> (r: [u8; 7]) {
        let b0_0 = flag(self.reset_every_frame_start);
        let b0 = (b0_0 << 7u8);
        assert(b0 == b0_0 * 128) by (bit_vector)
            requires
                b0_0 <= 1,
                b0 == (b0_0 << 7u8),
        ;
        let b1 = high_byte(self.generator_falling_position);
        let b2 = low_byte(self.generator_falling_position);
        let b3 = high_byte(self.generator_rising_position);
        let b4 = low_byte(self.generator_rising_position);
        let b5_0 = flag(self.zero_in_non_display_period);
        let b5_1 = self.zero_in_lines.bits();
        let b5_2 = self.toggle_mode.bits();
        let b5_3 = high_byte(self.period);
        let b5 = (b5_0 << 7u8) | (b5_1 << 5u8) | (b5_2 << 3u8) | b5_3;
        assert(b5 == b5_0 * 128 + b5_1 * 32 + b5_2 * 8 + b5_3) by (bit_vector)
            requires
                b5_0 <= 1, b5_1 <= 3, b5_2 <= 3, b5_3 <= 7,
                b5 == (b5_0 << 7u8) | (b5_1 << 5u8) | (b5_2 << 3u8) | b5_3,
        ;
        let b6 = low_byte(self.period);
        let r = [b0, b1, b2, b3, b4, b5, b6];
        assert(r@ =~= self.payload());
        r
    }
}

} // verus!
