use super::{CommandCode, CommandData, flag, high_byte, low_byte};
use vstd::prelude::*;

verus! {

/// Data width of the panel.
#[derive(Clone, Copy, Debug, PartialEq, Eq)]
pub enum TftPanelDataWidth {
    B18,
    B24,
}

impl TftPanelDataWidth {
    pub open spec fn spec_bits(self) -> u8 {
        match self {
            TftPanelDataWidth::B18 => 0,
            TftPanelDataWidth::B24 => 1,
        }
    }

    #[verifier::when_used_as_spec(spec_bits)]
    pub fn bits(self) -> (r: u8)
        ensures
            r == self.spec_bits(),
    {
        match self {
            TftPanelDataWidth::B18 => 0,
            TftPanelDataWidth::B24 => 1,
        }
    }
}

#[derive(Clone, Copy, Debug, PartialEq, Eq)]
pub enum Edge {
    Falling,
    Rising,
}

impl Edge {
    pub open spec fn spec_bits(self) -> u8 {
        match self {
            Edge::Falling => 0,
            Edge::Rising => 1,
        }
    }

    #[verifier::when_used_as_spec(spec_bits)]
    pub fn bits(self) -> (r: u8)
        ensures
            r == self.spec_bits(),
    {
        match self {
            Edge::Falling => 0,
            Edge::Rising => 1,
        }
    }
}

#[derive(Clone, Copy, Debug, PartialEq, Eq)]
pub enum Active {
    ActiveLow,
    ActiveHigh,
}

impl Active {
    pub open spec fn spec_bits(self) -> u8 {
        match self {
            Active::ActiveLow => 0,
            Active::ActiveHigh => 1,
        }
    }

    #[verifier::when_used_as_spec(spec_bits)]
    pub fn bits(self) -> (r: u8)
        ensures
            r == self.spec_bits(),
    {
        match self {
            Active::ActiveLow => 0,
            Active::ActiveHigh => 1,
        }
    }
}

#[derive(Clone, Copy, Debug, PartialEq, Eq)]
pub enum TftType {
    TftMode0,
    TftMode1,
    SerialRgbMode,
    SerialRgbDummyMode,
}

impl TftType {
    pub open spec fn spec_bits(self) -> u8 {
        match self {
            TftType::TftMode0 => 0,
            TftType::TftMode1 => 1,
            TftType::SerialRgbMode => 2,
            TftType::SerialRgbDummyMode => 3,
        }
    }

    #[verifier::when_used_as_spec(spec_bits)]
    pub fn bits(self) -> (r: u8)
        ensures
            r == self.spec_bits(),
    {
        match self {
            TftType::TftMode0 => 0,
            TftType::TftMode1 => 1,
            TftType::SerialRgbMode => 2,
            TftType::SerialRgbDummyMode => 3,
        }
    }
}

#[derive(Clone, Copy, Debug, PartialEq, Eq)]
pub enum ColorSequence {
    Rgb,
    Rbg,
    Grb,
    Gbr,
    Brg,
    Bgr,
}

impl ColorSequence {
    pub open spec fn spec_bits(self) -> u8 {
        match self {
            ColorSequence::Rgb => 0,
            ColorSequence::Rbg => 1,
            ColorSequence::Grb => 2,
            ColorSequence::Gbr => 3,
            ColorSequence::Brg => 4,
            ColorSequence::Bgr => 5,
        }
    }

    #[verifier::when_used_as_spec(spec_bits)]
    pub fn bits(self) -> (r: u8)
        ensures
            r == self.spec_bits(),
    {
        match self {
            ColorSequence::Rgb => 0,
            ColorSequence::Rbg => 1,
            ColorSequence::Grb => 2,
            ColorSequence::Gbr => 3,
            ColorSequence::Brg => 4,
            ColorSequence::Bgr => 5,
        }
    }
}

/// Sets the panel mode and resolution.
#[derive(Debug, PartialEq, Eq)]
pub struct SetLcdMode {
    pub data_width: TftPanelDataWidth,
    pub color_depth_enhancement_enable: bool,
    pub frc_enable: bool,
    pub lshift_polarity: Edge,
    pub lline_polarity: Active,
    pub lframe_polarity: Active,
    pub tft_type: TftType,
    /// Horizontal panel size minus one.
    pub hdp: u16,
    /// Vertical panel size minus one.
    pub vdp: u16,
    pub even_line_color_sequence: ColorSequence,
    pub odd_line_color_sequence: ColorSequence,
}

impl CommandCode for SetLcdMode {
    open spec fn spec_code() -> u8 {
        0xB0
    }

    fn code() -> (r: u8) {
        0xB0
    }
}

impl CommandData<7> for SetLcdMode {
    open spec fn wf(&self) -> bool {
        self.hdp < 0x800 && self.vdp < 0x800
    }

    open spec fn payload(&self) -> Seq<u8> {
        seq![
            (self.data_width.bits() * 32 + flag(self.color_depth_enhancement_enable) * 16 + flag(self.frc_enable) * 8 + self.lshift_polarity.bits() * 4 + self.lline_polarity.bits() * 2 + self.lframe_polarity.bits()) as u8,
            (self.tft_type.bits() * 32) as u8,
            ((self.hdp / 256)) as u8,
            ((self.hdp % 256)) as u8,
            ((self.vdp / 256)) as u8,
            ((self.vdp % 256)) as u8,
            (self.even_line_color_sequence.bits() * 8 + self.odd_line_color_sequence.bits()) as u8,
        ]
    }

    fn data(&self) -> (r: [u8; 7]) {
        let b0_0 = self.data_width.bits();
        let b0_1 = flag(self.color_depth_enhancement_enable);
        let b0_2 = flag(self.frc_enable);
        let b0_3 = self.lshift_polarity.bits();
        let b0_4 = self.lline_polarity.bits();
        let b0_5 = self.lframe_polarity.bits();
        let b0 = (b0_0 << 5u8) | (b0_1 << 4u8) | (b0_2 << 3u8) | (b0_3 << 2u8) | (b0_4 << 1u8) | b0_5;
        assert(b0 == b0_0 * 32 + b0_1 * 16 + b0_2 * 8 + b0_3 * 4 + b0_4 * 2 + b0_5) by (bit_vector)
            requires
                b0_0 <= 1, b0_1 <= 1, b0_2 <= 1, b0_3 <= 1, b0_4 <= 1, b0_5 <= 1,
                b0 == (b0_0 << 5u8) | (b0_1 << 4u8) | (b0_2 << 3u8) | (b0_3 << 2u8) | (b0_4 << 1u8) | b0_5,
        ;
        let b1_0 = self.tft_type.bits();
        let b1 = (b1_0 << 5u8);
        assert(b1 == b1_0 * 32) by (bit_vector)
            requires
                b1_0 <= 3,
                b1 == (b1_0 << 5u8),
        ;
        let b2 = high_byte(self.hdp);
        let b3 = low_byte(self.hdp);
        let b4 = high_byte(self.vdp);
        let b5 = low_byte(self.vdp);
        let b6_0 = self.even_line_color_sequence.bits();
        let b6_1 = self.odd_line_color_sequence.bits();
        let b6 = (b6_0 << 3u8) | b6_1;
        assert(b6 == b6_0 * 8 + b6_1) by (bit_vector)
            requires
                b6_0 <= 5, b6_1 <= 5,
                b6 == (b6_0 << 3u8) | b6_1,
        ;
        let r = [b0, b1, b2, b3, b4, b5, b6];
        assert(r@ =~= self.payload());
        r
    }
}

} // verus!
