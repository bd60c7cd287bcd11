use super::{CommandCode, CommandData, byte0, byte1, byte2};
use vstd::prelude::*;

verus! {

/// Energy saving selection of the dynamic backlight control.
#[derive(Clone, Copy, Debug, PartialEq, Eq)]
pub enum EnergySaving {
    DbcDisable,
    ConservativeMode,
    NormalMode,
    AgressiveMode,
}

impl EnergySaving {
    pub open spec fn spec_bits(self) -> u8 {
        match self {
            EnergySaving::DbcDisable => 0,
            EnergySaving::ConservativeMode => 1,
            EnergySaving::NormalMode => 2,
            EnergySaving::AgressiveMode => 3,
        }
    }

    #[verifier::when_used_as_spec(spec_bits)]
    pub fn bits(self) -> (r: u8)
        ensures
            r == self.spec_bits(),
    {
        match self {
            EnergySaving::DbcDisable => 0,
            EnergySaving::ConservativeMode => 1,
            EnergySaving::NormalMode => 2,
            EnergySaving::AgressiveMode => 3,
        }
    }
}

/// Sets the pixel clock frequency.
#[derive(Debug, PartialEq, Eq)]
pub struct SetLShiftFreq {
    /// Pixel clock as a fraction of the PLL frequency: `(lcdc_fpr + 1) / 2^20`.
    pub lcdc_fpr: u32,
}

impl CommandCode for SetLShiftFreq {
    open spec fn spec_code() -> u8 {
        0xE6
    }

    fn code() -> (r: u8) {
        0xE6
    }
}

impl CommandData<3> for SetLShiftFreq {
    open spec fn wf(&self) -> bool {
        self.lcdc_fpr < 0x100000
    }

    open spec fn payload(&self) -> Seq<u8> {
        seq![
            (((self.lcdc_fpr / 65536) % 256)) as u8,
            (((self.lcdc_fpr / 256) % 256)) as u8,
            ((self.lcdc_fpr % 256)) as u8,
        ]
    }

    fn data(&self) -> (r: [u8; 3]) {
        let b0 = byte2(self.lcdc_fpr);
        let b1 = byte1(self.lcdc_fpr);
        let b2 = byte0(self.lcdc_fpr);
        let r = [b0, b1, b2];
        assert(r@ =~= self.payload());
        r
    }
}

} // verus!
