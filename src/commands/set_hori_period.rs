use super::{CommandCode, CommandData, high_byte, low_byte};
use vstd::prelude::*;

verus! {

/// Sets the horizontal period.
#[derive(Debug, PartialEq, Eq)]
pub struct SetHoriPeriod {
    /// Total period, in pixels.
    pub ht: u16,
    /// Non-display period, in pixels.
    pub hps: u16,
    /// Sync pulse width, in pixels.
    pub hpw: u8,
    /// Sync pulse start position, in pixels.
    pub lps: u16,
    /// Sync pulse subpixel start position.
    pub lpspp: u8,
}

impl CommandCode for SetHoriPeriod {
    open spec fn spec_code() -> u8 {
        0xB4
    }

    fn code() -> (r: u8) {
        0xB4
    }
}

impl CommandData<8> for SetHoriPeriod {
    open spec fn wf(&self) -> bool {
        self.ht < 0x800 && self.hps < 0x800 && self.hpw < 0x80 && self.lps < 0x800 && self.lpspp < 0x4
    }

    open spec fn payload(&self) -> Seq<u8> {
        seq![
            ((self.ht / 256)) as u8,
            ((self.ht % 256)) as u8,
            ((self.hps / 256)) as u8,
            ((self.hps % 256)) as u8,
            (self.hpw) as u8,
            ((self.lps / 256)) as u8,
            ((self.lps % 256)) as u8,
            (self.lpspp) as u8,
        ]
    }

    fn data(&self) -> (r: [u8; 8]) {
        let b0 = high_byte(self.ht);
        let b1 = low_byte(self.ht);
        let b2 = high_byte(self.hps);
        let b3 = low_byte(self.hps);
        let b4 = self.hpw;
        let b5 = high_byte(self.lps);
        let b6 = low_byte(self.lps);
        let b7 = self.lpspp;
        let r = [b0, b1, b2, b3, b4, b5, b6, b7];
        assert(r@ =~= self.payload());
        r
    }
}

} // verus!
