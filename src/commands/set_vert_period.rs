use super::{CommandCode, CommandData, high_byte, low_byte};
use vstd::prelude::*;

verus! {

/// Sets the vertical period.
#[derive(Debug, PartialEq, Eq)]
pub struct SetVertPeriod {
    /// Total period, in lines.
    pub vt: u16,
    /// Non-display period, in lines.
    pub vps: u16,
    /// Sync pulse width, in lines.
    pub vpw: u8,
    /// Sync pulse start position, in lines.
    pub fps: u16,
}

impl CommandCode for SetVertPeriod {
    open spec fn spec_code() -> u8 {
        0xB6
    }

    fn code() -> (r: u8) {
        0xB6
    }
}

impl CommandData<7> for SetVertPeriod {
    open spec fn wf(&self) -> bool {
        self.vt < 0x800 && self.vps < 0x800 && self.vpw < 0x80 && self.fps < 0x800
    }

    open spec fn payload(&self) -> Seq<u8> {
        seq![
            ((self.vt / 256)) as u8,
            ((self.vt % 256)) as u8,
            ((self.vps / 256)) as u8,
            ((self.vps % 256)) as u8,
            (self.vpw) as u8,
            ((self.fps / 256)) as u8,
            ((self.fps % 256)) as u8,
        ]
    }

    fn data(&self) -> (r: [u8; 7]) {
        let b0 = high_byte(self.vt);
        let b1 = low_byte(self.vt);
        let b2 = high_byte(self.vps);
        let b3 = low_byte(self.vps);
        let b4 = self.vpw;
        let b5 = high_byte(self.fps);
        let b6 = low_byte(self.fps);
        let r = [b0, b1, b2, b3, b4, b5, b6];
        assert(r@ =~= self.payload());
        r
    }
}

} // verus!
