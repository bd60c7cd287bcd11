use super::{CommandCode, CommandData, high_byte, low_byte};
use vstd::prelude::*;

verus! {

/// Sets the column range of the address window.
#[derive(Debug, PartialEq, Eq)]
pub struct SetColumnAddress {
    pub start: u16,
    pub end: u16,
}

impl CommandCode for SetColumnAddress {
    open spec fn spec_code() -> u8 {
        0x2A
    }

    fn code() -> (r: u8) {
        0x2A
    }
}

impl CommandData<4> for SetColumnAddress {
    open spec fn wf(&self) -> bool {
        true
    }

    open spec fn payload(&self) -> Seq<u8> {
        seq![
            ((self.start / 256)) as u8,
            ((self.start % 256)) as u8,
            ((self.end / 256)) as u8,
            ((self.end % 256)) as u8,
        ]
    }

    fn data(&self) -> (r: [u8; 4]) {
        let b0 = high_byte(self.start);
        let b1 = low_byte(self.start);
        let b2 = high_byte(self.end);
        let b3 = low_byte(self.end);
        let r = [b0, b1, b2, b3];
        assert(r@ =~= self.payload());
        r
    }
}

} // verus!
