use super::{CommandData, high_byte, low_byte};
use vstd::prelude::*;

verus! {

/// Sets the first line of the vertical scroll area.
#[derive(Debug, PartialEq, Eq)]
pub struct SetScrollStart {
    pub source_line: u16,
}

impl CommandData<2> for SetScrollStart {
    open spec fn wf(&self) -> bool {
        true
    }

    open spec fn payload(&self) -> Seq<u8> {
        seq![
            ((self.source_line / 256)) as u8,
            ((self.source_line % 256)) as u8,
        ]
    }

    fn data(&self) -> (r: [u8; 2]) {
        let b0 = high_byte(self.source_line);
        let b1 = low_byte(self.source_line);
        let r = [b0, b1];
        assert(r@ =~= self.payload());
        r
    }
}

} // verus!
