use super::{CommandData, high_byte, low_byte};
use vstd::prelude::*;

verus! {

/// Sets the vertical scroll area.
#[derive(Debug, PartialEq, Eq)]
pub struct SetScrollArea {
    pub top_fixed_area: u16,
    pub vertical_scroll_area: u16,
    pub bottom_fixed_area: u16,
}

impl CommandData<6> for SetScrollArea {
    open spec fn wf(&self) -> bool {
        true
    }

    open spec fn payload(&self) -> Seq<u8> {
        seq![
            ((self.top_fixed_area / 256)) as u8,
            ((self.top_fixed_area % 256)) as u8,
            ((self.vertical_scroll_area / 256)) as u8,
            ((self.vertical_scroll_area % 256)) as u8,
            ((self.bottom_fixed_area / 256)) as u8,
            ((self.bottom_fixed_area % 256)) as u8,
        ]
    }

    fn data(&self) -> (r: [u8; 6]) {
        let b0 = high_byte(self.top_fixed_area);
        let b1 = low_byte(self.top_fixed_area);
        let b2 = high_byte(self.vertical_scroll_area);
        let b3 = low_byte(self.vertical_scroll_area);
        let b4 = high_byte(self.bottom_fixed_area);
        let b5 = low_byte(self.bottom_fixed_area);
        let r = [b0, b1, b2, b3, b4, b5];
        assert(r@ =~= self.payload());
        r
    }
}

} // verus!
