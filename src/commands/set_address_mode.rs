use super::{CommandCode, CommandData, flag};
use vstd::prelude::*;

verus! {

#[derive(Clone, Copy, Debug, PartialEq, Eq)]
pub enum PageAddressOrder {
    TopToBottom,
    BottomToTop,
}

impl PageAddressOrder {
    pub open spec fn spec_bits(self) -> u8 {
        match self {
            PageAddressOrder::TopToBottom => 0,
            PageAddressOrder::BottomToTop => 1,
        }
    }

    #[verifier::when_used_as_spec(spec_bits)]
    pub fn bits(self) -> (r: u8)
        ensures
            r == self.spec_bits(),
    {
        match self {
            PageAddressOrder::TopToBottom => 0,
            PageAddressOrder::BottomToTop => 1,
        }
    }
}

#[derive(Clone, Copy, Debug, PartialEq, Eq)]
pub enum ColumnAddressOrder {
    LeftToRight,
    RightToLeft,
}

impl ColumnAddressOrder {
    pub open spec fn spec_bits(self) -> u8 {
        match self {
            ColumnAddressOrder::LeftToRight => 0,
            ColumnAddressOrder::RightToLeft => 1,
        }
    }

    #[verifier::when_used_as_spec(spec_bits)]
    pub fn bits(self) -> (r: u8)
        ensures
            r == self.spec_bits(),
    {
        match self {
            ColumnAddressOrder::LeftToRight => 0,
            ColumnAddressOrder::RightToLeft => 1,
        }
    }
}

#[derive(Clone, Copy, Debug, PartialEq, Eq)]
pub enum PageColumnOrder {
    Normal,
    Reverse,
}

impl PageColumnOrder {
    pub open spec fn spec_bits(self) -> u8 {
        match self {
            PageColumnOrder::Normal => 0,
            PageColumnOrder::Reverse => 1,
        }
    }

    #[verifier::when_used_as_spec(spec_bits)]
    pub fn bits(self) -> (r: u8)
        ensures
            r == self.spec_bits(),
    {
        match self {
            PageColumnOrder::Normal => 0,
            PageColumnOrder::Reverse => 1,
        }
    }
}

#[derive(Clone, Copy, Debug, PartialEq, Eq)]
pub enum LineAddressOrder {
    LcdRefreshTopToBottom,
    LcdRefreshBottomToTop,
}

impl LineAddressOrder {
    pub open spec fn spec_bits(self) -> u8 {
        match self {
            LineAddressOrder::LcdRefreshTopToBottom => 0,
            LineAddressOrder::LcdRefreshBottomToTop => 1,
        }
    }

    #[verifier::when_used_as_spec(spec_bits)]
    pub fn bits(self) -> (r: u8)
        ensures
            r == self.spec_bits(),
    {
        match self {
            LineAddressOrder::LcdRefreshTopToBottom => 0,
            LineAddressOrder::LcdRefreshBottomToTop => 1,
        }
    }
}

#[derive(Clone, Copy, Debug, PartialEq, Eq)]
pub enum ColorOrder {
    Rgb,
    Bgr,
}

impl ColorOrder {
    pub open spec fn spec_bits(self) -> u8 {
        match self {
            ColorOrder::Rgb => 0,
            ColorOrder::Bgr => 1,
        }
    }

    #[verifier::when_used_as_spec(spec_bits)]
    pub fn bits(self) -> (r: u8)
        ensures
            r == self.spec_bits(),
    {
        match self {
            ColorOrder::Rgb => 0,
            ColorOrder::Bgr => 1,
        }
    }
}

#[derive(Clone, Copy, Debug, PartialEq, Eq)]
pub enum DataLatchOrder {
    LcdRefreshLeftToRight,
    LcdRefreshRightToLeft,
}

impl DataLatchOrder {
    pub open spec fn spec_bits(self) -> u8 {
        match self {
            DataLatchOrder::LcdRefreshLeftToRight => 0,
            DataLatchOrder::LcdRefreshRightToLeft => 1,
        }
    }

    #[verifier::when_used_as_spec(spec_bits)]
    pub fn bits(self) -> (r: u8)
        ensures
            r == self.spec_bits(),
    {
        match self {
            DataLatchOrder::LcdRefreshLeftToRight => 0,
            DataLatchOrder::LcdRefreshRightToLeft => 1,
        }
    }
}

/// Sets the order in which the frame memory is read and written.
#[derive(Debug, PartialEq, Eq)]
pub struct SetAddressMode {
    pub page_address_order: PageAddressOrder,
    pub column_address_order: ColumnAddressOrder,
    pub page_column_order: PageColumnOrder,
    pub line_address_order: LineAddressOrder,
    pub color_order: ColorOrder,
    pub data_latch_order: DataLatchOrder,
    pub flip_horizontal: bool,
    pub flip_vertical: bool,
}

impl CommandCode for SetAddressMode {
    open spec fn spec_code() -> u8 {
        0x36
    }

    fn code() -> (r: u8) {
        0x36
    }
}

impl CommandData<1> for SetAddressMode {
    open spec fn wf(&self) -> bool {
        true
    }

    open spec fn payload(&self) -> Seq<u8> {
        seq![
            (self.page_address_order.bits() * 128 + self.column_address_order.bits() * 64 + self.page_column_order.bits() * 32 + self.line_address_order.bits() * 16 + self.color_order.bits() * 8 + self.data_latch_order.bits() * 4 + flag(self.flip_horizontal) * 2 + flag(self.flip_vertical)) as u8,
        ]
    }

    fn data(&self) -> (r: [u8; 1]) {
        let b0_0 = self.page_address_order.bits();
        let b0_1 = self.column_address_order.bits();
        let b0_2 = self.page_column_order.bits();
        let b0_3 = self.line_address_order.bits();
        let b0_4 = self.color_order.bits();
        let b0_5 = self.data_latch_order.bits();
        let b0_6 = flag(self.flip_horizontal);
        let b0_7 = flag(self.flip_vertical);
        let b0 = (b0_0 << 7u8) | (b0_1 << 6u8) | (b0_2 << 5u8) | (b0_3 << 4u8) | (b0_4 << 3u8) | (b0_5 << 2u8) | (b0_6 << 1u8) | b0_7;
        assert(b0 == b0_0 * 128 + b0_1 * 64 + b0_2 * 32 + b0_3 * 16 + b0_4 * 8 + b0_5 * 4 + b0_6 * 2 + b0_7) by (bit_vector)
            requires
                b0_0 <= 1, b0_1 <= 1, b0_2 <= 1, b0_3 <= 1, b0_4 <= 1, b0_5 <= 1, b0_6 <= 1, b0_7 <= 1,
                b0 == (b0_0 << 7u8) | (b0_1 << 6u8) | (b0_2 << 5u8) | (b0_3 << 4u8) | (b0_4 << 3u8) | (b0_5 << 2u8) | (b0_6 << 1u8) | b0_7,
        ;
        let r = [b0];
        assert(r@ =~= self.payload());
        r
    }
}

} // verus!
