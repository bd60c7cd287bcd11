use super::{CommandCode, CommandData};
use vstd::prelude::*;

verus! {

/// Pixel format of the host interface.
#[derive(Clone, Copy, Debug, PartialEq, Eq)]
pub enum PixelDataInterfaceFormat {
    B8,
    B12,
    B16Packed,
    B16Format565,
    B18,
    B24,
    B9,
}

impl PixelDataInterfaceFormat {
    pub open spec fn spec_bits(self) -> u8 {
        match self {
            PixelDataInterfaceFormat::B8 => 0,
            PixelDataInterfaceFormat::B12 => 1,
            PixelDataInterfaceFormat::B16Packed => 2,
            PixelDataInterfaceFormat::B16Format565 => 3,
            PixelDataInterfaceFormat::B18 => 4,
            PixelDataInterfaceFormat::B24 => 5,
            PixelDataInterfaceFormat::B9 => 6,
        }
    }

    #[verifier::when_used_as_spec(spec_bits)]
    pub fn bits(self) -> (r: u8)
        ensures
            r == self.spec_bits(),
    {
        match self {
            PixelDataInterfaceFormat::B8 => 0,
            PixelDataInterfaceFormat::B12 => 1,
            PixelDataInterfaceFormat::B16Packed => 2,
            PixelDataInterfaceFormat::B16Format565 => 3,
            PixelDataInterfaceFormat::B18 => 4,
            PixelDataInterfaceFormat::B24 => 5,
            PixelDataInterfaceFormat::B9 => 6,
        }
    }
}

/// Sets the pixel data format of the host interface.
#[derive(Debug, PartialEq, Eq)]
pub struct SetPixelDataInterface {
    pub pixel_data_interface_format: PixelDataInterfaceFormat,
}

impl CommandCode for SetPixelDataInterface {
    open spec fn spec_code() -> u8 {
        0xF0
    }

    fn code() -> (r: u8) {
        0xF0
    }
}

impl CommandData<1> for SetPixelDataInterface {
    open spec fn wf(&self) -> bool {
        true
    }

    open spec fn payload(&self) -> Seq<u8> {
        seq![
            (self.pixel_data_interface_format.bits()) as u8,
        ]
    }

    fn data(&self) -> (r: [u8; 1]) {
        let b0 = self.pixel_data_interface_format.bits();
        let r = [b0];
        assert(r@ =~= self.payload());
        r
    }
}

} // verus!
