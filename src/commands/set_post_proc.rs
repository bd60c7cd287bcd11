use super::{CommandCode, CommandData, flag};
use vstd::prelude::*;

verus! {

/// Level of an output.
#[derive(Clone, Copy, Debug, PartialEq, Eq)]
pub enum Output {
    Zero,
    One,
}

impl Output {
    pub open spec fn spec_bits(self) -> u8 {
        match self {
            Output::Zero => 0,
            Output::One => 1,
        }
    }

    #[verifier::when_used_as_spec(spec_bits)]
    pub fn bits(self) -> (r: u8)
        ensures
            r == self.spec_bits(),
    {
        match self {
            Output::Zero => 0,
            Output::One => 1,
        }
    }
}

/// Sets the image post processor.
#[derive(Debug, PartialEq, Eq)]
pub struct SetPostProc {
    pub contrast: u8,
    pub brightness: u8,
    pub saturation: u8,
    pub enable: bool,
}

impl CommandCode for SetPostProc {
    open spec fn spec_code() -> u8 {
        0xBC
    }

    fn code() -> (r: u8) {
        0xBC
    }
}

impl CommandData<4> for SetPostProc {
    open spec fn wf(&self) -> bool {
        true
    }

    open spec fn payload(&self) -> Seq<u8> {
        seq![
            (self.contrast) as u8,
            (self.brightness) as u8,
            (self.saturation) as u8,
            (flag(self.enable)) as u8,
        ]
    }

    fn data(&self) -> (r: [u8; 4]) {
        let b0 = self.contrast;
        let b1 = self.brightness;
        let b2 = self.saturation;
        let b3 = flag(self.enable);
        let r = [b0, b1, b2, b3];
        assert(r@ =~= self.payload());
        r
    }
}

} // verus!
