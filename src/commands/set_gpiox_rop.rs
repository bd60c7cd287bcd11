use super::{CommandCode, CommandData};
use vstd::prelude::*;

verus! {

/// A signal generator.
#[derive(Clone, Copy, Debug, PartialEq, Eq)]
pub enum Source {
    Generator0,
    Generator1,
    Generator2,
    Generator3,
}

impl Source {
    pub open spec fn spec_bits(self) -> u8 {
        match self {
            Source::Generator0 => 0,
            Source::Generator1 => 1,
            Source::Generator2 => 2,
            Source::Generator3 => 3,
        }
    }

    #[verifier::when_used_as_spec(spec_bits)]
    pub fn bits(self) -> (r: u8)
        ensures
            r == self.spec_bits(),
    {
        match self {
            Source::Generator0 => 0,
            Source::Generator1 => 1,
            Source::Generator2 => 2,
            Source::Generator3 => 3,
        }
    }
}

/// Sets the raster operation of general purpose pin 0.
#[derive(Debug, PartialEq, Eq)]
pub struct SetGpio0Rop {
    /// First source when the pin is driven by the controller.
    pub source1: Source,
    /// Second source.
    pub source2: Source,
    /// Third source.
    pub source3: Source,
    /// Raster operation that combines the three sources.
    pub rop_operation_mux: u8,
}

impl CommandCode for SetGpio0Rop {
    open spec fn spec_code() -> u8 {
        0xC8
    }

    fn code() -> (r: u8) {
        0xC8
    }
}

impl CommandData<2> for SetGpio0Rop {
    open spec fn wf(&self) -> bool {
        true
    }

    open spec fn payload(&self) -> Seq<u8> {
        seq![
            (self.source1.bits() * 32 + self.source2.bits() * 4 + self.source3.bits()) as u8,
            (self.rop_operation_mux) as u8,
        ]
    }

    fn data(&self) -> (r: [u8; 2]) {
        let b0_0 = self.source1.bits();
        let b0_1 = self.source2.bits();
        let b0_2 = self.source3.bits();
        let b0 = (b0_0 << 5u8) | (b0_1 << 2u8) | b0_2;
        assert(b0 == b0_0 * 32 + b0_1 * 4 + b0_2) by (bit_vector)
            requires
                b0_0 <= 3, b0_1 <= 3, b0_2 <= 3,
                b0 == (b0_0 << 5u8) | (b0_1 << 2u8) | b0_2,
        ;
        let b1 = self.rop_operation_mux;
        let r = [b0, b1];
        assert(r@ =~= self.payload());
        r
    }
}

/// Sets the raster operation of general purpose pin 1.
#[derive(Debug, PartialEq, Eq)]
pub struct SetGpio1Rop {
    /// First source when the pin is driven by the controller.
    pub source1: Source,
    /// Second source.
    pub source2: Source,
    /// Third source.
    pub source3: Source,
    /// Raster operation that combines the three sources.
    pub rop_operation_mux: u8,
}

impl CommandCode for SetGpio1Rop {
    open spec fn spec_code() -> u8 {
        0xCA
    }

    fn code() -> (r: u8) {
        0xCA
    }
}

impl CommandData<2> for SetGpio1Rop {
    open spec fn wf(&self) -> bool {
        true
    }

    open spec fn payload(&self) -> Seq<u8> {
        seq![
            (self.source1.bits() * 32 + self.source2.bits() * 4 + self.source3.bits()) as u8,
            (self.rop_operation_mux) as u8,
        ]
    }

    fn data(&self) -> (r: [u8; 2]) {
        let b0_0 = self.source1.bits();
        let b0_1 = self.source2.bits();
        let b0_2 = self.source3.bits();
        let b0 = (b0_0 << 5u8) | (b0_1 << 2u8) | b0_2;
        assert(b0 == b0_0 * 32 + b0_1 * 4 + b0_2) by (bit_vector)
            requires
                b0_0 <= 3, b0_1 <= 3, b0_2 <= 3,
                b0 == (b0_0 << 5u8) | (b0_1 << 2u8) | b0_2,
        ;
        let b1 = self.rop_operation_mux;
        let r = [b0, b1];
        assert(r@ =~= self.payload());
        r
    }
}

/// Sets the raster operation of general purpose pin 2.
#[derive(Debug, PartialEq, Eq)]
pub struct SetGpio2Rop {
    /// First source when the pin is driven by the controller.
    pub source1: Source,
    /// Second source.
    pub source2: Source,
    /// Third source.
    pub source3: Source,
    /// Raster operation that combines the three sources.
    pub rop_operation_mux: u8,
}

impl CommandCode for SetGpio2Rop {
    open spec fn spec_code() -> u8 {
        0xCC
    }

    fn code() -> (r: u8) {
        0xCC
    }
}

impl CommandData<2> for SetGpio2Rop {
    open spec fn wf(&self) -> bool {
        true
    }

    open spec fn payload(&self) -> Seq<u8> {
        seq![
            (self.source1.bits() * 32 + self.source2.bits() * 4 + self.source3.bits()) as u8,
            (self.rop_operation_mux) as u8,
        ]
    }

    fn data(&self) -> (r: [u8; 2]) {
        let b0_0 = self.source1.bits();
        let b0_1 = self.source2.bits();
        let b0_2 = self.source3.bits();
        let b0 = (b0_0 << 5u8) | (b0_1 << 2u8) | b0_2;
        assert(b0 == b0_0 * 32 + b0_1 * 4 + b0_2) by (bit_vector)
            requires
                b0_0 <= 3, b0_1 <= 3, b0_2 <= 3,
                b0 == (b0_0 << 5u8) | (b0_1 << 2u8) | b0_2,
        ;
        let b1 = self.rop_operation_mux;
        let r = [b0, b1];
        assert(r@ =~= self.payload());
        r
    }
}

/// Sets the raster operation of general purpose pin 3.
#[derive(Debug, PartialEq, Eq)]
pub struct SetGpio3Rop {
    /// First source when the pin is driven by the controller.
    pub source1: Source,
    /// Second source.
    pub source2: Source,
    /// Third source.
    pub source3: Source,
    /// Raster operation that combines the three sources.
    pub rop_operation_mux: u8,
}

impl CommandCode for SetGpio3Rop {
    open spec fn spec_code() -> u8 {
        0xCD
    }

    fn code() -> (r: u8) {
        0xCD
    }
}

impl CommandData<2> for SetGpio3Rop {
    open spec fn wf(&self) -> bool {
        true
    }

    open spec fn payload(&self) -> Seq<u8> {
        seq![
            (self.source1.bits() * 32 + self.source2.bits() * 4 + self.source3.bits()) as u8,
            (self.rop_operation_mux) as u8,
        ]
    }

    fn data(&self) -> (r: [u8; 2]) {
        let b0_0 = self.source1.bits();
        let b0_1 = self.source2.bits();
        let b0_2 = self.source3.bits();
        let b0 = (b0_0 << 5u8) | (b0_1 << 2u8) | b0_2;
        assert(b0 == b0_0 * 32 + b0_1 * 4 + b0_2) by (bit_vector)
            requires
                b0_0 <= 3, b0_1 <= 3, b0_2 <= 3,
                b0 == (b0_0 << 5u8) | (b0_1 << 2u8) | b0_2,
        ;
        let b1 = self.rop_operation_mux;
        let r = [b0, b1];
        assert(r@ =~= self.payload());
        r
    }
}

} // verus!
