use super::{CommandCode, CommandData, byte0, byte1, byte2};
use vstd::prelude::*;

verus! {

/// Energy saving selection of the dynamic backlight control.
#[derive(Clone, Copy, Debug, PartialEq, Eq)]
pub enum EnergySaving {
    DbcDisable,
    ConservativeMode,
    NormalMode,
    AgressiveMode,
}

impl EnergySaving {
    pub open spec fn spec_bits(self) -> u8 {
        match self {
            EnergySaving::DbcDisable => 0,
            EnergySaving::ConservativeMode => 1,
            EnergySaving::NormalMode => 2,
            EnergySaving::AgressiveMode => 3,
        }
    }

    #[verifier::when_used_as_spec(spec_bits)]
    pub fn bits(self) -> (r: u8)
        ensures
            r == self.spec_bits(),
    {
        match self {
            EnergySaving::DbcDisable => 0,
            EnergySaving::ConservativeMode => 1,
            EnergySaving::NormalMode => 2,
            EnergySaving::AgressiveMode => 3,
        }
    }
}

/// Sets the threshold of each level of power saving.
#[derive(Debug, PartialEq, Eq)]
pub struct SetDbcTh {
    /// Threshold of the conservative mode.
    pub dbc_th1: u32,
    /// Threshold of the normal mode.
    pub dbc_th2: u32,
    /// Threshold of the aggressive mode.
    pub dbc_th3: u32,
}

impl CommandCode for SetDbcTh {
    open spec fn spec_code() -> u8 {
        0xD4
    }

    fn code() -> (r: u8) {
        0xD4
    }
}

impl CommandData<9> for SetDbcTh {
    open spec fn wf(&self) -> bool {
        self.dbc_th1 < 0x20000 && self.dbc_th2 < 0x20000 && self.dbc_th3 < 0x20000
    }

    open spec fn payload(&self) -> Seq<u8> {
        seq![
            (((self.dbc_th1 / 65536) % 256)) as u8,
            (((self.dbc_th1 / 256) % 256)) as u8,
            ((self.dbc_th1 % 256)) as u8,
            (((self.dbc_th2 / 65536) % 256)) as u8,
            (((self.dbc_th2 / 256) % 256)) as u8,
            ((self.dbc_th2 % 256)) as u8,
            (((self.dbc_th3 / 65536) % 256)) as u8,
            (((self.dbc_th3 / 256) % 256)) as u8,
            ((self.dbc_th3 % 256)) as u8,
        ]
    }

    fn data(&self) -> (r: [u8; 9]) {
        let b0 = byte2(self.dbc_th1);
        let b1 = byte1(self.dbc_th1);
        let b2 = byte0(self.dbc_th1);
        let b3 = byte2(self.dbc_th2);
        let b4 = byte1(self.dbc_th2);
        let b5 = byte0(self.dbc_th2);
        let b6 = byte2(self.dbc_th3);
        let b7 = byte1(self.dbc_th3);
        let b8 = byte0(self.dbc_th3);
        let r = [b0, b1, b2, b3, b4, b5, b6, b7, b8];
        assert(r@ =~= self.payload());
        r
    }
}

} // verus!
