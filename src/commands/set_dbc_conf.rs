use super::{CommandCode, CommandData, flag};
use vstd::prelude::*;

verus! {

/// Energy saving selection of the dynamic backlight control.
#[derive(Clone, Copy, Debug, PartialEq, Eq)]
pub enum EnergySaving {
    DbcDisable,
    ConservativeMode,
    NormalMode,
    AgressiveMode,
}

impl EnergySaving {
    pub open spec fn spec_bits(self) -> u8 {
        match self {
            EnergySaving::DbcDisable => 0,
            EnergySaving::ConservativeMode => 1,
            EnergySaving::NormalMode => 2,
            EnergySaving::AgressiveMode => 3,
        }
    }

    #[verifier::when_used_as_spec(spec_bits)]
    pub fn bits(self) -> (r: u8)
        ensures
            r == self.spec_bits(),
    {
        match self {
            EnergySaving::DbcDisable => 0,
            EnergySaving::ConservativeMode => 1,
            EnergySaving::NormalMode => 2,
            EnergySaving::AgressiveMode => 3,
        }
    }
}

/// Sets the dynamic backlight control configuration.
#[derive(Debug, PartialEq, Eq)]
pub struct SetDbcConf {
    /// Manual brightness enable.
    pub manual_brightness_enable: bool,
    /// Transition effect, which removes visible backlight flicker.
    pub transition_effect_enable: bool,
    /// Energy saving selection.
    pub energy_saving: EnergySaving,
    /// Master enable of the dynamic backlight control.
    pub master_enable: bool,
}

impl CommandCode for SetDbcConf {
    open spec fn spec_code() -> u8 {
        0xD0
    }

    fn code() -> (r: u8) {
        0xD0
    }
}

impl CommandData<1> for SetDbcConf {
    open spec fn wf(&self) -> bool {
        true
    }

    open spec fn payload(&self) -> Seq<u8> {
        seq![
            (flag(self.manual_brightness_enable) * 64 + flag(self.transition_effect_enable) * 32 + self.energy_saving.bits() * 4 + flag(self.master_enable)) as u8,
        ]
    }

    fn data(&self) -> (r: [u8; 1]) {
        let b0_0 = flag(self.manual_brightness_enable);
        let b0_1 = flag(self.transition_effect_enable);
        let b0_2 = self.energy_saving.bits();
        let b0_3 = flag(self.master_enable);
        let b0 = (b0_0 << 6u8) | (b0_1 << 5u8) | (b0_2 << 2u8) | b0_3;
        assert(b0 == b0_0 * 64 + b0_1 * 32 + b0_2 * 4 + b0_3) by (bit_vector)
            requires
                b0_0 <= 1, b0_1 <= 1, b0_2 <= 3, b0_3 <= 1,
                b0 == (b0_0 << 6u8) | (b0_1 << 5u8) | (b0_2 << 2u8) | b0_3,
        ;
        let r = [b0];
        assert(r@ =~= self.payload());
        r
    }
}

} // verus!
