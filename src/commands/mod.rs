use vstd::prelude::*;

pub mod set_address_mode;
pub mod set_column_address;
pub mod set_dbc_conf;
pub mod set_dbc_th;
pub mod set_gpio_conf;
pub mod set_gpio_value;
pub mod set_gpiox_rop;
pub mod set_hori_period;
pub mod set_lcd_genx;
pub mod set_lcd_mode;
pub mod set_lshift_freq;
pub mod set_page_address;
pub mod set_pixel_data_interface;
pub mod set_pll;
pub mod set_pll_mn;
pub mod set_post_proc;
pub mod set_pwm_conf;
pub mod set_scroll_area;
pub mod set_scroll_start;
pub mod set_vert_period;

pub use set_address_mode::SetAddressMode;
pub use set_column_address::SetColumnAddress;
pub use set_dbc_conf::SetDbcConf;
pub use set_dbc_th::SetDbcTh;
pub use set_gpio_conf::SetGpioConf;
pub use set_gpio_value::SetGpioValue;
pub use set_gpiox_rop::{SetGpio0Rop, SetGpio1Rop, SetGpio2Rop, SetGpio3Rop};
pub use set_hori_period::SetHoriPeriod;
pub use set_lcd_genx::{SetLcdGen0, SetLcdGen1, SetLcdGen2, SetLcdGen3};
pub use set_lcd_mode::SetLcdMode;
pub use set_lshift_freq::SetLShiftFreq;
pub use set_page_address::SetPageAddress;
pub use set_pixel_data_interface::SetPixelDataInterface;
pub use set_pll::SetPll;
pub use set_pll_mn::SetPllMn;
pub use set_post_proc::SetPostProc;
pub use set_pwm_conf::SetPwmConf;
pub use set_scroll_area::SetScrollArea;
pub use set_scroll_start::SetScrollStart;
pub use set_vert_period::SetVertPeriod;

verus! {

/// The one-byte code that selects a command on the controller.
pub trait CommandCode {
    spec fn spec_code() -> u8;

    fn code() -> (r: u8)
        ensures
            r == Self::spec_code(),
    ;
}

/// The `N` parameter bytes that follow a command code.
pub trait CommandData<const N: usize> {
    /// The fields lie in their declared ranges.
    spec fn wf(&self) -> bool;

    /// The parameter bytes, in the order they go on the bus.
    spec fn payload(&self) -> Seq<u8>;

    fn data(&self) -> (r: [u8; N])
        requires
            self.wf(),
        ensures
            r@ == self.payload(),
            r@.len() == N,
    ;
}

pub open spec fn spec_flag(b: bool) -> u8 {
    if b {
        1
    } else {
        0
    }
}

/// A single bit that holds a boolean field.
#[verifier::when_used_as_spec(spec_flag)]
pub fn flag(b: bool) -> (r: u8)
    ensures
        r == spec_flag(b),
{
    if b {
        1
    } else {
        0
    }
}

/// Most significant byte of a 16-bit value.
pub fn high_byte(v: u16) -> (r: u8)
    ensures
        r == v / 256,
{
    assert((v >> 8u16) as u8 == v / 256) by (bit_vector);
    (v >> 8u16) as u8
}

/// Least significant byte of a 16-bit value.
pub fn low_byte(v: u16) -> (r: u8)
    ensures
        r == v % 256,
{
    assert((v & 0xffu16) as u8 == v % 256) by (bit_vector);
    (v & 0xffu16) as u8
}

/// Third byte from the bottom of a 32-bit value.
pub fn byte2(v: u32) -> (r: u8)
    ensures
        r == (v / 65536) % 256,
{
    assert(((v >> 16u32) & 0xffu32) as u8 == (v / 65536) % 256) by (bit_vector);
    ((v >> 16u32) & 0xffu32) as u8
}

/// Second byte from the bottom of a 32-bit value.
pub fn byte1(v: u32) -> (r: u8)
    ensures
        r == (v / 256) % 256,
{
    assert(((v >> 8u32) & 0xffu32) as u8 == (v / 256) % 256) by (bit_vector);
    ((v >> 8u32) & 0xffu32) as u8
}

/// Least significant byte of a 32-bit value.
pub fn byte0(v: u32) -> (r: u8)
    ensures
        r == v % 256,
{
    assert((v & 0xffu32) as u8 == v % 256) by (bit_vector);
    (v & 0xffu32) as u8
}

/// Who drives a pin of the controller.
#[derive(Clone, Copy, Debug, PartialEq, Eq)]
pub enum ControlledBy {
    Host,
    Lcdc,
}

impl ControlledBy {
    pub open spec fn spec_bits(self) -> u8 {
        match self {
            ControlledBy::Host => 0,
            ControlledBy::Lcdc => 1,
        }
    }

    #[verifier::when_used_as_spec(spec_bits)]
    pub fn bits(self) -> (r: u8)
        ensures
            r == self.spec_bits(),
    {
        match self {
            ControlledBy::Host => 0,
            ControlledBy::Lcdc => 1,
        }
    }
}

/// A command without parameters.
#[derive(Debug, PartialEq, Eq)]
pub struct Nop;

impl CommandCode for Nop {
    open spec fn spec_code() -> u8 {
        0x00
    }

    fn code() -> (r: u8) {
        0x00
    }
}

impl CommandData<0> for Nop {
    open spec fn wf(&self) -> bool {
        true
    }

    open spec fn payload(&self) -> Seq<u8> {
        Seq::empty()
    }

    fn data(&self) -> (r: [u8; 0]) {
        let r: [u8; 0] = [];
        assert(r@ =~= Seq::<u8>::empty());
        r
    }
}

/// A command without parameters.
#[derive(Debug, PartialEq, Eq)]
pub struct SoftReset;

impl CommandCode for SoftReset {
    open spec fn spec_code() -> u8 {
        0x01
    }

    fn code() -> (r: u8) {
        0x01
    }
}

impl CommandData<0> for SoftReset {
    open spec fn wf(&self) -> bool {
        true
    }

    open spec fn payload(&self) -> Seq<u8> {
        Seq::empty()
    }

    fn data(&self) -> (r: [u8; 0]) {
        let r: [u8; 0] = [];
        assert(r@ =~= Seq::<u8>::empty());
        r
    }
}

/// A command without parameters.
#[derive(Debug, PartialEq, Eq)]
pub struct EnterSleepMode;

impl CommandCode for EnterSleepMode {
    open spec fn spec_code() -> u8 {
        0x10
    }

    fn code() -> (r: u8) {
        0x10
    }
}

impl CommandData<0> for EnterSleepMode {
    open spec fn wf(&self) -> bool {
        true
    }

    open spec fn payload(&self) -> Seq<u8> {
        Seq::empty()
    }

    fn data(&self) -> (r: [u8; 0]) {
        let r: [u8; 0] = [];
        assert(r@ =~= Seq::<u8>::empty());
        r
    }
}

/// A command without parameters.
#[derive(Debug, PartialEq, Eq)]
pub struct ExitSleepMode;

impl CommandCode for ExitSleepMode {
    open spec fn spec_code() -> u8 {
        0x11
    }

    fn code() -> (r: u8) {
        0x11
    }
}

impl CommandData<0> for ExitSleepMode {
    open spec fn wf(&self) -> bool {
        true
    }

    open spec fn payload(&self) -> Seq<u8> {
        Seq::empty()
    }

    fn data(&self) -> (r: [u8; 0]) {
        let r: [u8; 0] = [];
        assert(r@ =~= Seq::<u8>::empty());
        r
    }
}

/// A command without parameters.
#[derive(Debug, PartialEq, Eq)]
pub struct EnterPartialMode;

impl CommandCode for EnterPartialMode {
    open spec fn spec_code() -> u8 {
        0x12
    }

    fn code() -> (r: u8) {
        0x12
    }
}

impl CommandData<0> for EnterPartialMode {
    open spec fn wf(&self) -> bool {
        true
    }

    open spec fn payload(&self) -> Seq<u8> {
        Seq::empty()
    }

    fn data(&self) -> (r: [u8; 0]) {
        let r: [u8; 0] = [];
        assert(r@ =~= Seq::<u8>::empty());
        r
    }
}

/// A command without parameters.
#[derive(Debug, PartialEq, Eq)]
pub struct EnterNormalMode;

impl CommandCode for EnterNormalMode {
    open spec fn spec_code() -> u8 {
        0x13
    }

    fn code() -> (r: u8) {
        0x13
    }
}

impl CommandData<0> for EnterNormalMode {
    open spec fn wf(&self) -> bool {
        true
    }

    open spec fn payload(&self) -> Seq<u8> {
        Seq::empty()
    }

    fn data(&self) -> (r: [u8; 0]) {
        let r: [u8; 0] = [];
        assert(r@ =~= Seq::<u8>::empty());
        r
    }
}

/// A command without parameters.
#[derive(Debug, PartialEq, Eq)]
pub struct ExitInvertMode;

impl CommandCode for ExitInvertMode {
    open spec fn spec_code() -> u8 {
        0x20
    }

    fn code() -> (r: u8) {
        0x20
    }
}

impl CommandData<0> for ExitInvertMode {
    open spec fn wf(&self) -> bool {
        true
    }

    open spec fn payload(&self) -> Seq<u8> {
        Seq::empty()
    }

    fn data(&self) -> (r: [u8; 0]) {
        let r: [u8; 0] = [];
        assert(r@ =~= Seq::<u8>::empty());
        r
    }
}

/// A command without parameters.
#[derive(Debug, PartialEq, Eq)]
pub struct EnterInvertMode;

impl CommandCode for EnterInvertMode {
    open spec fn spec_code() -> u8 {
        0x21
    }

    fn code() -> (r: u8) {
        0x21
    }
}

impl CommandData<0> for EnterInvertMode {
    open spec fn wf(&self) -> bool {
        true
    }

    open spec fn payload(&self) -> Seq<u8> {
        Seq::empty()
    }

    fn data(&self) -> (r: [u8; 0]) {
        let r: [u8; 0] = [];
        assert(r@ =~= Seq::<u8>::empty());
        r
    }
}

/// A command without parameters.
#[derive(Debug, PartialEq, Eq)]
pub struct SetDisplayOff;

impl CommandCode for SetDisplayOff {
    open spec fn spec_code() -> u8 {
        0x28
    }

    fn code() -> (r: u8) {
        0x28
    }
}

impl CommandData<0> for SetDisplayOff {
    open spec fn wf(&self) -> bool {
        true
    }

    open spec fn payload(&self) -> Seq<u8> {
        Seq::empty()
    }

    fn data(&self) -> (r: [u8; 0]) {
        let r: [u8; 0] = [];
        assert(r@ =~= Seq::<u8>::empty());
        r
    }
}

/// A command without parameters.
#[derive(Debug, PartialEq, Eq)]
pub struct SetDisplayOn;

impl CommandCode for SetDisplayOn {
    open spec fn spec_code() -> u8 {
        0x29
    }

    fn code() -> (r: u8) {
        0x29
    }
}

impl CommandData<0> for SetDisplayOn {
    open spec fn wf(&self) -> bool {
        true
    }

    open spec fn payload(&self) -> Seq<u8> {
        Seq::empty()
    }

    fn data(&self) -> (r: [u8; 0]) {
        let r: [u8; 0] = [];
        assert(r@ =~= Seq::<u8>::empty());
        r
    }
}

/// A command without parameters.
#[derive(Debug, PartialEq, Eq)]
pub struct WriteMemoryStart;

impl CommandCode for WriteMemoryStart {
    open spec fn spec_code() -> u8 {
        0x2C
    }

    fn code() -> (r: u8) {
        0x2C
    }
}

impl CommandData<0> for WriteMemoryStart {
    open spec fn wf(&self) -> bool {
        true
    }

    open spec fn payload(&self) -> Seq<u8> {
        Seq::empty()
    }

    fn data(&self) -> (r: [u8; 0]) {
        let r: [u8; 0] = [];
        assert(r@ =~= Seq::<u8>::empty());
        r
    }
}

/// A command without parameters.
#[derive(Debug, PartialEq, Eq)]
pub struct ReadMemoryStart;

impl CommandCode for ReadMemoryStart {
    open spec fn spec_code() -> u8 {
        0x2E
    }

    fn code() -> (r: u8) {
        0x2E
    }
}

impl CommandData<0> for ReadMemoryStart {
    open spec fn wf(&self) -> bool {
        true
    }

    open spec fn payload(&self) -> Seq<u8> {
        Seq::empty()
    }

    fn data(&self) -> (r: [u8; 0]) {
        let r: [u8; 0] = [];
        assert(r@ =~= Seq::<u8>::empty());
        r
    }
}

/// A command without parameters.
#[derive(Debug, PartialEq, Eq)]
pub struct SetTearOff;

impl CommandCode for SetTearOff {
    open spec fn spec_code() -> u8 {
        0x34
    }

    fn code() -> (r: u8) {
        0x34
    }
}

impl CommandData<0> for SetTearOff {
    open spec fn wf(&self) -> bool {
        true
    }

    open spec fn payload(&self) -> Seq<u8> {
        Seq::empty()
    }

    fn data(&self) -> (r: [u8; 0]) {
        let r: [u8; 0] = [];
        assert(r@ =~= Seq::<u8>::empty());
        r
    }
}

/// A command without parameters.
#[derive(Debug, PartialEq, Eq)]
pub struct ExistIdleMode;

impl CommandCode for ExistIdleMode {
    open spec fn spec_code() -> u8 {
        0x38
    }

    fn code() -> (r: u8) {
        0x38
    }
}

impl CommandData<0> for ExistIdleMode {
    open spec fn wf(&self) -> bool {
        true
    }

    open spec fn payload(&self) -> Seq<u8> {
        Seq::empty()
    }

    fn data(&self) -> (r: [u8; 0]) {
        let r: [u8; 0] = [];
        assert(r@ =~= Seq::<u8>::empty());
        r
    }
}

/// A command without parameters.
#[derive(Debug, PartialEq, Eq)]
pub struct EnterIdleMode;

impl CommandCode for EnterIdleMode {
    open spec fn spec_code() -> u8 {
        0x39
    }

    fn code() -> (r: u8) {
        0x39
    }
}

impl CommandData<0> for EnterIdleMode {
    open spec fn wf(&self) -> bool {
        true
    }

    open spec fn payload(&self) -> Seq<u8> {
        Seq::empty()
    }

    fn data(&self) -> (r: [u8; 0]) {
        let r: [u8; 0] = [];
        assert(r@ =~= Seq::<u8>::empty());
        r
    }
}

/// A command without parameters.
#[derive(Debug, PartialEq, Eq)]
pub struct WriteMemoryContinue;

impl CommandCode for WriteMemoryContinue {
    open spec fn spec_code() -> u8 {
        0x3C
    }

    fn code() -> (r: u8) {
        0x3C
    }
}

impl CommandData<0> for WriteMemoryContinue {
    open spec fn wf(&self) -> bool {
        true
    }

    open spec fn payload(&self) -> Seq<u8> {
        Seq::empty()
    }

    fn data(&self) -> (r: [u8; 0]) {
        let r: [u8; 0] = [];
        assert(r@ =~= Seq::<u8>::empty());
        r
    }
}

/// A command without parameters.
#[derive(Debug, PartialEq, Eq)]
pub struct ReadMemoryContinue;

impl CommandCode for ReadMemoryContinue {
    open spec fn spec_code() -> u8 {
        0x3E
    }

    fn code() -> (r: u8) {
        0x3E
    }
}

impl CommandData<0> for ReadMemoryContinue {
    open spec fn wf(&self) -> bool {
        true
    }

    open spec fn payload(&self) -> Seq<u8> {
        Seq::empty()
    }

    fn data(&self) -> (r: [u8; 0]) {
        let r: [u8; 0] = [];
        assert(r@ =~= Seq::<u8>::empty());
        r
    }
}

/// A command without parameters.
#[derive(Debug, PartialEq, Eq)]
pub struct SetDeepSleep;

impl CommandCode for SetDeepSleep {
    open spec fn spec_code() -> u8 {
        0xE5
    }

    fn code() -> (r: u8) {
        0xE5
    }
}

impl CommandData<0> for SetDeepSleep {
    open spec fn wf(&self) -> bool {
        true
    }

    open spec fn payload(&self) -> Seq<u8> {
        Seq::empty()
    }

    fn data(&self) -> (r: [u8; 0]) {
        let r: [u8; 0] = [];
        assert(r@ =~= Seq::<u8>::empty());
        r
    }
}

} // verus!
