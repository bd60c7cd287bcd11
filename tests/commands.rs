use ssd1963::commands::set_address_mode::{
    ColorOrder, ColumnAddressOrder, DataLatchOrder, LineAddressOrder, PageAddressOrder, PageColumnOrder,
};
use ssd1963::commands::set_dbc_conf::EnergySaving;
use ssd1963::commands::set_gpio_conf::{Direction, PowerControl};
use ssd1963::commands::set_gpio_value::Output;
use ssd1963::commands::set_gpiox_rop::Source;
use ssd1963::commands::set_lcd_genx::{ToggleMode, ZeroInLines};
use ssd1963::commands::set_lcd_mode::{Active, ColorSequence, Edge, TftPanelDataWidth, TftType};
use ssd1963::commands::set_pixel_data_interface::PixelDataInterfaceFormat;
use ssd1963::commands::set_pll::SystemClockSource;
use ssd1963::commands::set_pwm_conf::BrightnessPrescaler;
use ssd1963::commands::{
    CommandCode, CommandData, ControlledBy, SetAddressMode, SetColumnAddress, SetDbcConf, SetDbcTh, SetDisplayOn,
    SetGpio0Rop, SetGpio3Rop, SetGpioConf, SetGpioValue, SetHoriPeriod, SetLShiftFreq, SetLcdGen0, SetLcdMode,
    SetPageAddress, SetPixelDataInterface, SetPll, SetPllMn, SetPostProc, SetPwmConf, SetScrollArea, SetScrollStart,
    SetVertPeriod, SoftReset, WriteMemoryStart,
};

#[test]
fn set_addr_mode() {
    let mut zero = SetAddressMode {
        page_address_order: PageAddressOrder::TopToBottom,
        column_address_order: ColumnAddressOrder::LeftToRight,
        page_column_order: PageColumnOrder::Normal,
        line_address_order: LineAddressOrder::LcdRefreshTopToBottom,
        color_order: ColorOrder::Rgb,
        data_latch_order: DataLatchOrder::LcdRefreshLeftToRight,
        flip_horizontal: false,
        flip_vertical: false,
    };
    assert_eq!(zero.data(), [0]);
    zero.page_address_order = PageAddressOrder::BottomToTop;
    assert_eq!(zero.data(), [1 << 7]);
    zero.page_address_order = PageAddressOrder::TopToBottom;
    assert_eq!(zero.data(), [0]);

    zero.page_address_order = PageAddressOrder::BottomToTop;
    zero.column_address_order = ColumnAddressOrder::RightToLeft;
    zero.page_column_order = PageColumnOrder::Reverse;
    zero.line_address_order = LineAddressOrder::LcdRefreshBottomToTop;
    zero.color_order = ColorOrder::Bgr;
    zero.data_latch_order = DataLatchOrder::LcdRefreshRightToLeft;
    zero.flip_horizontal = true;
    zero.flip_vertical = true;
    assert_eq!(zero.data(), [255]);
}

#[test]
fn set_dbc_conf() {
    let mut zero = SetDbcConf {
        manual_brightness_enable: false,
        transition_effect_enable: false,
        energy_saving: EnergySaving::DbcDisable,
        master_enable: false,
    };
    assert_eq!(zero.data(), [0]);
    zero.manual_brightness_enable = true;
    assert_eq!(zero.data(), [0b01000000]);
    zero.transition_effect_enable = true;
    assert_eq!(zero.data(), [0b01100000]);
    zero.energy_saving = EnergySaving::AgressiveMode;
    assert_eq!(zero.data(), [0b01101100]);
    zero.master_enable = true;
    assert_eq!(zero.data(), [0b01101101]);
}

#[test]
fn set_dbc_th() {
    let mut th = SetDbcTh {
        dbc_th1: 0,
        dbc_th2: 0,
        dbc_th3: 0,
    };
    assert_eq!(th.data(), [0, 0, 0, 0, 0, 0, 0, 0, 0]);
    th.dbc_th1 = 0b1_11111111_11111111;
    assert_eq!(th.data(), [1, 255, 255, 0, 0, 0, 0, 0, 0]);
    th.dbc_th2 = 0b1_11111111_11111111;
    assert_eq!(th.data(), [1, 255, 255, 1, 255, 255, 0, 0, 0]);
    th.dbc_th3 = 0b1_11111111_11111111;
    assert_eq!(th.data(), [1, 255, 255, 1, 255, 255, 1, 255, 255]);
}

#[test]
fn set_gpio_conf_set_gpio_conf() {
    let mut gc = SetGpioConf {
        gpio3_conf: ControlledBy::Host,
        gpio2_conf: ControlledBy::Host,
        gpio1_conf: ControlledBy::Host,
        gpio0_conf: ControlledBy::Host,
        gpio3_dir: Direction::Input,
        gpio2_dir: Direction::Input,
        gpio1_dir: Direction::Input,
        gpio0_dir: Direction::Input,
        gpio0_power_control: PowerControl::Power,
    };
    assert_eq!(gc.data(), [0, 0]);
    gc.gpio3_conf = ControlledBy::Lcdc;
    assert_eq!(gc.data(), [0b10000000, 0]);
    gc.gpio2_conf = ControlledBy::Lcdc;
    assert_eq!(gc.data(), [0b11000000, 0]);
    gc.gpio1_conf = ControlledBy::Lcdc;
    assert_eq!(gc.data(), [0b11100000, 0]);
    gc.gpio0_conf = ControlledBy::Lcdc;
    assert_eq!(gc.data(), [0b11110000, 0]);
    gc.gpio3_dir = Direction::Output;
    assert_eq!(gc.data(), [0b11111000, 0]);
    gc.gpio2_dir = Direction::Output;
    assert_eq!(gc.data(), [0b11111100, 0]);
    gc.gpio1_dir = Direction::Output;
    assert_eq!(gc.data(), [0b11111110, 0]);
    gc.gpio0_dir = Direction::Output;
    assert_eq!(gc.data(), [0b11111111, 0]);
    gc.gpio0_power_control = PowerControl::Normal;
    assert_eq!(gc.data(), [0b11111111, 0b1]);
}

#[test]
fn set_gpio_value_set_gpio_conf() {
    let mut gv = SetGpioValue {
        gpio3_value: Output::Zero,
        gpio2_value: Output::Zero,
        gpio1_value: Output::Zero,
        gpio0_value: Output::Zero,
    };
    assert_eq!(gv.data(), [0]);
    gv.gpio3_value = Output::One;
    assert_eq!(gv.data(), [0b1000]);
    gv.gpio2_value = Output::One;
    assert_eq!(gv.data(), [0b1100]);
    gv.gpio1_value = Output::One;
    assert_eq!(gv.data(), [0b1110]);
    gv.gpio0_value = Output::One;
    assert_eq!(gv.data(), [0b1111]);
}

#[test]
fn set_gpio_rop() {
    let mut gc = SetGpio0Rop {
        source1: Source::Generator0,
        source2: Source::Generator0,
        source3: Source::Generator0,
        rop_operation_mux: 0,
    };
    assert_eq!(gc.data(), [0, 0]);
    gc.source1 = Source::Generator3;
    assert_eq!(gc.data(), [0b01100000, 0]);
    gc.source2 = Source::Generator1;
    assert_eq!(gc.data(), [0b01100100, 0]);
    gc.source3 = Source::Generator2;
    assert_eq!(gc.data(), [0b01100110, 0]);
    gc.rop_operation_mux = 255;
    assert_eq!(gc.data(), [0b01100110, 255]);
    assert_eq!(SetGpio0Rop::code(), 0xC8);
    assert_eq!(SetGpio3Rop::code(), 0xCD);
}

#[test]
fn set_hori_period() {
    let mut hp = SetHoriPeriod {
        ht: 0,
        hps: 0,
        hpw: 0,
        lps: 0,
        lpspp: 0,
    };
    assert_eq!(hp.data(), [0, 0, 0, 0, 0, 0, 0, 0]);
    hp.ht = 0b111_11111111;
    assert_eq!(hp.data(), [0b111, 0b11111111, 0, 0, 0, 0, 0, 0]);
    hp.hps = 0b111_11111111;
    assert_eq!(hp.data(), [0b111, 0b11111111, 0b111, 0b11111111, 0, 0, 0, 0]);
    hp.hpw = 0b1111111;
    assert_eq!(hp.data(), [0b111, 0b11111111, 0b111, 0b11111111, 0b1111111, 0, 0, 0]);
    hp.lps = 0b111_11111111;
    assert_eq!(hp.data(), [0b111, 0b11111111, 0b111, 0b11111111, 0b1111111, 0b111, 0b11111111, 0]);
    hp.lpspp = 0b11;
    assert_eq!(hp.data(), [0b111, 0b11111111, 0b111, 0b11111111, 0b1111111, 0b111, 0b11111111, 0b11]);
}

#[test]
fn set_lcd_gen() {
    let mut g0 = SetLcdGen0 {
        reset_every_frame_start: false,
        generator_falling_position: 0,
        generator_rising_position: 0,
        zero_in_non_display_period: false,
        zero_in_lines: ZeroInLines::NormalInBoth,
        toggle_mode: ToggleMode::Disable,
        period: 0,
    };
    assert_eq!(g0.data(), [0, 0, 0, 0, 0, 0, 0]);
    g0.reset_every_frame_start = true;
    assert_eq!(g0.data(), [0b10000000, 0, 0, 0, 0, 0, 0]);
    g0.generator_falling_position = 0b111_11111111;
    assert_eq!(g0.data(), [0b10000000, 0b111, 0b11111111, 0, 0, 0, 0]);
    g0.generator_rising_position = 0b111_11111111;
    assert_eq!(g0.data(), [0b10000000, 0b111, 0b11111111, 0b111, 0b11111111, 0, 0]);
    g0.zero_in_non_display_period = true;
    assert_eq!(g0.data(), [0b10000000, 0b111, 0b11111111, 0b111, 0b11111111, 0b10000000, 0]);
    g0.zero_in_lines = ZeroInLines::ZeroInBoth;
    assert_eq!(g0.data(), [0b10000000, 0b111, 0b11111111, 0b111, 0b11111111, 0b11100000, 0]);
    g0.toggle_mode = ToggleMode::ToggleByFrame;
    assert_eq!(g0.data(), [0b10000000, 0b111, 0b11111111, 0b111, 0b11111111, 0b11111000, 0]);
    g0.period = 0b111_11111111;
    assert_eq!(g0.data(), [0b10000000, 0b111, 0b11111111, 0b111, 0b11111111, 0b11111111, 0b11111111]);
}

#[test]
fn set_lcd_mode() {
    let mut lm = SetLcdMode {
        data_width: TftPanelDataWidth::B18,
        color_depth_enhancement_enable: false,
        frc_enable: false,
        lshift_polarity: Edge::Falling,
        lline_polarity: Active::ActiveLow,
        lframe_polarity: Active::ActiveLow,
        tft_type: TftType::TftMode0,
        hdp: 0,
        vdp: 0,
        even_line_color_sequence: ColorSequence::Rgb,
        odd_line_color_sequence: ColorSequence::Rgb,
    };
    assert_eq!(lm.data(), [0, 0, 0, 0, 0, 0, 0]);
    lm.data_width = TftPanelDataWidth::B24;
    assert_eq!(lm.data(), [0b00100000, 0, 0, 0, 0, 0, 0]);
    lm.color_depth_enhancement_enable = true;
    assert_eq!(lm.data(), [0b00110000, 0, 0, 0, 0, 0, 0]);
    lm.frc_enable = true;
    assert_eq!(lm.data(), [0b00111000, 0, 0, 0, 0, 0, 0]);
    lm.lshift_polarity = Edge::Rising;
    assert_eq!(lm.data(), [0b00111100, 0, 0, 0, 0, 0, 0]);
    lm.lline_polarity = Active::ActiveHigh;
    assert_eq!(lm.data(), [0b00111110, 0, 0, 0, 0, 0, 0]);
    lm.lframe_polarity = Active::ActiveHigh;
    assert_eq!(lm.data(), [0b00111111, 0, 0, 0, 0, 0, 0]);
    lm.tft_type = TftType::SerialRgbDummyMode;
    assert_eq!(lm.data(), [0b00111111, 0b01100000, 0, 0, 0, 0, 0]);
    lm.hdp = 0b111_11111111;
    assert_eq!(lm.data(), [0b00111111, 0b01100000, 0b111, 0b11111111, 0, 0, 0]);
    lm.vdp = 0b111_11111111;
    assert_eq!(lm.data(), [0b00111111, 0b01100000, 0b111, 0b11111111, 0b111, 0b11111111, 0]);
    lm.even_line_color_sequence = ColorSequence::Bgr;
    assert_eq!(lm.data(), [0b00111111, 0b01100000, 0b111, 0b11111111, 0b111, 0b11111111, 0b00101000]);
    lm.odd_line_color_sequence = ColorSequence::Bgr;
    assert_eq!(lm.data(), [0b00111111, 0b01100000, 0b111, 0b11111111, 0b111, 0b11111111, 0b00101101]);
}

#[test]
fn set_lshift_freq() {
    let mut lf = SetLShiftFreq { lcdc_fpr: 0 };
    assert_eq!(lf.data(), [0, 0, 0]);
    lf.lcdc_fpr = 0b1111_11111111_11111111;
    assert_eq!(lf.data(), [0b1111, 255, 255]);
}

#[test]
fn set_page_address() {
    let mut ca = SetPageAddress { start: 0, end: 0 };
    assert_eq!(ca.data(), [0, 0, 0, 0]);
    ca.start = u16::MAX;
    assert_eq!(ca.data(), [255, 255, 0, 0]);
    ca.end = u16::MAX;
    assert_eq!(ca.data(), [255, 255, 255, 255]);
}

#[test]
fn set_column_address() {
    let ca = SetColumnAddress { start: 0x0102, end: 0x031F };
    assert_eq!(ca.data(), [0x01, 0x02, 0x03, 0x1F]);
    assert_eq!(SetColumnAddress::code(), 0x2A);
    assert_eq!(SetPageAddress::code(), 0x2B);
}

#[test]
fn set_pixel_data_interface() {
    let mut lf = SetPixelDataInterface {
        pixel_data_interface_format: PixelDataInterfaceFormat::B8,
    };
    assert_eq!(lf.data(), [0]);
    lf.pixel_data_interface_format = PixelDataInterfaceFormat::B9;
    assert_eq!(lf.data(), [0b110]);
}

#[test]
fn set_pll() {
    let mut pc = SetPll {
        system_clock_source: SystemClockSource::ReferenceClock,
        enable_pll: false,
    };
    assert_eq!(pc.data(), [0]);
    pc.system_clock_source = SystemClockSource::PllOutput;
    assert_eq!(pc.data(), [0b10]);
    pc.enable_pll = true;
    assert_eq!(pc.data(), [0b11]);
}

#[test]
fn set_pll_mn() {
    let mut pc = SetPllMn {
        pll_multiplier: 0,
        pll_divider: 0,
        use_multiplier_and_divider: false,
    };
    assert_eq!(pc.data(), [0, 0, 0]);
    pc.pll_multiplier = 255;
    assert_eq!(pc.data(), [255, 0, 0]);
    pc.pll_divider = 0b11111;
    assert_eq!(pc.data(), [255, 0b11111, 0]);
    pc.use_multiplier_and_divider = true;
    assert_eq!(pc.data(), [255, 0b11111, 0b100]);
}

#[test]
fn set_post_proc_set_post_proc() {
    let mut pp = SetPostProc {
        contrast: 0,
        brightness: 0,
        saturation: 0,
        enable: false,
    };
    assert_eq!(pp.data(), [0, 0, 0, 0]);
    pp.contrast = 0b11000111;
    assert_eq!(pp.data(), [0b11000111, 0, 0, 0]);
    pp.brightness = 0b11000111;
    assert_eq!(pp.data(), [0b11000111, 0b11000111, 0, 0]);
    pp.saturation = 0b11000111;
    assert_eq!(pp.data(), [0b11000111, 0b11000111, 0b11000111, 0]);
    pp.enable = true;
    assert_eq!(pp.data(), [0b11000111, 0b11000111, 0b11000111, 0b1]);
}

#[test]
fn set_pwm_conf_set_post_proc() {
    let mut pc = SetPwmConf {
        pwm_frequency: 0,
        pwm_duty_cycle: 0,
        pwm_control: ControlledBy::Host,
        pwm_enable: false,
        dbc_manual_brightness: 0,
        dbc_minimum_brightness: 0,
        brightness_prescaler: BrightnessPrescaler::Off,
    };
    assert_eq!(pc.data(), [0, 0, 0, 0, 0, 0]);
    pc.pwm_frequency = 255;
    assert_eq!(pc.data(), [255, 0, 0, 0, 0, 0]);
    pc.pwm_duty_cycle = 255;
    assert_eq!(pc.data(), [255, 255, 0, 0, 0, 0]);
    pc.pwm_control = ControlledBy::Lcdc;
    assert_eq!(pc.data(), [255, 255, 0b1000, 0, 0, 0]);
    pc.pwm_enable = true;
    assert_eq!(pc.data(), [255, 255, 0b1001, 0, 0, 0]);
    pc.dbc_manual_brightness = 255;
    assert_eq!(pc.data(), [255, 255, 0b1001, 255, 0, 0]);
    pc.dbc_minimum_brightness = 255;
    assert_eq!(pc.data(), [255, 255, 0b1001, 255, 255, 0]);
    pc.brightness_prescaler = BrightnessPrescaler::B192;
    assert_eq!(pc.data(), [255, 255, 0b1001, 255, 255, 0b1111]);
}

#[test]
fn set_scroll_area() {
    let mut sa = SetScrollArea {
        top_fixed_area: 0,
        vertical_scroll_area: 0,
        bottom_fixed_area: 0,
    };
    assert_eq!(sa.data(), [0, 0, 0, 0, 0, 0]);
    sa.top_fixed_area = 0b11111111_00000001;
    assert_eq!(sa.data(), [255, 1, 0, 0, 0, 0]);
    sa.vertical_scroll_area = 0b11111111_00000001;
    assert_eq!(sa.data(), [255, 1, 255, 1, 0, 0]);
    sa.bottom_fixed_area = 0b11111111_00000001;
    assert_eq!(sa.data(), [255, 1, 255, 1, 255, 1]);
}

#[test]
fn set_scroll_start() {
    let mut ss = SetScrollStart { source_line: 0 };
    assert_eq!(ss.data(), [0, 0]);
    ss.source_line = 0b11111111_00000001;
    assert_eq!(ss.data(), [255, 1]);
}

#[test]
fn set_vert_period() {
    let mut vp = SetVertPeriod {
        vt: 0,
        vps: 0,
        vpw: 0,
        fps: 0,
    };
    assert_eq!(vp.data(), [0, 0, 0, 0, 0, 0, 0]);
    vp.vt = 0b111_11111111;
    assert_eq!(vp.data(), [0b111, 0b11111111, 0, 0, 0, 0, 0]);
    vp.vps = 0b111_11111111;
    assert_eq!(vp.data(), [0b111, 0b11111111, 0b111, 0b11111111, 0, 0, 0]);
    vp.vpw = 0b1111111;
    assert_eq!(vp.data(), [0b111, 0b11111111, 0b111, 0b11111111, 0b1111111, 0, 0]);
    vp.fps = 0b111_11111111;
    assert_eq!(vp.data(), [0b111, 0b11111111, 0b111, 0b11111111, 0b1111111, 0b111, 0b11111111]);
}

#[test]
fn parameterless_commands() {
    assert_eq!(SoftReset.data(), [0u8; 0]);
    assert_eq!(SoftReset::code(), 0x01);
    assert_eq!(SetDisplayOn::code(), 0x29);
    assert_eq!(WriteMemoryStart::code(), 0x2C);
    assert_eq!(SetAddressMode::code(), 0x36);
    assert_eq!(SetLcdMode::code(), 0xB0);
}
