use crate::bounds::{lemma_new_within_contained, Bound, Bounds};
use crate::chunks::{
    chunk_at, chunk_count, copy_ops, lemma_copy_stopped, reads_fit, rows_per_chunk, shift_by,
    shifted, target_fits, chunk_src,
};
use crate::commands::{self, CommandData, SetColumnAddress, SetPageAddress};
use crate::display::{CopyArea, Display, ReadArea};
use crate::gpio16bit_interface::{
    lemma_partial_more, lemma_ran_then, partial, ran, BusEvent, DelayUs, ReadWriteInterface,
    WriteOnlyInterface,
};
use crate::protocol::{
    command_ops, commits_ops, fill_color_ops, fill_ops, init_ops, lemma_commits_add,
    lemma_reads_append, lemma_reads_step, lemma_stop_in, lemma_words_split, read_ops, reads_ops,
    send_command, window_ops, word_ops, words_ops, write_word,
};
use vstd::prelude::*;

verus! {

/// The extent of a panel.
pub trait Screen {
    spec fn spec_width() -> u16;

    spec fn spec_height() -> u16;

    fn width() -> (r: u16)
        ensures
            r == Self::spec_width(),
            r >= 1,
    ;

    fn height() -> (r: u16)
        ensures
            r == Self::spec_height(),
            r >= 1,
    ;
}

pub struct Lcd800x480;

impl Screen for Lcd800x480 {
    open spec fn spec_width() -> u16 {
        800
    }

    open spec fn spec_height() -> u16 {
        481
    }

    fn width() -> (r: u16) {
        800
    }

    fn height() -> (r: u16) {
        481
    }
}

/// Why a controller operation did not complete.
#[derive(Debug, PartialEq, Eq)]
pub enum DriverError<E> {
    /// A requested or translated rectangle leaves the display; nothing was sent.
    OutOfBounds,
    /// The scratch buffer holds less than one row of the source; nothing was sent.
    BufferTooSmall,
    /// A control line reported an error; the transaction stopped there.
    Bus(E),
}

/// The display as a rectangle.
pub open spec fn display_bounds<Lcd: Screen>() -> Bounds {
    Bounds {
        x_start: 0,
        x_end: (Lcd::spec_width() - 1) as u16,
        y_start: 0,
        y_end: (Lcd::spec_height() - 1) as u16,
    }
}

/// What a copy of `from` by `dx` and `dy` through a buffer of `len` words did to the bus,
/// from `l0` to `l1`, given its result `r`. A destination off the display, then a buffer
/// shorter than a row, are refused before anything is sent. Otherwise, where it succeeded,
/// the bus saw each chunk read and then written back in the order of `copy_ops`; where a line
/// failed, it stopped there.
pub open spec fn copy_result<I: ReadWriteInterface>(
    from: Bounds,
    dx: int,
    dy: int,
    len: int,
    display: Bounds,
    l0: Seq<BusEvent>,
    l1: Seq<BusEvent>,
    r: Result<(), DriverError<I::Error>>,
) -> bool {
    if !target_fits(from, dx, dy, display) {
        r matches Err(DriverError::OutOfBounds) && l1 == l0
    } else if len < from.width_spec() {
        r matches Err(DriverError::BufferTooSmall) && l1 == l0
    } else {
        let k = rows_per_chunk(from.height_spec(), from.width_spec(), len);
        &&& r is Ok ==> exists|reads: Seq<Seq<u16>>|
            {
                &&& reads.len() == chunk_count(from.height_spec(), k)
                &&& reads_fit(from, k, dy, reads)
                &&& l1 == l0 + #[trigger] copy_ops::<I>(from, k, dx, dy, reads)
            }
        &&& r is Err ==> {
            &&& r matches Err(DriverError::Bus(_))
            &&& exists|reads: Seq<Seq<u16>>|
                {
                    &&& reads.len() == chunk_count(from.height_spec(), k)
                    &&& reads_fit(from, k, dy, reads)
                    &&& #[trigger] partial(l0, l1, copy_ops::<I>(from, k, dx, dy, reads))
                }
        }
    }
}

/// A driver for the controller, over a bus, a delay source and a panel extent.
pub struct Ssd1963<Lcd, Delay, Interface> {
    interface: Interface,
    pub delay: Delay,
    lcd: Lcd,
}

impl<Lcd: Screen, Delay: DelayUs, Interface: WriteOnlyInterface> Ssd1963<Lcd, Delay, Interface> {
    /// Brings up the controller: clocks, panel timing, pixel format, then display on.
    #[verifier::rlimit(60)]
    pub fn new(lcd: Lcd, interface: Interface, delay: Delay) -> (r: Result<Self, Interface::Error>)
        requires
            Lcd::spec_width() <= 2048,
            Lcd::spec_height() <= 2048,
        ensures
            r matches Ok(s) ==> s.bus_log() == interface.log() + init_ops::<Interface>(
                Lcd::spec_width(),
                Lcd::spec_height(),
            ),
    {
        let mut interface = interface;
        let mut delay = delay;
        let ghost l0 = interface.log();
        let w = Lcd::width();
        let h = Lcd::height();
        interface.begin_write()?;
        let c1 = commands::SetPllMn { pll_multiplier: 0x1E, pll_divider: 0x02, use_multiplier_and_divider: true };
        send_command(&mut interface, &mut delay, &c1)?;
        let c2 = commands::SetPll {
            system_clock_source: commands::set_pll::SystemClockSource::ReferenceClock,
            enable_pll: true,
        };
        send_command(&mut interface, &mut delay, &c2)?;
        let c3 = commands::SetPll {
            system_clock_source: commands::set_pll::SystemClockSource::PllOutput,
            enable_pll: true,
        };
        send_command(&mut interface, &mut delay, &c3)?;
        send_command(&mut interface, &mut delay, &commands::SoftReset)?;
        delay.delay_us(1);
        let c5 = commands::SetLShiftFreq { lcdc_fpr: 0x3FFFF };
        send_command(&mut interface, &mut delay, &c5)?;
        let c6 = commands::SetLcdMode {
            data_width: commands::set_lcd_mode::TftPanelDataWidth::B24,
            color_depth_enhancement_enable: false,
            frc_enable: false,
            lshift_polarity: commands::set_lcd_mode::Edge::Falling,
            lline_polarity: commands::set_lcd_mode::Active::ActiveLow,
            lframe_polarity: commands::set_lcd_mode::Active::ActiveLow,
            tft_type: commands::set_lcd_mode::TftType::TftMode0,
            hdp: w - 1,
            vdp: h - 1,
            even_line_color_sequence: commands::set_lcd_mode::ColorSequence::Rgb,
            odd_line_color_sequence: commands::set_lcd_mode::ColorSequence::Rgb,
        };
        send_command(&mut interface, &mut delay, &c6)?;
        let c7 = commands::SetHoriPeriod { ht: 928, hps: 46, hpw: 48, lps: 15, lpspp: 0 };
        send_command(&mut interface, &mut delay, &c7)?;
        let c8 = commands::SetVertPeriod { vt: 525, vps: 16, vpw: 16, fps: 8 };
        send_command(&mut interface, &mut delay, &c8)?;
        let c9 = commands::SetAddressMode {
            page_address_order: commands::set_address_mode::PageAddressOrder::TopToBottom,
            column_address_order: commands::set_address_mode::ColumnAddressOrder::LeftToRight,
            page_column_order: commands::set_address_mode::PageColumnOrder::Normal,
            line_address_order: commands::set_address_mode::LineAddressOrder::LcdRefreshTopToBottom,
            color_order: commands::set_address_mode::ColorOrder::Rgb,
            data_latch_order: commands::set_address_mode::DataLatchOrder::LcdRefreshLeftToRight,
            flip_horizontal: false,
            flip_vertical: false,
        };
        send_command(&mut interface, &mut delay, &c9)?;
        let c10 = commands::SetPixelDataInterface {
            pixel_data_interface_format: commands::set_pixel_data_interface::PixelDataInterfaceFormat::B16Format565,
        };
        send_command(&mut interface, &mut delay, &c10)?;
        send_command(&mut interface, &mut delay, &commands::SetDisplayOn)?;
        proof {
            assert(c1.payload() =~= seq![0x1Eu8, 0x02, 0x04]);
            assert(c2.payload() =~= seq![0x01u8]);
            assert(c3.payload() =~= seq![0x03u8]);
            assert(c5.payload() =~= seq![0x03u8, 0xFF, 0xFF]);
            assert(c6.payload() =~= seq![
                0x20u8,
                0x00,
                ((w - 1) / 256) as u8,
                ((w - 1) % 256) as u8,
                ((h - 1) / 256) as u8,
                ((h - 1) % 256) as u8,
                0x00,
            ]);
            assert(c7.payload() =~= seq![0x03u8, 0xA0, 0x00, 0x2E, 0x30, 0x00, 0x0F, 0x00]);
            assert(c8.payload() =~= seq![0x02u8, 0x0D, 0x00, 0x10, 0x10, 0x00, 0x08]);
            assert(c9.payload() =~= seq![0x00u8]);
            assert(c10.payload() =~= seq![0x03u8]);
            assert(interface.log() =~= l0 + init_ops::<Interface>(w, h));
        }
        Ok(Self { interface, delay, lcd })
    }

    /// The operations issued on the bus so far.
    pub closed spec fn bus_log(&self) -> Seq<BusEvent> {
        self.interface.log()
    }

    pub fn release(self) -> (r: (Interface, Delay))
        ensures
            r.0.log() == self.bus_log(),
    {
        (self.interface, self.delay)
    }

    pub fn width(&self) -> (r: u16)
        ensures
            r == Lcd::spec_width(),
    {
        Lcd::width()
    }

    pub fn height(&self) -> (r: u16)
        ensures
            r == Lcd::spec_height(),
    {
        Lcd::height()
    }

    fn display_size(&self) -> (r: Bounds)
        ensures
            r == display_bounds::<Lcd>(),
            r.sized(),
    {
        let width = Lcd::width();
        let height = Lcd::height();
        Bounds { x_start: 0, x_end: width - 1, y_start: 0, y_end: height - 1 }
    }

    /// Programs the address window to `bounds`.
    fn set_area_bounds(&mut self, bounds: &Bounds) -> (r: Result<(), Interface::Error>)
        ensures
            ran(old(self).bus_log(), final(self).bus_log(), window_ops::<Interface>(*bounds), r is Ok),
    {
        let ghost l0 = self.interface.log();
        let ghost bw = Interface::begin_write_ops();
        let ghost c1 = command_ops(0x2A, SetColumnAddress { start: bounds.x_start, end: bounds.x_end }.payload());
        let ghost c2 = command_ops(0x2B, SetPageAddress { start: bounds.y_start, end: bounds.y_end }.payload());
        let ghost total = window_ops::<Interface>(*bounds);
        let r = self.interface.begin_write();
        if r.is_err() {
            proof {
                assert(l0 =~= l0 + Seq::<BusEvent>::empty());
                assert(total.take(bw.len() as int) =~= Seq::<BusEvent>::empty() + bw);
                lemma_stop_in(l0, l0, self.interface.log(), Seq::empty(), bw, total);
            }
            return r;
        }
        let ghost l1 = self.interface.log();
        let r = send_command(&mut self.interface, &mut self.delay, &SetColumnAddress { start: bounds.x_start, end: bounds.x_end });
        if r.is_err() {
            proof {
                assert(total.take(bw.len() + c1.len() as int) =~= bw + c1);
                lemma_stop_in(l0, l1, self.interface.log(), bw, c1, total);
            }
            return r;
        }
        let ghost l2 = self.interface.log();
        let r = send_command(&mut self.interface, &mut self.delay, &SetPageAddress { start: bounds.y_start, end: bounds.y_end });
        proof {
            assert(l2 =~= l0 + (bw + c1));
            lemma_ran_then(l0, l2, self.interface.log(), bw + c1, c2, r is Ok);
        }
        r
    }

    /// Resolves the requested ranges against the display and programs the window to them.
    fn set_area(&mut self, x: (Bound, Bound), y: (Bound, Bound)) -> (r: Result<Bounds, DriverError<Interface::Error>>)
        ensures
            Bounds::resolved(x, y, display_bounds::<Lcd>()) matches Some(b) ==> {
                &&& ran(old(self).bus_log(), final(self).bus_log(), window_ops::<Interface>(b), r is Ok)
                &&& r is Ok ==> r == Ok::<Bounds, DriverError<Interface::Error>>(b)
                &&& r is Err ==> r matches Err(DriverError::Bus(_))
            },
            Bounds::resolved(x, y, display_bounds::<Lcd>()) is None ==> {
                &&& r matches Err(DriverError::OutOfBounds)
                &&& final(self).bus_log() == old(self).bus_log()
            },
    {
        let display = self.display_size();
        let bounds = match Bounds::new_within(x, y, &display) {
            Ok(b) => b,
            Err(_) => return Err(DriverError::OutOfBounds),
        };
        match self.set_area_bounds(&bounds) {
            Ok(()) => Ok(bounds),
            Err(e) => Err(DriverError::Bus(e)),
        }
    }

    /// Programs the window to `bounds` and writes the first `area()` values of `colors` into
    /// it, or all of them where there are fewer.
    fn fill_area_bounds(&mut self, bounds: &Bounds, colors: &[u16]) -> (r: Result<(), Interface::Error>)
        requires
            bounds.sized(),
        ensures
            ran(
                old(self).bus_log(),
                final(self).bus_log(),
                fill_ops::<Interface>(
                    *bounds,
                    colors@.take(
                        if colors@.len() < bounds.area_spec() {
                            colors@.len() as int
                        } else {
                            bounds.area_spec()
                        },
                    ),
                ),
                r is Ok,
            ),
    {
        let ghost l0 = self.interface.log();
        let area = bounds.area();
        let n: usize = if (colors.len() as u64) < (area as u64) {
            colors.len()
        } else {
            area as usize
        };
        let ghost vs = colors@.take(n as int);
        let ghost w = window_ops::<Interface>(*bounds);
        let ghost bw = Interface::begin_write_ops();
        let ghost cw = command_ops(0x2C, Seq::empty());
        let ghost pre = w + bw + cw + seq![BusEvent::DataSelect];
        let ghost total = fill_ops::<Interface>(*bounds, vs);
        assert(total == pre + words_ops(vs));
        let r = self.set_area_bounds(bounds);
        if r.is_err() {
            proof {
                assert(l0 =~= l0 + Seq::<BusEvent>::empty());
                assert(total.take(w.len() as int) =~= Seq::<BusEvent>::empty() + w);
                lemma_stop_in(l0, l0, self.interface.log(), Seq::empty(), w, total);
            }
            return r;
        }
        let ghost l1 = self.interface.log();
        let r = self.interface.begin_write();
        if r.is_err() {
            proof {
                assert(total.take(w.len() + bw.len() as int) =~= w + bw);
                lemma_stop_in(l0, l1, self.interface.log(), w, bw, total);
            }
            return r;
        }
        let ghost l2 = self.interface.log();
        let r = send_command(&mut self.interface, &mut self.delay, &commands::WriteMemoryStart);
        if r.is_err() {
            proof {
                assert(l2 =~= l0 + (w + bw));
                assert(total.take(w.len() + bw.len() + cw.len() as int) =~= w + bw + cw);
                lemma_stop_in(l0, l2, self.interface.log(), w + bw, cw, total);
            }
            return r;
        }
        let ghost l3 = self.interface.log();
        let r = self.interface.data();
        if r.is_err() {
            proof {
                assert(l3 =~= l0 + (w + bw + cw));
                assert(total.take(pre.len() as int) =~= w + bw + cw + seq![BusEvent::DataSelect]);
                lemma_stop_in(l0, l3, self.interface.log(), w + bw + cw, seq![BusEvent::DataSelect], total);
            }
            return r;
        }
        assert(self.interface.log() =~= l0 + pre + words_ops(vs.take(0)));
        let mut i: usize = 0;
        while i < n
            invariant
                0 <= i <= n,
                n <= colors@.len(),
                vs == colors@.take(n as int),
                n == (if colors@.len() < bounds.area_spec() {
                    colors@.len() as int
                } else {
                    bounds.area_spec()
                }),
                total == pre + words_ops(vs),
                total == fill_ops::<Interface>(*bounds, vs),
                l0 == old(self).bus_log(),
                self.interface.log() == l0 + pre + words_ops(vs.take(i as int)),
            decreases n - i,
        {
            let ghost li = self.interface.log();
            let r = write_word(&mut self.interface, &mut self.delay, colors[i], false);
            proof {
                lemma_words_split(vs, i as int);
                assert(vs[i as int] == colors@[i as int]);
            }
            if r.is_err() {
                proof {
                    let done = pre + words_ops(vs.take(i as int));
                    assert(li =~= l0 + done);
                    assert(total.take(done.len() + 3int) =~= done + word_ops(vs[i as int]));
                    lemma_stop_in(l0, li, self.interface.log(), done, word_ops(vs[i as int]), total);
                }
                return r;
            }
            i += 1;
        }
        assert(vs.take(n as int) =~= vs);
        assert(self.interface.log() =~= l0 + total);
        Ok(())
    }

    /// Writes `colors` into the rectangle that `x` and `y` select.
    pub fn fill_area(&mut self, x: (Bound, Bound), y: (Bound, Bound), colors: &[u16]) -> (r: Result<(), DriverError<Interface::Error>>)
        ensures
            Bounds::resolved(x, y, display_bounds::<Lcd>()) matches Some(b) ==> {
                &&& ran(
                    old(self).bus_log(),
                    final(self).bus_log(),
                    fill_ops::<Interface>(
                        b,
                        colors@.take(
                            if colors@.len() < b.area_spec() {
                                colors@.len() as int
                            } else {
                                b.area_spec()
                            },
                        ),
                    ),
                    r is Ok,
                )
                &&& r is Err ==> r matches Err(DriverError::Bus(_))
            },
            Bounds::resolved(x, y, display_bounds::<Lcd>()) is None ==> {
                &&& r matches Err(DriverError::OutOfBounds)
                &&& final(self).bus_log() == old(self).bus_log()
            },
    {
        let display = self.display_size();
        let bounds = match Bounds::new_within(x, y, &display) {
            Ok(b) => b,
            Err(_) => return Err(DriverError::OutOfBounds),
        };
        proof {
            lemma_new_within_contained(x, y, display);
        }
        match self.fill_area_bounds(&bounds, colors) {
            Ok(()) => Ok(()),
            Err(e) => Err(DriverError::Bus(e)),
        }
    }

    /// Latches `color` into every pixel of the rectangle that `x` and `y` select.
    pub fn fill_area_color(&mut self, x: (Bound, Bound), y: (Bound, Bound), color: u16) -> (r: Result<(), DriverError<Interface::Error>>)
        ensures
            Bounds::resolved(x, y, display_bounds::<Lcd>()) matches Some(b) ==> {
                &&& ran(old(self).bus_log(), final(self).bus_log(), fill_color_ops::<Interface>(b, color), r is Ok)
                &&& r is Err ==> r matches Err(DriverError::Bus(_))
            },
            Bounds::resolved(x, y, display_bounds::<Lcd>()) is None ==> {
                &&& r matches Err(DriverError::OutOfBounds)
                &&& final(self).bus_log() == old(self).bus_log()
            },
    {
        let ghost l0 = self.interface.log();
        let display = self.display_size();
        proof {
            lemma_new_within_contained(x, y, display);
        }
        let bounds = match self.set_area(x, y) {
            Ok(b) => b,
            Err(e) => {
                proof {
                    if let Some(b) = Bounds::resolved(x, y, display) {
                        let w = window_ops::<Interface>(b);
                        let total = fill_color_ops::<Interface>(b, color);
                        lemma_partial_more(l0, self.interface.log(), w, total.skip(w.len() as int));
                        assert(w + total.skip(w.len() as int) =~= total);
                    }
                }
                return Err(e);
            },
        };
        let ghost w = window_ops::<Interface>(bounds);
        let ghost bw = Interface::begin_write_ops();
        let ghost cw = command_ops(0x2C, Seq::empty());
        let ghost pre = w + bw + cw + seq![BusEvent::DataSelect, BusEvent::Put(color)];
        let ghost total = fill_color_ops::<Interface>(bounds, color);
        let area = bounds.area();
        assert(total == pre + commits_ops(area as nat));
        let ghost l1 = self.interface.log();
        let r = self.interface.begin_write();
        if r.is_err() {
            proof {
                assert(total.take(w.len() + bw.len() as int) =~= w + bw);
                lemma_stop_in(l0, l1, self.interface.log(), w, bw, total);
            }
            return Err(DriverError::Bus(r.unwrap_err()));
        }
        let ghost l2 = self.interface.log();
        let r = send_command(&mut self.interface, &mut self.delay, &commands::WriteMemoryStart);
        if r.is_err() {
            proof {
                assert(l2 =~= l0 + (w + bw));
                assert(total.take(w.len() + bw.len() + cw.len() as int) =~= w + bw + cw);
                lemma_stop_in(l0, l2, self.interface.log(), w + bw, cw, total);
            }
            return Err(DriverError::Bus(r.unwrap_err()));
        }
        let ghost l3 = self.interface.log();
        let r = self.interface.data();
        if r.is_err() {
            proof {
                assert(l3 =~= l0 + (w + bw + cw));
                assert(total.take(w.len() + bw.len() + cw.len() + 1 as int) =~= w + bw + cw + seq![BusEvent::DataSelect]);
                lemma_stop_in(l0, l3, self.interface.log(), w + bw + cw, seq![BusEvent::DataSelect], total);
            }
            return Err(DriverError::Bus(r.unwrap_err()));
        }
        self.interface.set_value(color);
        assert(self.interface.log() =~= l0 + pre + commits_ops(0));
        let mut i: u32 = 0;
        while i < area
            invariant
                0 <= i <= area,
                total == pre + commits_ops(area as nat),
                total == fill_color_ops::<Interface>(bounds, color),
                Bounds::resolved(x, y, display_bounds::<Lcd>()) == Some(bounds),
                l0 == old(self).bus_log(),
                self.interface.log() == l0 + pre + commits_ops(i as nat),
            decreases area - i,
        {
            let ghost li = self.interface.log();
            let r = self.interface.commit();
            proof {
                lemma_commits_add(i as nat, 1);
                lemma_commits_add((i + 1) as nat, (area - i - 1) as nat);
                assert(commits_ops(1) =~= seq![BusEvent::WriteLow, BusEvent::WriteHigh]);
            }
            if r.is_err() {
                proof {
                    let done = pre + commits_ops(i as nat);
                    assert(li =~= l0 + done);
                    assert(total.take(done.len() + 2int) =~= done + seq![BusEvent::WriteLow, BusEvent::WriteHigh]);
                    lemma_stop_in(l0, li, self.interface.log(), done, seq![BusEvent::WriteLow, BusEvent::WriteHigh], total);
                }
                return Err(DriverError::Bus(r.unwrap_err()));
            }
            i += 1;
        }
        assert(self.interface.log() =~= l0 + total);
        Ok(())
    }

    /// Latches `color` into every pixel of the display.
    pub fn clear_screen(&mut self, color: u16) -> (r: Result<(), DriverError<Interface::Error>>)
        ensures
            ran(old(self).bus_log(), final(self).bus_log(), fill_color_ops::<Interface>(display_bounds::<Lcd>(), color), r is Ok),
            r is Err ==> r matches Err(DriverError::Bus(_)),
    {
        let all = (Bound::Unbounded, Bound::Unbounded);
        assert(Bounds::resolved(all, all, display_bounds::<Lcd>()) == Some(display_bounds::<Lcd>()));
        self.fill_area_color(all, all, color)
    }
}

impl<Lcd: Screen, Delay: DelayUs, Interface: ReadWriteInterface> Ssd1963<Lcd, Delay, Interface> {
    /// Programs the window to `bounds` and reads its pixels into the front of `buffer`.
    fn read_area_bounds(&mut self, bounds: &Bounds, buffer: &mut Vec<u16>) -> (r: Result<(), Interface::Error>)
        requires
            bounds.sized(),
            old(buffer)@.len() >= bounds.area_spec(),
        ensures
            final(buffer)@.len() == old(buffer)@.len(),
            r is Ok ==> final(self).bus_log() == old(self).bus_log() + read_ops::<Interface>(
                *bounds,
                final(buffer)@.take(bounds.area_spec()),
            ),
            r is Err ==> exists|vs: Seq<u16>|
                vs.len() == bounds.area_spec() && #[trigger] partial(
                    old(self).bus_log(),
                    final(self).bus_log(),
                    read_ops::<Interface>(*bounds, vs),
                ),
    {
        let ghost l0 = self.interface.log();
        let ghost w = window_ops::<Interface>(*bounds);
        let ghost bw = Interface::begin_write_ops();
        let ghost cr = command_ops(0x2E, Seq::empty());
        let ghost br = Interface::begin_read_ops();
        let ghost pre = w + bw + cr + br + seq![BusEvent::DataSelect];
        let area = bounds.area();
        let ghost vs0 = buffer@.take(area as int);
        let ghost total0 = read_ops::<Interface>(*bounds, vs0);
        assert(total0 == pre + reads_ops(vs0));
        let r = self.set_area_bounds(bounds);
        if r.is_err() {
            proof {
                assert(l0 =~= l0 + Seq::<BusEvent>::empty());
                assert(total0.take(w.len() as int) =~= Seq::<BusEvent>::empty() + w);
                lemma_stop_in(l0, l0, self.interface.log(), Seq::empty(), w, total0);
                assert(partial(l0, self.bus_log(), read_ops::<Interface>(*bounds, vs0)));
                assert(partial(l0, self.bus_log(), read_ops::<Interface>(*bounds, vs0)));
            }
            return r;
        }
        let ghost l1 = self.interface.log();
        let r = self.interface.begin_write();
        if r.is_err() {
            proof {
                assert(total0.take(w.len() + bw.len() as int) =~= w + bw);
                lemma_stop_in(l0, l1, self.interface.log(), w, bw, total0);
                assert(partial(l0, self.bus_log(), read_ops::<Interface>(*bounds, vs0)));
            }
            return r;
        }
        let ghost l2 = self.interface.log();
        let r = send_command(&mut self.interface, &mut self.delay, &commands::ReadMemoryStart);
        if r.is_err() {
            proof {
                assert(l2 =~= l0 + (w + bw));
                assert(total0.take(w.len() + bw.len() + cr.len() as int) =~= w + bw + cr);
                lemma_stop_in(l0, l2, self.interface.log(), w + bw, cr, total0);
                assert(partial(l0, self.bus_log(), read_ops::<Interface>(*bounds, vs0)));
            }
            return r;
        }
        let ghost l3 = self.interface.log();
        let r = self.interface.begin_read();
        if r.is_err() {
            proof {
                assert(l3 =~= l0 + (w + bw + cr));
                assert(total0.take(w.len() + bw.len() + cr.len() + br.len() as int) =~= w + bw + cr + br);
                lemma_stop_in(l0, l3, self.interface.log(), w + bw + cr, br, total0);
                assert(partial(l0, self.bus_log(), read_ops::<Interface>(*bounds, vs0)));
            }
            return r;
        }
        let ghost l4 = self.interface.log();
        let r = self.interface.data();
        if r.is_err() {
            proof {
                assert(l4 =~= l0 + (w + bw + cr + br));
                assert(total0.take(pre.len() as int) =~= w + bw + cr + br + seq![BusEvent::DataSelect]);
                lemma_stop_in(l0, l4, self.interface.log(), w + bw + cr + br, seq![BusEvent::DataSelect], total0);
                assert(partial(l0, self.bus_log(), read_ops::<Interface>(*bounds, vs0)));
            }
            return r;
        }
        assert(self.interface.log() =~= l0 + pre + reads_ops(buffer@.take(0)));
        let mut i: u32 = 0;
        while i < area
            invariant
                0 <= i <= area,
                area == bounds.area_spec(),
                buffer@.len() == old(buffer)@.len(),
                old(buffer)@.len() >= area,
                pre == w + bw + cr + br + seq![BusEvent::DataSelect],
                w == window_ops::<Interface>(*bounds),
                bw == Interface::begin_write_ops(),
                cr == command_ops(0x2E, Seq::empty()),
                br == Interface::begin_read_ops(),
                l0 == old(self).bus_log(),
                self.interface.log() == l0 + pre + reads_ops(buffer@.take(i as int)),
            decreases area - i,
        {
            let ghost li = self.interface.log();
            let r = self.interface.get_value();
            match r {
                Ok(v) => {
                    let ghost before = buffer@;
                    assert(self.interface.log() == li + seq![BusEvent::Get(v), BusEvent::ReadHigh]);
                    buffer.set(i as usize, v);
                    proof {
                        assert(buffer@.take(i as int) =~= before.take(i as int));
                        lemma_reads_step(buffer@, i as int);
                        assert(self.interface.log() =~= l0 + pre + reads_ops(buffer@.take(i + 1)));
                    }
                },
                Err(e) => {
                    proof {
                        let v = choose|v: u16| self.interface.log() == li + seq![BusEvent::Get(v), BusEvent::ReadHigh, BusEvent::Fault];
                        let head = buffer@.take(i as int).push(v);
                        let rest = buffer@.subrange(i + 1, area as int);
                        let vs = head + rest;
                        assert(head.drop_last() =~= buffer@.take(i as int));
                        lemma_reads_append(head, rest);
                        let step = seq![BusEvent::Get(v), BusEvent::ReadHigh];
                        let done = pre + reads_ops(buffer@.take(i as int));
                        let total = read_ops::<Interface>(*bounds, vs);
                        assert(total =~= done + step + reads_ops(rest));
                        assert(li =~= l0 + done);
                        assert(self.interface.log().drop_last() =~= li + step.take(2));
                        assert(total.take(done.len() + step.len() as int) =~= done + step);
                        lemma_stop_in(l0, li, self.interface.log(), done, step, total);
                        assert(vs.len() == bounds.area_spec());
                        assert(partial(l0, self.bus_log(), read_ops::<Interface>(*bounds, vs)));
                    }
                    return Err(e);
                },
            }
            i += 1;
        }
        proof {
            assert(self.interface.log() =~= l0 + read_ops::<Interface>(*bounds, buffer@.take(area as int)));
        }
        Ok(())
    }

    /// Moves the pixels of `from` by `horiz_by` columns and `vert_by` rows, a chunk of whole
    /// rows at a time through `buffer`, in the order that keeps overlapping rows intact.
    fn copy_area_bounds(&mut self, from: &Bounds, horiz_by: i16, vert_by: i16, buffer: &mut Vec<u16>) -> (r: Result<(), DriverError<Interface::Error>>)
        requires
            from.sized(),
            from.within(display_bounds::<Lcd>()),
        ensures
            final(buffer)@.len() == old(buffer)@.len(),
            copy_result::<Interface>(
                *from,
                horiz_by as int,
                vert_by as int,
                old(buffer)@.len() as int,
                display_bounds::<Lcd>(),
                old(self).bus_log(),
                final(self).bus_log(),
                r,
            ),
    {
        let ghost l0 = self.interface.log();
        let display = self.display_size();
        let tx_start = from.x_start as i32 + horiz_by as i32;
        let tx_end = from.x_end as i32 + horiz_by as i32;
        let ty_start = from.y_start as i32 + vert_by as i32;
        let ty_end = from.y_end as i32 + vert_by as i32;
        if tx_start < 0 || tx_end > display.x_end as i32 || ty_start < 0 || ty_end > display.y_end as i32 {
            return Err(DriverError::OutOfBounds);
        }
        let width = from.width() as usize;
        let height = from.height() as usize;
        let len = buffer.len();
        if len < width {
            return Err(DriverError::BufferTooSmall);
        }
        proof {
            vstd::arithmetic::div_mod::lemma_fundamental_div_mod(len as int, width as int);
            vstd::arithmetic::div_mod::lemma_mod_pos_bound(len as int, width as int);
            assert(len / width >= 1) by (nonlinear_arith)
                requires
                    len >= width,
                    width >= 1,
                    len == width * (len / width) + len % width,
                    len % width < width,
            ;
        }
        let per = len / width;
        let k: usize = if height <= per {
            height
        } else {
            per
        };
        let full = height / k;
        let rem = height % k;
        let count: usize = if rem > 0 {
            full + 1
        } else {
            full
        };
        proof {
            vstd::arithmetic::div_mod::lemma_fundamental_div_mod(height as int, k as int);
            vstd::arithmetic::div_mod::lemma_mod_pos_bound(height as int, k as int);
            assert(k * width <= per * width) by (nonlinear_arith)
                requires
                    k <= per,
            ;
            assert(per * width == width * per) by (nonlinear_arith);
        }
        let ghost dx = horiz_by as int;
        let ghost dy = vert_by as int;
        let ghost mut reads: Seq<Seq<u16>> = Seq::empty();
        assert(self.interface.log() =~= l0 + copy_ops::<Interface>(*from, k as int, dx, dy, reads));
        let mut i: usize = 0;
        while i < count
            invariant
                0 <= i <= count,
                from.sized(),
                from.within(display_bounds::<Lcd>()),
                display == display_bounds::<Lcd>(),
                target_fits(*from, dx, dy, display),
                dx == horiz_by as int,
                dy == vert_by as int,
                width == from.width_spec(),
                height == from.height_spec(),
                len == buffer@.len(),
                len == old(buffer)@.len(),
                len >= width,
                tx_start == from.x_start + dx,
                tx_end == from.x_end + dx,
                1 <= k <= height,
                k == rows_per_chunk(height as int, width as int, len as int),
                k * width <= len,
                full == height / k,
                rem == height % k,
                rem < k,
                height == k * full + rem,
                count == chunk_count(height as int, k as int),
                reads.len() == i,
                reads_fit(*from, k as int, dy, reads),
                l0 == old(self).bus_log(),
                self.interface.log() == l0 + copy_ops::<Interface>(*from, k as int, dx, dy, reads),
            decreases count - i,
        {
            let src = chunk_at(from, k, i, vert_by);
            let dst = shift_by(&src, horiz_by, vert_by, &display);
            proof {
                let n = src.height_spec();
                assert(src.area_spec() <= k * width) by (nonlinear_arith)
                    requires
                        src.width_spec() == width,
                        1 <= n <= k,
                        src.area_spec() == src.width_spec() * n,
                ;
            }
            let ghost li = self.interface.log();
            match self.read_area_bounds(&src, buffer) {
                Ok(()) => {},
                Err(e) => {
                    proof {
                        let vw = choose|vs: Seq<u16>|
                            vs.len() == src.area_spec() && #[trigger] partial(li, self.interface.log(), read_ops::<Interface>(src, vs));
                        let step = read_ops::<Interface>(src, vw);
                        let chunk = step + fill_ops::<Interface>(dst, vw);
                        assert(li =~= l0 + copy_ops::<Interface>(*from, k as int, dx, dy, reads) + Seq::<BusEvent>::empty());
                        assert(chunk.take(0 + step.len() as int) =~= Seq::<BusEvent>::empty() + step);
                        lemma_copy_stopped::<Interface>(*from, k as int, dx, dy, reads, vw, l0, li, self.interface.log(), Seq::empty(), step);
                    }
                    return Err(DriverError::Bus(e));
                },
            }
            let ghost vs = buffer@.take(src.area_spec());
            let ghost lr = self.interface.log();
            match self.fill_area_bounds(&dst, buffer.as_slice()) {
                Ok(()) => {},
                Err(e) => {
                    proof {
                        let done = read_ops::<Interface>(src, vs);
                        let step = fill_ops::<Interface>(dst, vs);
                        assert((done + step).take(done.len() + step.len() as int) =~= done + step);
                        lemma_copy_stopped::<Interface>(*from, k as int, dx, dy, reads, vs, l0, lr, self.interface.log(), done, step);
                    }
                    return Err(DriverError::Bus(e));
                },
            }
            proof {
                let next = reads.push(vs);
                assert(next.drop_last() =~= reads);
                assert(self.interface.log() =~= l0 + copy_ops::<Interface>(*from, k as int, dx, dy, next));
                assert forall|j: int| 0 <= j < next.len() implies #[trigger] next[j].len() == chunk_src(*from, k as int, dy, j).area_spec() by {
                    if j < reads.len() {
                        assert(next[j] == reads[j]);
                    }
                }
                reads = next;
            }
            i += 1;
        }
        assert(reads.len() == chunk_count(from.height_spec(), k as int));
        Ok(())
    }

    /// Moves the pixels of the rectangle that `x` and `y` select by `horiz_by` columns and
    /// `vert_by` rows, through `buffer`.
    pub fn copy_area(
        &mut self,
        x: (Bound, Bound),
        y: (Bound, Bound),
        horiz_by: i16,
        vert_by: i16,
        buffer: &mut Vec<u16>,
    ) -> (r: Result<(), DriverError<Interface::Error>>)
        ensures
            final(buffer)@.len() == old(buffer)@.len(),
            Bounds::resolved(x, y, display_bounds::<Lcd>()) matches Some(b) ==> copy_result::<
                Interface,
            >(
                b,
                horiz_by as int,
                vert_by as int,
                old(buffer)@.len() as int,
                display_bounds::<Lcd>(),
                old(self).bus_log(),
                final(self).bus_log(),
                r,
            ),
            Bounds::resolved(x, y, display_bounds::<Lcd>()) is None ==> {
                &&& r matches Err(DriverError::OutOfBounds)
                &&& final(self).bus_log() == old(self).bus_log()
            },
    {
        let display = self.display_size();
        let bounds = match Bounds::new_within(x, y, &display) {
            Ok(b) => b,
            Err(_) => return Err(DriverError::OutOfBounds),
        };
        proof {
            lemma_new_within_contained(x, y, display);
        }
        self.copy_area_bounds(&bounds, horiz_by, vert_by, buffer)
    }

    /// Reads the pixels of the rectangle that `x` and `y` select into the front of `buffer`.
    pub fn read_area(&mut self, x: (Bound, Bound), y: (Bound, Bound), buffer: &mut Vec<u16>) -> (r: Result<(), DriverError<Interface::Error>>)
        ensures
            final(buffer)@.len() == old(buffer)@.len(),
            Bounds::resolved(x, y, display_bounds::<Lcd>()) matches Some(b) ==> {
                &&& old(buffer)@.len() < b.area_spec() ==> {
                    &&& r matches Err(DriverError::BufferTooSmall)
                    &&& final(self).bus_log() == old(self).bus_log()
                }
                &&& old(buffer)@.len() >= b.area_spec() ==> {
                    &&& r is Ok ==> final(self).bus_log() == old(self).bus_log() + read_ops::<Interface>(
                        b,
                        final(buffer)@.take(b.area_spec()),
                    )
                    &&& r is Err ==> {
                        &&& r matches Err(DriverError::Bus(_))
                        &&& exists|vs: Seq<u16>|
                            vs.len() == b.area_spec() && #[trigger] partial(
                                old(self).bus_log(),
                                final(self).bus_log(),
                                read_ops::<Interface>(b, vs),
                            )
                    }
                }
            },
            Bounds::resolved(x, y, display_bounds::<Lcd>()) is None ==> {
                &&& r matches Err(DriverError::OutOfBounds)
                &&& final(self).bus_log() == old(self).bus_log()
            },
    {
        let display = self.display_size();
        let bounds = match Bounds::new_within(x, y, &display) {
            Ok(b) => b,
            Err(_) => return Err(DriverError::OutOfBounds),
        };
        proof {
            lemma_new_within_contained(x, y, display);
        }
        if (buffer.len() as u64) < (bounds.area() as u64) {
            return Err(DriverError::BufferTooSmall);
        }
        match self.read_area_bounds(&bounds, buffer) {
            Ok(()) => Ok(()),
            Err(e) => Err(DriverError::Bus(e)),
        }
    }
}

impl<Lcd: Screen, Delay: DelayUs, Interface: ReadWriteInterface> Display for Ssd1963<
    Lcd,
    Delay,
    Interface,
> {
    type Color = u16;

    type Error = DriverError<Interface::Error>;

    fn fill_area(&mut self, x: (Bound, Bound), y: (Bound, Bound), colors: &[u16]) -> Result<
        (),
        DriverError<Interface::Error>,
    > {
        Ssd1963::fill_area(self, x, y, colors)
    }
}

impl<Lcd: Screen, Delay: DelayUs, Interface: ReadWriteInterface> ReadArea for Ssd1963<
    Lcd,
    Delay,
    Interface,
> {
    fn read_area(&mut self, x: (Bound, Bound), y: (Bound, Bound), buffer: &mut Vec<u16>) -> Result<
        (),
        DriverError<Interface::Error>,
    > {
        Ssd1963::read_area(self, x, y, buffer)
    }
}

impl<Lcd: Screen, Delay: DelayUs, Interface: ReadWriteInterface> CopyArea for Ssd1963<
    Lcd,
    Delay,
    Interface,
> {
    fn copy_area(
        &mut self,
        x: (Bound, Bound),
        y: (Bound, Bound),
        horiz_by: i16,
        vert_by: i16,
        buffer: &mut Vec<u16>,
    ) -> Result<(), DriverError<Interface::Error>> {
        Ssd1963::copy_area(self, x, y, horiz_by, vert_by, buffer)
    }
}

} // verus!
