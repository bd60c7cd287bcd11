use std::cell::RefCell;
use std::rc::Rc;

use ssd1963::{
    Bound, ControlLine, CopyArea, DelayUs, Display, DriverError, GpioReadWrite16BitInterface,
    GpioWriteOnly16BitInterface, Lcd800x480, ReadArea, ReadWritePort, Ssd1963, WritePort,
};

const W: usize = 800;
const H: usize = 481;

#[derive(Debug, Clone, Copy, PartialEq)]
enum Seen {
    Command(u8),
    Param(u8),
    Wrote(u16, u16),
    Read(u16, u16),
}

#[derive(PartialEq)]
enum Mode {
    Idle,
    Writing,
    Reading,
}

/// A model of the controller's frame memory, driven through the bus lines.
struct Chip {
    mem: Vec<u16>,
    port: u16,
    dc_high: bool,
    wr_low: bool,
    command: u8,
    params: Vec<u8>,
    col: (u16, u16),
    page: (u16, u16),
    cursor: (u16, u16),
    mode: Mode,
    line_ops: usize,
    fail_after: Option<usize>,
    seen: Vec<Seen>,
}

impl Chip {
    fn new() -> Self {
        Chip {
            mem: vec![0; W * H],
            port: 0,
            dc_high: false,
            wr_low: false,
            command: 0,
            params: Vec::new(),
            col: (0, 0),
            page: (0, 0),
            cursor: (0, 0),
            mode: Mode::Idle,
            line_ops: 0,
            fail_after: None,
            seen: Vec::new(),
        }
    }

    fn line_op(&mut self) -> Result<(), ()> {
        self.line_ops += 1;
        match self.fail_after {
            Some(n) if self.line_ops > n => Err(()),
            _ => Ok(()),
        }
    }

    fn advance(&mut self) {
        self.cursor.0 += 1;
        if self.cursor.0 > self.col.1 {
            self.cursor.0 = self.col.0;
            self.cursor.1 += 1;
            if self.cursor.1 > self.page.1 {
                self.cursor.1 = self.page.0;
            }
        }
    }

    fn latch(&mut self) {
        if !self.dc_high {
            self.command = self.port as u8;
            self.params.clear();
            self.seen.push(Seen::Command(self.command));
            self.cursor = (self.col.0, self.page.0);
            self.mode = match self.command {
                0x2C => Mode::Writing,
                0x2E => Mode::Reading,
                _ => Mode::Idle,
            };
            return;
        }
        if self.mode == Mode::Writing {
            let (x, y) = self.cursor;
            self.mem[y as usize * W + x as usize] = self.port;
            self.seen.push(Seen::Wrote(x, y));
            self.advance();
            return;
        }
        let b = self.port as u8;
        self.params.push(b);
        self.seen.push(Seen::Param(b));
        if self.params.len() == 4 {
            let start = (self.params[0] as u16) << 8 | self.params[1] as u16;
            let end = (self.params[2] as u16) << 8 | self.params[3] as u16;
            match self.command {
                0x2A => self.col = (start, end),
                0x2B => self.page = (start, end),
                _ => {}
            }
        }
    }

    fn commands(&self) -> Vec<(u8, Vec<u8>)> {
        let mut out: Vec<(u8, Vec<u8>)> = Vec::new();
        for s in self.seen.iter() {
            match s {
                Seen::Command(c) => out.push((*c, Vec::new())),
                Seen::Param(p) => out.last_mut().unwrap().1.push(*p),
                _ => {}
            }
        }
        out
    }
}

type Shared = Rc<RefCell<Chip>>;

struct Port(Shared);
struct Dc(Shared);
struct Wr(Shared);
struct Rd(Shared);
struct NoDelay(usize);

impl WritePort for Port {
    fn set_value(&mut self, value: u16) {
        self.0.borrow_mut().port = value;
    }
    fn dir_write(&mut self) {}
}

impl ReadWritePort for Port {
    fn get_value(&mut self) -> u16 {
        let mut c = self.0.borrow_mut();
        let (x, y) = c.cursor;
        let v = c.mem[y as usize * W + x as usize];
        c.seen.push(Seen::Read(x, y));
        c.advance();
        v
    }
    fn dir_read(&mut self) {}
}

impl ControlLine for Dc {
    type Error = ();
    fn set_low(&mut self) -> Result<(), ()> {
        let mut c = self.0.borrow_mut();
        c.line_op()?;
        c.dc_high = false;
        Ok(())
    }
    fn set_high(&mut self) -> Result<(), ()> {
        let mut c = self.0.borrow_mut();
        c.line_op()?;
        c.dc_high = true;
        Ok(())
    }
}

impl ControlLine for Wr {
    type Error = ();
    fn set_low(&mut self) -> Result<(), ()> {
        let mut c = self.0.borrow_mut();
        c.line_op()?;
        c.wr_low = true;
        Ok(())
    }
    fn set_high(&mut self) -> Result<(), ()> {
        let mut c = self.0.borrow_mut();
        c.line_op()?;
        if c.wr_low {
            c.latch();
        }
        c.wr_low = false;
        Ok(())
    }
}

impl ControlLine for Rd {
    type Error = ();
    fn set_low(&mut self) -> Result<(), ()> {
        self.0.borrow_mut().line_op()
    }
    fn set_high(&mut self) -> Result<(), ()> {
        self.0.borrow_mut().line_op()
    }
}

impl DelayUs for NoDelay {
    fn delay_us(&mut self, us: u8) {
        self.0 += us as usize;
    }
}

type Driver = Ssd1963<Lcd800x480, NoDelay, GpioReadWrite16BitInterface<Port, Dc, Wr, Rd>>;

fn driver() -> (Driver, Shared) {
    let chip = Rc::new(RefCell::new(Chip::new()));
    let iface = GpioReadWrite16BitInterface::new(
        Port(chip.clone()),
        Dc(chip.clone()),
        Wr(chip.clone()),
        Rd(chip.clone()),
    );
    let d = Ssd1963::new(Lcd800x480, iface, NoDelay(0)).ok().unwrap();
    chip.borrow_mut().seen.clear();
    chip.borrow_mut().line_ops = 0;
    (d, chip)
}

fn incl(a: u16, b: u16) -> (Bound, Bound) {
    (Bound::Included(a), Bound::Included(b))
}

fn pattern(chip: &Shared) {
    let mut c = chip.borrow_mut();
    for i in 0..W * H {
        c.mem[i] = (i % 65521) as u16;
    }
}

#[test]
fn init_sequence() {
    let chip = Rc::new(RefCell::new(Chip::new()));
    let iface = GpioReadWrite16BitInterface::new(
        Port(chip.clone()),
        Dc(chip.clone()),
        Wr(chip.clone()),
        Rd(chip.clone()),
    );
    let d = Ssd1963::new(Lcd800x480, iface, NoDelay(0)).ok().unwrap();
    assert_eq!(d.width(), 800);
    assert_eq!(d.height(), 481);
    let cmds = chip.borrow().commands();
    let expected: Vec<(u8, Vec<u8>)> = vec![
        (0xE2, vec![0x1E, 0x02, 0x04]),
        (0xE0, vec![0x01]),
        (0xE0, vec![0x03]),
        (0x01, vec![]),
        (0xE6, vec![0x03, 0xFF, 0xFF]),
        (0xB0, vec![0x20, 0x00, 0x03, 0x1F, 0x01, 0xE0, 0x00]),
        (0xB4, vec![0x03, 0xA0, 0x00, 0x2E, 0x30, 0x00, 0x0F, 0x00]),
        (0xB6, vec![0x02, 0x0D, 0x00, 0x10, 0x10, 0x00, 0x08]),
        (0x36, vec![0x00]),
        (0xF0, vec![0x03]),
        (0x29, vec![]),
    ];
    assert_eq!(cmds, expected);
    let (_iface, delay) = d.release();
    assert!(delay.0 > 0);
}

#[test]
fn fill_area_color_covers_exactly_the_window() {
    let (mut d, chip) = driver();
    d.fill_area_color(incl(10, 19), incl(5, 7), 0xABCD).unwrap();
    let c = chip.borrow();
    assert_eq!(c.commands()[0], (0x2A, vec![0, 10, 0, 19]));
    assert_eq!(c.commands()[1], (0x2B, vec![0, 5, 0, 7]));
    assert_eq!(c.commands()[2], (0x2C, vec![]));
    for y in 0..H {
        for x in 0..W {
            let inside = (10..=19).contains(&x) && (5..=7).contains(&y);
            assert_eq!(c.mem[y * W + x] == 0xABCD, inside);
        }
    }
    let writes = c.seen.iter().filter(|s| matches!(s, Seen::Wrote(_, _))).count();
    assert_eq!(writes, 30);
}

#[test]
fn clear_screen_fills_everything() {
    let (mut d, chip) = driver();
    d.clear_screen(0x1234).unwrap();
    assert!(chip.borrow().mem.iter().all(|v| *v == 0x1234));
}

#[test]
fn fill_area_stops_at_area() {
    let (mut d, chip) = driver();
    let colors: Vec<u16> = (1..=100).collect();
    Display::fill_area(&mut d, incl(0, 3), incl(0, 1), &colors).unwrap();
    let c = chip.borrow();
    assert_eq!(&c.mem[0..4], &[1, 2, 3, 4]);
    assert_eq!(&c.mem[W..W + 4], &[5, 6, 7, 8]);
    assert_eq!(c.mem[4], 0);
    let writes = c.seen.iter().filter(|s| matches!(s, Seen::Wrote(_, _))).count();
    assert_eq!(writes, 8);
}

#[test]
fn fill_area_out_of_bounds_sends_nothing() {
    let (mut d, chip) = driver();
    let r = d.fill_area(incl(0, 800), incl(0, 1), &[1, 2, 3]);
    assert_eq!(r, Err(DriverError::OutOfBounds));
    let r = d.fill_area_color(incl(0, 1), incl(0, 481), 7);
    assert_eq!(r, Err(DriverError::OutOfBounds));
    assert_eq!(chip.borrow().line_ops, 0);
}

#[test]
fn read_area_reads_rows() {
    let (mut d, chip) = driver();
    pattern(&chip);
    let mut buffer = vec![0u16; 6];
    ReadArea::read_area(&mut d, incl(2, 4), incl(1, 2), &mut buffer).unwrap();
    let c = chip.borrow();
    let at = |x: usize, y: usize| c.mem[y * W + x];
    assert_eq!(buffer, vec![at(2, 1), at(3, 1), at(4, 1), at(2, 2), at(3, 2), at(4, 2)]);
    drop(c);
    let mut small = vec![0u16; 5];
    assert_eq!(d.read_area(incl(2, 4), incl(1, 2), &mut small), Err(DriverError::BufferTooSmall));
}

fn copy_and_expect(from_x: (u16, u16), from_y: (u16, u16), dx: i16, dy: i16, rows_in_buffer: usize) {
    let (mut d, chip) = driver();
    pattern(&chip);
    let before = chip.borrow().mem.clone();
    let width = (from_x.1 - from_x.0 + 1) as usize;
    let mut buffer = vec![0u16; width * rows_in_buffer];
    CopyArea::copy_area(&mut d, incl(from_x.0, from_x.1), incl(from_y.0, from_y.1), dx, dy, &mut buffer).unwrap();
    let c = chip.borrow();
    for y in 0..H {
        for x in 0..W {
            let sx = x as i32 - dx as i32;
            let sy = y as i32 - dy as i32;
            let in_target = sx >= from_x.0 as i32 && sx <= from_x.1 as i32 && sy >= from_y.0 as i32 && sy <= from_y.1 as i32;
            let want = if in_target {
                before[sy as usize * W + sx as usize]
            } else {
                before[y * W + x]
            };
            assert_eq!(c.mem[y * W + x], want, "pixel {},{}", x, y);
        }
    }
    // No pixel is read after the copy wrote to it.
    let mut written = std::collections::HashSet::new();
    for s in c.seen.iter() {
        match s {
            Seen::Wrote(x, y) => {
                written.insert((*x, *y));
            }
            Seen::Read(x, y) => assert!(!written.contains(&(*x, *y)), "read of {},{} after a write", x, y),
            _ => {}
        }
    }
}

#[test]
fn copy_identity_one_row_buffer() {
    let (mut d, chip) = driver();
    pattern(&chip);
    let before = chip.borrow().mem.clone();
    let mut buffer = vec![0u16; 10];
    d.copy_area(incl(5, 14), incl(20, 26), 0, 0, &mut buffer).unwrap();
    let c = chip.borrow();
    assert_eq!(c.mem, before);
    let reads = c.seen.iter().filter(|s| matches!(s, Seen::Read(_, _))).count();
    let writes = c.seen.iter().filter(|s| matches!(s, Seen::Wrote(_, _))).count();
    assert_eq!(reads, 70);
    assert_eq!(writes, 70);
    // Rows go top to bottom, one per chunk.
    let rows: Vec<u16> = c
        .seen
        .iter()
        .filter_map(|s| match s {
            Seen::Read(x, y) if *x == 5 => Some(*y),
            _ => None,
        })
        .collect();
    assert_eq!(rows, (20..=26).collect::<Vec<u16>>());
}

#[test]
fn copy_identity_with_remainder() {
    copy_and_expect((5, 14), (20, 26), 0, 0, 3);
}

#[test]
fn copy_down_overlapping_goes_bottom_up() {
    copy_and_expect((0, 9), (10, 29), 0, 5, 3);
    copy_and_expect((3, 12), (10, 29), 4, 1, 1);
    copy_and_expect((0, 9), (0, 6), 0, 2, 4);
}

#[test]
fn copy_up_and_sideways() {
    copy_and_expect((0, 9), (10, 29), 0, -5, 3);
    copy_and_expect((20, 29), (10, 12), -7, 0, 2);
    copy_and_expect((20, 29), (10, 12), 7, 0, 100);
}

#[test]
fn copy_out_of_bounds_sends_nothing() {
    let (mut d, chip) = driver();
    let mut buffer = vec![0u16; 100];
    assert_eq!(d.copy_area(incl(790, 799), incl(0, 9), 1, 0, &mut buffer), Err(DriverError::OutOfBounds));
    assert_eq!(d.copy_area(incl(0, 9), incl(0, 9), 0, -1, &mut buffer), Err(DriverError::OutOfBounds));
    assert_eq!(d.copy_area(incl(0, 9), incl(470, 480), 0, 1, &mut buffer), Err(DriverError::OutOfBounds));
    assert_eq!(d.copy_area(incl(0, 800), incl(0, 9), 0, 0, &mut buffer), Err(DriverError::OutOfBounds));
    assert_eq!(chip.borrow().line_ops, 0);
    assert!(chip.borrow().seen.is_empty());
}

#[test]
fn copy_with_small_buffer_sends_nothing() {
    let (mut d, chip) = driver();
    let mut buffer = vec![0u16; 9];
    assert_eq!(d.copy_area(incl(0, 9), incl(0, 9), 0, 1, &mut buffer), Err(DriverError::BufferTooSmall));
    assert_eq!(chip.borrow().line_ops, 0);
    assert_eq!(buffer.len(), 9);
}

#[test]
fn bus_error_stops_the_transaction() {
    let (mut d, chip) = driver();
    chip.borrow_mut().fail_after = Some(5);
    let r = d.fill_area_color(incl(0, 9), incl(0, 9), 3);
    assert_eq!(r, Err(DriverError::Bus(())));
    assert_eq!(chip.borrow().line_ops, 6);
    let mut buffer = vec![0u16; 100];
    chip.borrow_mut().line_ops = 0;
    chip.borrow_mut().fail_after = Some(40);
    let r = d.copy_area(incl(0, 9), incl(0, 9), 0, 1, &mut buffer);
    assert_eq!(r, Err(DriverError::Bus(())));
    assert_eq!(chip.borrow().line_ops, 41);
}

struct WriteOnlyPort(Shared);

impl WritePort for WriteOnlyPort {
    fn set_value(&mut self, value: u16) {
        self.0.borrow_mut().port = value;
    }
    fn dir_write(&mut self) {}
}

#[test]
fn write_only_bus_fills() {
    let chip = Rc::new(RefCell::new(Chip::new()));
    let iface = GpioWriteOnly16BitInterface::new(WriteOnlyPort(chip.clone()), Dc(chip.clone()), Wr(chip.clone()));
    let mut d = Ssd1963::new(Lcd800x480, iface, NoDelay(0)).ok().unwrap();
    d.fill_area_color(incl(1, 2), incl(3, 3), 9).unwrap();
    assert_eq!(chip.borrow().mem[3 * W + 1], 9);
    assert_eq!(chip.borrow().mem[3 * W + 2], 9);
    let (iface, _delay) = d.release();
    let (_port, _dc, _wr) = iface.release();
}
