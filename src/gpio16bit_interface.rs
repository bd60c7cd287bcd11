use vstd::prelude::*;

verus! {

/// A 16-bit parallel data port that can drive its lines.
pub trait WritePort {
    fn set_value(&mut self, value: u16);

    fn dir_write(&mut self);
}

/// A 16-bit parallel data port that can also be switched to input and sampled.
pub trait ReadWritePort: WritePort {
    fn get_value(&mut self) -> u16;

    fn dir_read(&mut self);
}

/// A single output line: command/data select, write strobe or read strobe.
pub trait ControlLine {
    type Error;

    fn set_low(&mut self) -> Result<(), Self::Error>;

    fn set_high(&mut self) -> Result<(), Self::Error>;
}

/// A blocking wait of the given number of microseconds.
pub trait DelayUs {
    fn delay_us(&mut self, us: u8);
}

/// One operation that the bus issues on the port or on a control line.
#[derive(PartialEq, Eq, Debug, Clone, Copy)]
pub enum BusEvent {
    /// Command/data select driven low.
    CommandSelect,
    /// Command/data select driven high.
    DataSelect,
    WriteLow,
    WriteHigh,
    ReadLow,
    ReadHigh,
    /// The data lines driven to a value.
    Put(u16),
    /// The data lines sampled, giving a value.
    Get(u16),
    DirWrite,
    DirRead,
    /// The last line operation reported an error.
    Fault,
}

/// `new` extends `old` by a prefix of `ops`, then records a fault.
pub open spec fn partial(old: Seq<BusEvent>, new: Seq<BusEvent>, ops: Seq<BusEvent>) -> bool {
    &&& old.len() + 1 <= new.len() <= old.len() + ops.len() + 1
    &&& new.last() == BusEvent::Fault
    &&& new.drop_last() == old + ops.take(new.len() - 1 - old.len())
}

/// `new` extends `old` by all of `ops` where the step succeeded; where a line reported an
/// error, by the prefix of `ops` up to the failed operation and a fault.
pub open spec fn ran(old: Seq<BusEvent>, new: Seq<BusEvent>, ops: Seq<BusEvent>, ok: bool) -> bool {
    if ok {
        new == old + ops
    } else {
        partial(old, new, ops)
    }
}

/// A step run after `a` was issued in full is a step of `a + b`, with the same outcome.
pub(crate) proof fn lemma_ran_then(
    l0: Seq<BusEvent>,
    l1: Seq<BusEvent>,
    l2: Seq<BusEvent>,
    a: Seq<BusEvent>,
    b: Seq<BusEvent>,
    ok: bool,
)
    requires
        l1 == l0 + a,
        ran(l1, l2, b, ok),
    ensures
        ran(l0, l2, a + b, ok),
{
    if !ok {
        let n = l2.len() - 1 - l1.len();
        assert((a + b).take(a.len() + n) =~= a + b.take(n));
        assert(l2.drop_last() =~= l0 + (a + b).take(l2.len() - 1 - l0.len()));
    } else {
        assert(l2 =~= l0 + (a + b));
    }
}

/// A step that stopped part way through `a` also stopped part way through `a + b`.
pub(crate) proof fn lemma_partial_more(l0: Seq<BusEvent>, l1: Seq<BusEvent>, a: Seq<BusEvent>, b: Seq<BusEvent>)
    requires
        partial(l0, l1, a),
    ensures
        partial(l0, l1, a + b),
{
    let n = l1.len() - 1 - l0.len();
    assert((a + b).take(n) =~= a.take(n));
}

/// Issuing all of `ops` completes the step; issuing them and then a fault stops it.
pub(crate) proof fn lemma_ran_all(l: Seq<BusEvent>, ops: Seq<BusEvent>)
    ensures
        ran(l, l + ops, ops, true),
        ran(l, (l + ops).push(BusEvent::Fault), ops, false),
{
    assert(ops.take(ops.len() as int) =~= ops);
    assert((l + ops).push(BusEvent::Fault).drop_last() =~= l + ops);
}

/// A bus that can issue commands and write data.
pub trait WriteOnlyInterface {
    type Error;

    /// The operations issued on the bus so far.
    spec fn log(&self) -> Seq<BusEvent>;

    /// What `begin_write` issues.
    spec fn begin_write_ops() -> Seq<BusEvent>;

    /// Idles the write strobe high and turns the port to output where it can switch.
    fn begin_write(&mut self) -> (r: Result<(), Self::Error>)
        ensures
            ran(old(self).log(), final(self).log(), Self::begin_write_ops(), r is Ok),
    ;

    /// Selects the command phase.
    fn command(&mut self) -> (r: Result<(), Self::Error>)
        ensures
            ran(old(self).log(), final(self).log(), seq![BusEvent::CommandSelect], r is Ok),
    ;

    /// Selects the data phase.
    fn data(&mut self) -> (r: Result<(), Self::Error>)
        ensures
            ran(old(self).log(), final(self).log(), seq![BusEvent::DataSelect], r is Ok),
    ;

    /// Drives the data lines to `value`, without latching it.
    fn set_value(&mut self, value: u16)
        ensures
            final(self).log() == old(self).log().push(BusEvent::Put(value)),
    ;

    /// Pulses the write strobe low then high: the controller samples the data lines.
    fn commit(&mut self) -> (r: Result<(), Self::Error>)
        ensures
            ran(
                old(self).log(),
                final(self).log(),
                seq![BusEvent::WriteLow, BusEvent::WriteHigh],
                r is Ok,
            ),
    ;
}

/// A bus that can also read data back.
pub trait ReadWriteInterface: WriteOnlyInterface {
    /// What `begin_read` issues.
    spec fn begin_read_ops() -> Seq<BusEvent>;

    /// Asserts the read strobe and turns the port to input.
    fn begin_read(&mut self) -> (r: Result<(), Self::Error>)
        ensures
            ran(old(self).log(), final(self).log(), Self::begin_read_ops(), r is Ok),
    ;

    /// Samples the data lines, then releases the read strobe.
    fn get_value(&mut self) -> (r: Result<u16, Self::Error>)
        ensures
            exists|v: u16|
                {
                    &&& r is Ok ==> r == Ok::<u16, Self::Error>(v) && final(self).log() == old(self).log() + seq![
                        BusEvent::Get(v),
                        BusEvent::ReadHigh,
                    ]
                    &&& r is Err ==> final(self).log() == old(self).log() + seq![
                        BusEvent::Get(v),
                        BusEvent::ReadHigh,
                        BusEvent::Fault,
                    ]
                },
    ;
}

/// A write-only bus over a port and two control lines.
pub struct GpioWriteOnly16BitInterface<Port, DC, WR> {
    port: Port,
    dc: DC,
    wr: WR,
    events: Ghost<Seq<BusEvent>>,
}

impl<PortX, DC, WR, E> GpioWriteOnly16BitInterface<PortX, DC, WR> where
    PortX: WritePort,
    DC: ControlLine<Error = E>,
    WR: ControlLine<Error = E>,
 {
    pub fn new(port: PortX, dc: DC, wr: WR) -> (r: Self)
        ensures
            r.log() == Seq::<BusEvent>::empty(),
    {
        Self { port, dc, wr, events: Ghost(Seq::empty()) }
    }

    pub fn release(self) -> (PortX, DC, WR) {
        (self.port, self.dc, self.wr)
    }
}

impl<PortX, DC, WR, E> WriteOnlyInterface for GpioWriteOnly16BitInterface<PortX, DC, WR> where
    PortX: WritePort,
    DC: ControlLine<Error = E>,
    WR: ControlLine<Error = E>,
 {
    type Error = E;

    closed spec fn log(&self) -> Seq<BusEvent> {
        self.events@
    }

    open spec fn begin_write_ops() -> Seq<BusEvent> {
        seq![BusEvent::WriteHigh]
    }

    fn begin_write(&mut self) -> (r: Result<(), E>) {
        let ghost l0 = self.events@;
        self.events = Ghost(self.events@ + seq![BusEvent::WriteHigh]);
        let r = self.wr.set_high();
        if r.is_err() {
            self.events = Ghost(self.events@.push(BusEvent::Fault));
        }
        proof {
            lemma_ran_all(l0, seq![BusEvent::WriteHigh]);
        }
        r
    }

    fn command(&mut self) -> (r: Result<(), E>) {
        let ghost l0 = self.events@;
        self.events = Ghost(self.events@ + seq![BusEvent::CommandSelect]);
        let r = self.dc.set_low();
        if r.is_err() {
            self.events = Ghost(self.events@.push(BusEvent::Fault));
        }
        proof {
            lemma_ran_all(l0, seq![BusEvent::CommandSelect]);
        }
        r
    }

    fn data(&mut self) -> (r: Result<(), E>) {
        let ghost l0 = self.events@;
        self.events = Ghost(self.events@ + seq![BusEvent::DataSelect]);
        let r = self.dc.set_high();
        if r.is_err() {
            self.events = Ghost(self.events@.push(BusEvent::Fault));
        }
        proof {
            lemma_ran_all(l0, seq![BusEvent::DataSelect]);
        }
        r
    }

    fn set_value(&mut self, value: u16) {
        self.events = Ghost(self.events@.push(BusEvent::Put(value)));
        self.port.set_value(value);
    }

    fn commit(&mut self) -> (r: Result<(), E>) {
        let ghost l0 = self.events@;
        let ghost ops = seq![BusEvent::WriteLow, BusEvent::WriteHigh];
        self.events = Ghost(self.events@.push(BusEvent::WriteLow));
        let r = self.wr.set_low();
        if r.is_err() {
            self.events = Ghost(self.events@.push(BusEvent::Fault));
            assert(self.events@.drop_last() =~= l0 + ops.take(1));
            return r;
        }
        self.events = Ghost(self.events@.push(BusEvent::WriteHigh));
        assert(self.events@ =~= l0 + ops);
        let r = self.wr.set_high();
        if r.is_err() {
            self.events = Ghost(self.events@.push(BusEvent::Fault));
        }
        proof {
            lemma_ran_all(l0, ops);
        }
        r
    }
}

/// A bus over a switchable port, two control lines and a read strobe.
pub struct GpioReadWrite16BitInterface<Port, DC, WR, RD> {
    inner: GpioWriteOnly16BitInterface<Port, DC, WR>,
    rd: RD,
}

impl<PortX, DC, WR, RD, E> GpioReadWrite16BitInterface<PortX, DC, WR, RD> where
    PortX: ReadWritePort,
    DC: ControlLine<Error = E>,
    WR: ControlLine<Error = E>,
    RD: ControlLine<Error = E>,
 {
    pub fn new(port: PortX, dc: DC, wr: WR, rd: RD) -> (r: Self)
        ensures
            r.log() == Seq::<BusEvent>::empty(),
    {
        Self { inner: GpioWriteOnly16BitInterface::new(port, dc, wr), rd }
    }

    pub fn release(self) -> (PortX, DC, WR, RD) {
        let (port, dc, wr) = self.inner.release();
        (port, dc, wr, self.rd)
    }
}

impl<PortX, DC, WR, RD, E> WriteOnlyInterface for GpioReadWrite16BitInterface<
    PortX,
    DC,
    WR,
    RD,
> where
    PortX: ReadWritePort,
    DC: ControlLine<Error = E>,
    WR: ControlLine<Error = E>,
    RD: ControlLine<Error = E>,
 {
    type Error = E;

    closed spec fn log(&self) -> Seq<BusEvent> {
        self.inner.events@
    }

    open spec fn begin_write_ops() -> Seq<BusEvent> {
        seq![BusEvent::ReadHigh, BusEvent::DirWrite, BusEvent::WriteHigh]
    }

    fn begin_write(&mut self) -> (r: Result<(), E>) {
        let ghost l0 = self.inner.events@;
        let ghost ops = Self::begin_write_ops();
        self.inner.events = Ghost(self.inner.events@.push(BusEvent::ReadHigh));
        let r = self.rd.set_high();
        if r.is_err() {
            self.inner.events = Ghost(self.inner.events@.push(BusEvent::Fault));
            assert(self.inner.events@.drop_last() =~= l0 + ops.take(1));
            return r;
        }
        self.inner.events = Ghost(self.inner.events@.push(BusEvent::DirWrite));
        self.inner.port.dir_write();
        let ghost l2 = self.inner.events@;
        assert(l2 =~= l0 + seq![BusEvent::ReadHigh, BusEvent::DirWrite]);
        let r = self.inner.begin_write();
        proof {
            lemma_ran_then(
                l0,
                l2,
                self.inner.events@,
                seq![BusEvent::ReadHigh, BusEvent::DirWrite],
                seq![BusEvent::WriteHigh],
                r is Ok,
            );
            assert(seq![BusEvent::ReadHigh, BusEvent::DirWrite] + seq![BusEvent::WriteHigh]
                =~= ops);
        }
        r
    }

    fn command(&mut self) -> (r: Result<(), E>) {
        self.inner.command()
    }

    fn data(&mut self) -> (r: Result<(), E>) {
        self.inner.data()
    }

    fn set_value(&mut self, value: u16) {
        self.inner.set_value(value)
    }

    fn commit(&mut self) -> (r: Result<(), E>) {
        self.inner.commit()
    }
}

impl<PortX, DC, WR, RD, E> ReadWriteInterface for GpioReadWrite16BitInterface<
    PortX,
    DC,
    WR,
    RD,
> where
    PortX: ReadWritePort,
    DC: ControlLine<Error = E>,
    WR: ControlLine<Error = E>,
    RD: ControlLine<Error = E>,
 {
    open spec fn begin_read_ops() -> Seq<BusEvent> {
        seq![BusEvent::WriteHigh, BusEvent::ReadLow, BusEvent::DirRead]
    }

    fn begin_read(&mut self) -> (r: Result<(), E>) {
        let ghost l0 = self.inner.events@;
        let ghost ops = Self::begin_read_ops();
        self.inner.events = Ghost(self.inner.events@.push(BusEvent::WriteHigh));
        let r = self.inner.wr.set_high();
        if r.is_err() {
            self.inner.events = Ghost(self.inner.events@.push(BusEvent::Fault));
            assert(self.inner.events@.drop_last() =~= l0 + ops.take(1));
            return r;
        }
        self.inner.events = Ghost(self.inner.events@.push(BusEvent::ReadLow));
        let r = self.rd.set_low();
        if r.is_err() {
            self.inner.events = Ghost(self.inner.events@.push(BusEvent::Fault));
            assert(self.inner.events@.drop_last() =~= l0 + ops.take(2));
            return r;
        }
        self.inner.events = Ghost(self.inner.events@.push(BusEvent::DirRead));
        self.inner.port.dir_read();
        assert(self.inner.events@ =~= l0 + ops);
        proof {
            lemma_ran_all(l0, ops);
        }
        Ok(())
    }

    fn get_value(&mut self) -> (r: Result<u16, E>) {
        let ghost l0 = self.inner.events@;
        let value = self.inner.port.get_value();
        self.inner.events = Ghost(self.inner.events@.push(BusEvent::Get(value)));
        self.inner.events = Ghost(self.inner.events@.push(BusEvent::ReadHigh));
        assert(self.inner.events@ =~= l0 + seq![BusEvent::Get(value), BusEvent::ReadHigh]);
        match self.rd.set_high() {
            Ok(()) => Ok(value),
            Err(e) => {
                self.inner.events = Ghost(self.inner.events@.push(BusEvent::Fault));
                assert(self.inner.events@ =~= l0 + seq![
                    BusEvent::Get(value),
                    BusEvent::ReadHigh,
                    BusEvent::Fault,
                ]);
                Err(e)
            },
        }
    }
}

} // verus!
