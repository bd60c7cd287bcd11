//! The bus operations of each controller transaction, stated as sequences of `BusEvent`s, and
//! the sending of a command code with its parameter bytes.
use crate::bounds::Bounds;
use crate::commands::{CommandCode, CommandData, SetColumnAddress, SetPageAddress};
use crate::gpio16bit_interface::{
    lemma_partial_more, lemma_ran_then, partial, ran, BusEvent, DelayUs, ReadWriteInterface,
    WriteOnlyInterface,
};
use vstd::prelude::*;

verus! {

/// Sending one word on the data lines and latching it.
pub open spec fn word_ops(v: u16) -> Seq<BusEvent> {
    seq![BusEvent::Put(v), BusEvent::WriteLow, BusEvent::WriteHigh]
}

/// Sending each of `vs` in turn.
pub open spec fn words_ops(vs: Seq<u16>) -> Seq<BusEvent>
    decreases vs.len(),
{
    if vs.len() == 0 {
        Seq::empty()
    } else {
        words_ops(vs.drop_last()) + word_ops(vs.last())
    }
}

/// Reading `vs` one word at a time.
pub open spec fn reads_ops(vs: Seq<u16>) -> Seq<BusEvent>
    decreases vs.len(),
{
    if vs.len() == 0 {
        Seq::empty()
    } else {
        reads_ops(vs.drop_last()) + seq![BusEvent::Get(vs.last()), BusEvent::ReadHigh]
    }
}

/// `n` write strobes, each latching what the data lines hold.
pub open spec fn commits_ops(n: nat) -> Seq<BusEvent>
    decreases n,
{
    if n == 0 {
        Seq::empty()
    } else {
        commits_ops((n - 1) as nat) + seq![BusEvent::WriteLow, BusEvent::WriteHigh]
    }
}

pub open spec fn bytes_as_words(bs: Seq<u8>) -> Seq<u16> {
    bs.map_values(|b: u8| b as u16)
}

/// A command: its code in the command phase, then its parameter bytes in the data phase.
pub open spec fn command_ops(code: u8, payload: Seq<u8>) -> Seq<BusEvent> {
    seq![BusEvent::CommandSelect] + word_ops(code as u16) + seq![BusEvent::DataSelect] + words_ops(
        bytes_as_words(payload),
    )
}

/// Programming the address window to `b`.
pub open spec fn window_ops<I: WriteOnlyInterface>(b: Bounds) -> Seq<BusEvent> {
    I::begin_write_ops() + command_ops(
        0x2A,
        SetColumnAddress { start: b.x_start, end: b.x_end }.payload(),
    ) + command_ops(0x2B, SetPageAddress { start: b.y_start, end: b.y_end }.payload())
}

/// Programming the window to `b` and writing `vs` into it.
pub open spec fn fill_ops<I: WriteOnlyInterface>(b: Bounds, vs: Seq<u16>) -> Seq<BusEvent> {
    window_ops::<I>(b) + I::begin_write_ops() + command_ops(0x2C, Seq::empty()) + seq![
        BusEvent::DataSelect,
    ] + words_ops(vs)
}

/// Programming the window to `b` and latching `color` into each of its pixels.
pub open spec fn fill_color_ops<I: WriteOnlyInterface>(b: Bounds, color: u16) -> Seq<BusEvent> {
    window_ops::<I>(b) + I::begin_write_ops() + command_ops(0x2C, Seq::empty()) + seq![
        BusEvent::DataSelect,
        BusEvent::Put(color),
    ] + commits_ops(b.area_spec() as nat)
}

/// Programming the window to `b` and reading `vs` out of it.
pub open spec fn read_ops<I: ReadWriteInterface>(b: Bounds, vs: Seq<u16>) -> Seq<BusEvent> {
    window_ops::<I>(b) + I::begin_write_ops() + command_ops(0x2E, Seq::empty())
        + I::begin_read_ops() + seq![BusEvent::DataSelect] + reads_ops(vs)
}

pub(crate) proof fn lemma_words_step(vs: Seq<u16>, i: int)
    requires
        0 <= i < vs.len(),
    ensures
        words_ops(vs.take(i + 1)) == words_ops(vs.take(i)) + word_ops(vs[i]),
{
    assert(vs.take(i + 1).drop_last() =~= vs.take(i));
}

pub(crate) proof fn lemma_reads_step(vs: Seq<u16>, i: int)
    requires
        0 <= i < vs.len(),
    ensures
        reads_ops(vs.take(i + 1)) == reads_ops(vs.take(i)) + seq![
            BusEvent::Get(vs[i]),
            BusEvent::ReadHigh,
        ],
{
    assert(vs.take(i + 1).drop_last() =~= vs.take(i));
}

/// Where a step that issued `done` in full was followed by one that stopped part way through
/// `step`, the whole stopped part way through `done + step + rest`.
pub(crate) proof fn lemma_stopped(
    l0: Seq<BusEvent>,
    l1: Seq<BusEvent>,
    l2: Seq<BusEvent>,
    done: Seq<BusEvent>,
    step: Seq<BusEvent>,
    rest: Seq<BusEvent>,
)
    requires
        l1 == l0 + done,
        partial(l1, l2, step),
    ensures
        partial(l0, l2, done + step + rest),
{
    lemma_ran_then(l0, l1, l2, done, step, false);
    lemma_partial_more(l0, l2, done + step, rest);
}

/// Drives `v` on the data lines and latches it, waiting for the lines to settle first where
/// `settle` is set.
pub(crate) fn write_word<I: WriteOnlyInterface, D: DelayUs>(
    iface: &mut I,
    delay: &mut D,
    v: u16,
    settle: bool,
) -> (r: Result<(), I::Error>)
    ensures
        ran(old(iface).log(), final(iface).log(), word_ops(v), r is Ok),
{
    let ghost l0 = iface.log();
    iface.set_value(v);
    if settle {
        delay.delay_us(1);
    }
    let ghost l1 = iface.log();
    assert(l1 =~= l0 + seq![BusEvent::Put(v)]);
    let r = iface.commit();
    proof {
        lemma_ran_then(l0, l1, iface.log(), seq![BusEvent::Put(v)], seq![BusEvent::WriteLow, BusEvent::WriteHigh], r is Ok);
        assert(seq![BusEvent::Put(v)] + seq![BusEvent::WriteLow, BusEvent::WriteHigh] =~= word_ops(v));
    }
    r
}

/// Sends a command code and its parameter bytes.
pub(crate) fn send_command<I: WriteOnlyInterface, D: DelayUs, C: CommandCode + CommandData<N>, const N: usize>(
    iface: &mut I,
    delay: &mut D,
    command: &C,
) -> (r: Result<(), I::Error>)
    requires
        command.wf(),
    ensures
        ran(old(iface).log(), final(iface).log(), command_ops(C::spec_code(), command.payload()), r is Ok),
{
    let ghost l0 = iface.log();
    let ghost ops = command_ops(C::spec_code(), command.payload());
    let r = iface.command();
    if r.is_err() {
        proof {
            lemma_stopped(l0, l0, iface.log(), Seq::empty(), seq![BusEvent::CommandSelect], ops.skip(1));
            assert(Seq::<BusEvent>::empty() + seq![BusEvent::CommandSelect] + ops.skip(1) =~= ops);
            assert(l0 + Seq::<BusEvent>::empty() =~= l0);
        }
        return r;
    }
    let ghost l1 = iface.log();
    let code = C::code();
    let r = write_word(iface, delay, code as u16, true);
    if r.is_err() {
        proof {
            lemma_stopped(l0, l1, iface.log(), seq![BusEvent::CommandSelect], word_ops(code as u16), ops.skip(4));
            assert(seq![BusEvent::CommandSelect] + word_ops(code as u16) + ops.skip(4) =~= ops);
        }
        return r;
    }
    let ghost l2 = iface.log();
    let r = iface.data();
    if r.is_err() {
        proof {
            assert(l2 == l0 + (seq![BusEvent::CommandSelect] + word_ops(code as u16)));
            lemma_stopped(l0, l2, iface.log(), seq![BusEvent::CommandSelect] + word_ops(code as u16), seq![BusEvent::DataSelect], ops.skip(5));
            assert(seq![BusEvent::CommandSelect] + word_ops(code as u16) + seq![BusEvent::DataSelect] + ops.skip(5) =~= ops);
        }
        return r;
    }
    let ghost head = seq![BusEvent::CommandSelect] + word_ops(code as u16) + seq![BusEvent::DataSelect];
    let ghost l3 = iface.log();
    assert(l3 == l0 + head);
    let bytes = command.data();
    let ghost words = bytes_as_words(bytes@);
    let mut i: usize = 0;
    while i < N
        invariant
            0 <= i <= N,
            bytes@.len() == N,
            words == bytes_as_words(bytes@),
            ops == head + words_ops(words),
            ops == command_ops(C::spec_code(), command.payload()),
            l0 == old(iface).log(),
            iface.log() == l0 + head + words_ops(words.take(i as int)),
        decreases N - i,
    {
        let ghost li = iface.log();
        let r = write_word(iface, delay, bytes[i] as u16, true);
        proof {
            lemma_words_step(words, i as int);
            assert(words[i as int] == bytes@[i as int] as u16);
        }
        if r.is_err() {
            proof {
                let done = head + words_ops(words.take(i as int));
                assert(li =~= l0 + done);
                lemma_stopped(l0, li, iface.log(), done, word_ops(words[i as int]), words_ops(words).skip(words_ops(words.take(i as int + 1)).len() as int));
                lemma_words_prefix(words, i as int + 1);
                assert(done + word_ops(words[i as int]) + words_ops(words).skip(words_ops(words.take(i as int + 1)).len() as int) =~= ops);
            }
            return r;
        }
        i += 1;
    }
    assert(words.take(N as int) =~= words);
    assert(iface.log() =~= l0 + ops);
    Ok(())
}

/// What `words_ops` gives for a prefix of `vs` is a prefix of what it gives for `vs`.
pub(crate) proof fn lemma_words_prefix(vs: Seq<u16>, n: int)
    requires
        0 <= n <= vs.len(),
    ensures
        words_ops(vs) == words_ops(vs.take(n)) + words_ops(vs).skip(words_ops(vs.take(n)).len() as int),
    decreases vs.len() - n,
{
    if n == vs.len() {
        assert(vs.take(n) =~= vs);
        assert(words_ops(vs).skip(words_ops(vs).len() as int) =~= Seq::<BusEvent>::empty());
        assert(words_ops(vs) =~= words_ops(vs) + Seq::<BusEvent>::empty());
    } else {
        lemma_words_prefix(vs, n + 1);
        lemma_words_step(vs, n);
        let a = words_ops(vs.take(n));
        let b = words_ops(vs.take(n + 1));
        assert(b == a + word_ops(vs[n]));
        assert(words_ops(vs) =~= a + words_ops(vs).skip(a.len() as int));
    }
}

/// `words_ops` of a concatenation is the concatenation of `words_ops`.
pub(crate) proof fn lemma_words_append(a: Seq<u16>, b: Seq<u16>)
    ensures
        words_ops(a + b) == words_ops(a) + words_ops(b),
    decreases b.len(),
{
    if b.len() == 0 {
        assert(a + b =~= a);
        assert(words_ops(a) + words_ops(b) =~= words_ops(a));
    } else {
        lemma_words_append(a, b.drop_last());
        assert((a + b).drop_last() =~= a + b.drop_last());
        assert(words_ops(a) + words_ops(b) =~= words_ops(a) + words_ops(b.drop_last()) + word_ops(
            b.last(),
        ));
    }
}

/// `reads_ops` of a concatenation is the concatenation of `reads_ops`.
pub(crate) proof fn lemma_reads_append(a: Seq<u16>, b: Seq<u16>)
    ensures
        reads_ops(a + b) == reads_ops(a) + reads_ops(b),
    decreases b.len(),
{
    if b.len() == 0 {
        assert(a + b =~= a);
        assert(reads_ops(a) + reads_ops(b) =~= reads_ops(a));
    } else {
        lemma_reads_append(a, b.drop_last());
        assert((a + b).drop_last() =~= a + b.drop_last());
        assert(reads_ops(a) + reads_ops(b) =~= reads_ops(a) + reads_ops(b.drop_last()) + seq![
            BusEvent::Get(b.last()),
            BusEvent::ReadHigh,
        ]);
    }
}

pub(crate) proof fn lemma_commits_add(m: nat, n: nat)
    ensures
        commits_ops(m + n) == commits_ops(m) + commits_ops(n),
    decreases n,
{
    if n == 0 {
        assert(commits_ops(m) + commits_ops(0) =~= commits_ops(m));
    } else {
        lemma_commits_add(m, (n - 1) as nat);
        assert(commits_ops(m) + commits_ops(n) =~= commits_ops(m) + commits_ops((n - 1) as nat)
            + seq![BusEvent::WriteLow, BusEvent::WriteHigh]);
    }
}

/// A step that failed after `done` had been issued stops the whole of `total` part way.
pub(crate) proof fn lemma_stop_in(
    l0: Seq<BusEvent>,
    l1: Seq<BusEvent>,
    l2: Seq<BusEvent>,
    done: Seq<BusEvent>,
    step: Seq<BusEvent>,
    total: Seq<BusEvent>,
)
    requires
        l1 == l0 + done,
        partial(l1, l2, step),
        done.len() + step.len() <= total.len(),
        total.take(done.len() + step.len() as int) == done + step,
    ensures
        partial(l0, l2, total),
{
    lemma_ran_then(l0, l1, l2, done, step, false);
    let n = l2.len() - 1 - l0.len();
    assert(total.take(n) =~= (done + step).take(n));
}

pub(crate) proof fn lemma_words_split(vs: Seq<u16>, i: int)
    requires
        0 <= i < vs.len(),
    ensures
        words_ops(vs) == words_ops(vs.take(i)) + word_ops(vs[i]) + words_ops(vs.skip(i + 1)),
        words_ops(vs.take(i + 1)) == words_ops(vs.take(i)) + word_ops(vs[i]),
{
    assert(vs =~= vs.take(i + 1) + vs.skip(i + 1));
    lemma_words_append(vs.take(i + 1), vs.skip(i + 1));
    lemma_words_step(vs, i);
}

/// The bus operations that bring up the controller for a panel of `w` by `h` pixels.
pub open spec fn init_ops<I: WriteOnlyInterface>(w: u16, h: u16) -> Seq<BusEvent> {
    I::begin_write_ops() + command_ops(0xE2, seq![0x1E, 0x02, 0x04]) + command_ops(
        0xE0,
        seq![0x01],
    ) + command_ops(0xE0, seq![0x03]) + command_ops(0x01, Seq::empty()) + command_ops(
        0xE6,
        seq![0x03, 0xFF, 0xFF],
    ) + command_ops(
        0xB0,
        seq![
            0x20,
            0x00,
            ((w - 1) / 256) as u8,
            ((w - 1) % 256) as u8,
            ((h - 1) / 256) as u8,
            ((h - 1) % 256) as u8,
            0x00,
        ],
    ) + command_ops(0xB4, seq![0x03, 0xA0, 0x00, 0x2E, 0x30, 0x00, 0x0F, 0x00]) + command_ops(
        0xB6,
        seq![0x02, 0x0D, 0x00, 0x10, 0x10, 0x00, 0x08],
    ) + command_ops(0x36, seq![0x00]) + command_ops(0xF0, seq![0x03]) + command_ops(
        0x29,
        Seq::empty(),
    )
}

} // verus!
