//! How a buffered copy cuts its source into chunks of whole rows, in which order it visits
//! them, and why that order never reads a row the copy has already overwritten.
use crate::bounds::Bounds;
use crate::gpio16bit_interface::{partial, BusEvent, ReadWriteInterface};
use crate::protocol::{fill_ops, lemma_stop_in, read_ops};
use vstd::prelude::*;

verus! {

/// How many whole rows of a `w`-wide source of `h` rows a buffer of `len` words holds, at
/// most `h`.
pub open spec fn rows_per_chunk(h: int, w: int, len: int) -> int {
    if h <= len / w {
        h
    } else {
        len / w
    }
}

/// Number of chunks: the whole ones, then one for the rows left over.
pub open spec fn chunk_count(h: int, k: int) -> int {
    h / k + if h % k > 0 {
        1int
    } else {
        0int
    }
}

/// First row and number of rows of chunk `i` of `from`, in chunks of `k` rows. Where the
/// destination lies below (`dy > 0`) the chunks go from the bottom up and the rows left over
/// come last at the top; otherwise from the top down, with the rows left over last at the
/// bottom.
pub open spec fn chunk_rows(from: Bounds, k: int, dy: int, i: int) -> (int, int) {
    let h = from.height_spec();
    let y0 = from.y_start as int;
    if dy > 0 {
        if i < h / k {
            (y0 + h - (i + 1) * k, k)
        } else {
            (y0, h % k)
        }
    } else {
        if i < h / k {
            (y0 + i * k, k)
        } else {
            (y0 + (h / k) * k, h % k)
        }
    }
}

/// The source rectangle of chunk `i`.
pub open spec fn chunk_src(from: Bounds, k: int, dy: int, i: int) -> Bounds {
    let (s, n) = chunk_rows(from, k, dy, i);
    Bounds { x_start: from.x_start, x_end: from.x_end, y_start: s as u16, y_end: (s + n - 1) as u16 }
}

/// `b` translated by `dx` and `dy`.
pub open spec fn shifted(b: Bounds, dx: int, dy: int) -> Bounds {
    Bounds {
        x_start: (b.x_start + dx) as u16,
        x_end: (b.x_end + dx) as u16,
        y_start: (b.y_start + dy) as u16,
        y_end: (b.y_end + dy) as u16,
    }
}

/// `from` translated by `dx` and `dy` lies on the display.
pub open spec fn target_fits(from: Bounds, dx: int, dy: int, display: Bounds) -> bool {
    &&& display.x_start <= from.x_start + dx
    &&& from.x_end + dx <= display.x_end
    &&& display.y_start <= from.y_start + dy
    &&& from.y_end + dy <= display.y_end
}

/// The bus operations of a copy whose chunks read back `reads`: each chunk is read whole,
/// then written whole to its destination, before the next chunk is read.
pub open spec fn copy_ops<I: ReadWriteInterface>(
    from: Bounds,
    k: int,
    dx: int,
    dy: int,
    reads: Seq<Seq<u16>>,
) -> Seq<BusEvent>
    decreases reads.len(),
{
    if reads.len() == 0 {
        Seq::empty()
    } else {
        let i = reads.len() - 1;
        copy_ops::<I>(from, k, dx, dy, reads.drop_last()) + read_ops::<I>(
            chunk_src(from, k, dy, i),
            reads.last(),
        ) + fill_ops::<I>(shifted(chunk_src(from, k, dy, i), dx, dy), reads.last())
    }
}

/// `reads` holds one sequence per chunk, each as long as its chunk's area.
pub open spec fn reads_fit(from: Bounds, k: int, dy: int, reads: Seq<Seq<u16>>) -> bool {
    forall|j: int| 0 <= j < reads.len() ==> #[trigger] reads[j].len() == chunk_src(from, k, dy, j).area_spec()
}

/// The source rectangle of chunk `i` of `from`, in chunks of `k` rows.
pub(crate) fn chunk_at(from: &Bounds, k: usize, i: usize, vert_by: i16) -> (r: Bounds)
    requires
        from.sized(),
        1 <= k <= from.height_spec(),
        i < chunk_count(from.height_spec(), k as int),
    ensures
        r == chunk_src(*from, k as int, vert_by as int, i as int),
        r.x_start == from.x_start,
        r.x_end == from.x_end,
        from.y_start <= r.y_start <= r.y_end <= from.y_end,
        1 <= r.height_spec() <= k,
        r.sized(),
        r.area_spec() == r.width_spec() * r.height_spec(),
{
    let height = from.height() as usize;
    let full = height / k;
    let rem = height % k;
    proof {
        vstd::arithmetic::div_mod::lemma_fundamental_div_mod(height as int, k as int);
        vstd::arithmetic::div_mod::lemma_mod_pos_bound(height as int, k as int);
        assert(full * k == k * full) by (nonlinear_arith);
        if i < full {
            assert((i + 1) * k <= full * k) by (nonlinear_arith)
                requires
                    i + 1 <= full,
            ;
            assert(i * k + k == (i + 1) * k) by (nonlinear_arith);
        }
    }
    let (s, n): (usize, usize) = if vert_by > 0 {
        if i < full {
            ((from.y_start as usize) + height - (i + 1) * k, k)
        } else {
            (from.y_start as usize, rem)
        }
    } else {
        if i < full {
            ((from.y_start as usize) + i * k, k)
        } else {
            (from.y_start as usize + full * k, rem)
        }
    };
    Bounds { x_start: from.x_start, x_end: from.x_end, y_start: s as u16, y_end: (s + n - 1) as u16 }
}

/// `b` translated by `horiz_by` and `vert_by`, where that stays on `display`.
pub(crate) fn shift_by(b: &Bounds, horiz_by: i16, vert_by: i16, display: &Bounds) -> (r: Bounds)
    requires
        b.sized(),
        target_fits(*b, horiz_by as int, vert_by as int, *display),
    ensures
        r == shifted(*b, horiz_by as int, vert_by as int),
        r.sized(),
        r.within(*display),
        r.width_spec() == b.width_spec(),
        r.height_spec() == b.height_spec(),
        r.area_spec() == b.area_spec(),
{
    Bounds {
        x_start: (b.x_start as i32 + horiz_by as i32) as u16,
        x_end: (b.x_end as i32 + horiz_by as i32) as u16,
        y_start: (b.y_start as i32 + vert_by as i32) as u16,
        y_end: (b.y_end as i32 + vert_by as i32) as u16,
    }
}

/// Row `y` lies in `b`.
pub open spec fn row_in(b: Bounds, y: int) -> bool {
    b.y_start <= y <= b.y_end
}

/// The rows of `a` and `b` have none in common.
pub open spec fn rows_disjoint(a: Bounds, b: Bounds) -> bool {
    a.y_end < b.y_start || b.y_end < a.y_start
}

pub(crate) proof fn lemma_chunk_facts(from: Bounds, k: int, dy: int, i: int)
    requires
        from.sized(),
        1 <= k <= from.height_spec(),
        0 <= i < chunk_count(from.height_spec(), k),
    ensures
        ({
            let (s, n) = chunk_rows(from, k, dy, i);
            &&& 1 <= n <= k
            &&& from.y_start <= s
            &&& s + n - 1 <= from.y_end
            &&& chunk_src(from, k, dy, i).y_start == s
            &&& chunk_src(from, k, dy, i).y_end == s + n - 1
            &&& chunk_src(from, k, dy, i).area_spec() >= 1
        }),
{
    let h = from.height_spec();
    vstd::arithmetic::div_mod::lemma_fundamental_div_mod(h, k);
    vstd::arithmetic::div_mod::lemma_mod_pos_bound(h, k);
    assert((h / k) * k == k * (h / k)) by (nonlinear_arith);
    if i < h / k {
        assert((i + 1) * k <= (h / k) * k) by (nonlinear_arith)
            requires
                i + 1 <= h / k,
                k >= 1,
        ;
        assert(i * k + k == (i + 1) * k) by (nonlinear_arith);
        assert(i * k >= 0) by (nonlinear_arith)
            requires
                i >= 0,
                k >= 1,
        ;
    }
    let c = chunk_src(from, k, dy, i);
    assert(c.area_spec() >= 1) by (nonlinear_arith)
        requires
            c.width_spec() >= 1,
            c.height_spec() >= 1,
            c.area_spec() == c.width_spec() * c.height_spec(),
    ;
}

/// No chunk of a copy writes to rows that a later chunk reads: where the destination lies
/// below the source the chunks go bottom up, otherwise top down, so each chunk is read before
/// any write lands on its rows.
pub proof fn lemma_copy_order_safe(from: Bounds, k: int, dx: int, dy: int, display: Bounds, i: int, j: int)
    requires
        from.sized(),
        display.wf(),
        target_fits(from, dx, dy, display),
        1 <= k <= from.height_spec(),
        0 <= i < j < chunk_count(from.height_spec(), k),
    ensures
        rows_disjoint(shifted(chunk_src(from, k, dy, i), dx, dy), chunk_src(from, k, dy, j)),
{
    let h = from.height_spec();
    lemma_chunk_facts(from, k, dy, i);
    lemma_chunk_facts(from, k, dy, j);
    vstd::arithmetic::div_mod::lemma_fundamental_div_mod(h, k);
    vstd::arithmetic::div_mod::lemma_mod_pos_bound(h, k);
    assert((h / k) * k == k * (h / k)) by (nonlinear_arith);
    assert((i + 1) * k <= j * k) by (nonlinear_arith)
        requires
            i + 1 <= j,
            k >= 1,
    ;
    assert(i * k + k == (i + 1) * k) by (nonlinear_arith);
    assert(j * k + k == (j + 1) * k) by (nonlinear_arith);
    if j < h / k {
        assert((j + 1) * k <= (h / k) * k) by (nonlinear_arith)
            requires
                j + 1 <= h / k,
                k >= 1,
        ;
    } else {
        assert((i + 1) * k <= (h / k) * k) by (nonlinear_arith)
            requires
                i + 1 <= h / k,
                k >= 1,
        ;
    }
}

/// A copy by no offset reads every row of the source in exactly one chunk, and writes each
/// chunk back onto its own rows. Through a buffer of exactly one row, the chunks are the
/// rows themselves, top to bottom.
pub proof fn lemma_identity_copy(from: Bounds, k: int)
    requires
        from.sized(),
        1 <= k <= from.height_spec(),
    ensures
        forall|i: int|
            0 <= i < chunk_count(from.height_spec(), k) ==> shifted(#[trigger] chunk_src(from, k, 0, i), 0, 0)
                == chunk_src(from, k, 0, i),
        forall|y: int|
            #[trigger] row_in(from, y) ==> exists|i: int|
                0 <= i < chunk_count(from.height_spec(), k) && #[trigger] row_in(chunk_src(from, k, 0, i), y),
        forall|i: int, j: int|
            0 <= i < j < chunk_count(from.height_spec(), k) ==> rows_disjoint(
                #[trigger] chunk_src(from, k, 0, i),
                #[trigger] chunk_src(from, k, 0, j),
            ),
        rows_per_chunk(from.height_spec(), from.width_spec(), from.width_spec()) == 1,
        forall|i: int|
            0 <= i < from.height_spec() ==> #[trigger] chunk_src(from, 1, 0, i) == (Bounds {
                y_start: (from.y_start + i) as u16,
                y_end: (from.y_start + i) as u16,
                ..from
            }),
{
    let h = from.height_spec();
    assert forall|i: int|
        0 <= i < chunk_count(h, k) implies shifted(#[trigger] chunk_src(from, k, 0, i), 0, 0) == chunk_src(from, k, 0, i) by {
        lemma_chunk_facts(from, k, 0, i);
    }
    assert forall|y: int| #[trigger] row_in(from, y) implies exists|i: int|
            0 <= i < chunk_count(h, k) && #[trigger] row_in(chunk_src(from, k, 0, i), y) by {
        let d = y - from.y_start;
        vstd::arithmetic::div_mod::lemma_fundamental_div_mod(d, k);
        vstd::arithmetic::div_mod::lemma_mod_pos_bound(d, k);
        vstd::arithmetic::div_mod::lemma_fundamental_div_mod(h, k);
        vstd::arithmetic::div_mod::lemma_mod_pos_bound(h, k);
        let q = d / k;
        assert(q <= h / k) by {
            vstd::arithmetic::div_mod::lemma_div_is_ordered(d, h, k);
        }
        if q < h / k {
            lemma_chunk_facts(from, k, 0, q);
            assert(q * k == k * q) by (nonlinear_arith);
            assert(row_in(chunk_src(from, k, 0, q), y));
        } else {
            assert(h % k > 0) by (nonlinear_arith)
                requires
                    d < h,
                    q == h / k,
                    d == k * q + d % k,
                    h == k * (h / k) + h % k,
                    d % k >= 0,
            ;
            lemma_chunk_facts(from, k, 0, q);
            assert((h / k) * k == k * (h / k)) by (nonlinear_arith);
            assert(row_in(chunk_src(from, k, 0, q), y));
        }
    }
    assert forall|i: int, j: int|
        0 <= i < j < chunk_count(h, k) implies rows_disjoint(
            #[trigger] chunk_src(from, k, 0, i),
            #[trigger] chunk_src(from, k, 0, j),
        ) by {
        lemma_copy_order_safe(from, k, 0, 0, from, i, j);
        lemma_chunk_facts(from, k, 0, i);
    }
    let w = from.width_spec();
    vstd::arithmetic::div_mod::lemma_div_by_self(w);
    assert forall|i: int| 0 <= i < h implies #[trigger] chunk_src(from, 1, 0, i) == (Bounds {
        y_start: (from.y_start + i) as u16,
        y_end: (from.y_start + i) as u16,
        ..from
    }) by {
        vstd::arithmetic::div_mod::lemma_div_basics(h);
        vstd::arithmetic::div_mod::lemma_mod_pos_bound(h, 1);
        assert(i * 1 == i);
    }
}

pub(crate) proof fn lemma_copy_prefix<I: ReadWriteInterface>(
    from: Bounds,
    k: int,
    dx: int,
    dy: int,
    reads: Seq<Seq<u16>>,
    m: int,
)
    requires
        0 <= m <= reads.len(),
    ensures
        copy_ops::<I>(from, k, dx, dy, reads.take(m)).len() <= copy_ops::<I>(from, k, dx, dy, reads).len(),
        copy_ops::<I>(from, k, dx, dy, reads).take(copy_ops::<I>(from, k, dx, dy, reads.take(m)).len() as int)
            == copy_ops::<I>(from, k, dx, dy, reads.take(m)),
    decreases reads.len() - m,
{
    let all = copy_ops::<I>(from, k, dx, dy, reads);
    if m == reads.len() {
        assert(reads.take(m) =~= reads);
        assert(all.take(all.len() as int) =~= all);
    } else {
        lemma_copy_prefix::<I>(from, k, dx, dy, reads, m + 1);
        let a = copy_ops::<I>(from, k, dx, dy, reads.take(m));
        let b = copy_ops::<I>(from, k, dx, dy, reads.take(m + 1));
        assert(reads.take(m + 1).drop_last() =~= reads.take(m));
        assert(b.take(a.len() as int) =~= a);
        assert(all.take(a.len() as int) =~= all.take(b.len() as int).take(a.len() as int));
    }
}

/// Where a copy stopped on a fault inside chunk `reads.len()`, after `done` of that chunk's
/// operations and part way through `step`, the whole copy stopped part way through its
/// operations for some values read back.
pub(crate) proof fn lemma_copy_stopped<I: ReadWriteInterface>(
    from: Bounds,
    k: int,
    dx: int,
    dy: int,
    reads: Seq<Seq<u16>>,
    vs: Seq<u16>,
    l0: Seq<BusEvent>,
    li: Seq<BusEvent>,
    l2: Seq<BusEvent>,
    done: Seq<BusEvent>,
    step: Seq<BusEvent>,
)
    requires
        from.sized(),
        1 <= k <= from.height_spec(),
        reads.len() < chunk_count(from.height_spec(), k),
        reads_fit(from, k, dy, reads),
        vs.len() == chunk_src(from, k, dy, reads.len() as int).area_spec(),
        li == l0 + copy_ops::<I>(from, k, dx, dy, reads) + done,
        partial(li, l2, step),
        done.len() + step.len() <= (read_ops::<I>(chunk_src(from, k, dy, reads.len() as int), vs)
            + fill_ops::<I>(shifted(chunk_src(from, k, dy, reads.len() as int), dx, dy), vs)).len(),
        (read_ops::<I>(chunk_src(from, k, dy, reads.len() as int), vs) + fill_ops::<I>(
            shifted(chunk_src(from, k, dy, reads.len() as int), dx, dy),
            vs,
        )).take(done.len() + step.len() as int) == done + step,
    ensures
        exists|all: Seq<Seq<u16>>|
            {
                &&& all.len() == chunk_count(from.height_spec(), k)
                &&& reads_fit(from, k, dy, all)
                &&& #[trigger] partial(l0, l2, copy_ops::<I>(from, k, dx, dy, all))
            },
{
    let i = reads.len() as int;
    let count = chunk_count(from.height_spec(), k);
    let filler = Seq::new(
        (count - i - 1) as nat,
        |j: int| Seq::new(chunk_src(from, k, dy, i + 1 + j).area_spec() as nat, |t: int| 0u16),
    );
    let all = reads.push(vs) + filler;
    assert forall|j: int| 0 <= j < all.len() implies #[trigger] all[j].len() == chunk_src(from, k, dy, j).area_spec() by {
        if j < i {
            assert(all[j] == reads[j]);
        } else if j == i {
            assert(all[j] == vs);
        } else {
            lemma_chunk_facts(from, k, dy, j);
            assert(all[j] == filler[j - i - 1]);
        }
    }
    assert(all.take(i + 1) =~= reads.push(vs));
    assert(reads.push(vs).drop_last() =~= reads);
    let before = copy_ops::<I>(from, k, dx, dy, reads);
    let chunk = read_ops::<I>(chunk_src(from, k, dy, i), vs) + fill_ops::<I>(
        shifted(chunk_src(from, k, dy, i), dx, dy),
        vs,
    );
    let upto = copy_ops::<I>(from, k, dx, dy, all.take(i + 1));
    assert(upto =~= before + chunk);
    lemma_copy_prefix::<I>(from, k, dx, dy, all, i + 1);
    let total = copy_ops::<I>(from, k, dx, dy, all);
    let n = (before.len() + done.len() + step.len()) as int;
    assert(total.take(n) =~= total.take(upto.len() as int).take(n));
    assert(upto.take(n) =~= before + chunk.take(done.len() + step.len() as int));
    assert(li =~= l0 + (before + done));
    assert(total.take((before + done).len() + step.len() as int) =~= (before + done) + step);
    lemma_stop_in(l0, li, l2, before + done, step, total);
}

} // verus!
