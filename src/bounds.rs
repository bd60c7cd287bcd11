use core::ops::RangeInclusive;
use vstd::prelude::*;

verus! {

/// Adds a signed or unsigned offset to a coordinate, without wrapping.
pub trait Plus<Rhs>: Sized {
    /// The exact mathematical sum of the coordinate and the offset.
    spec fn sum(self, rhs: Rhs) -> int;

    fn plus(self, rhs: Rhs) -> (r: u16)
        requires
            0 <= self.sum(rhs) <= u16::MAX,
        ensures
            r == self.sum(rhs),
    ;
}

impl Plus<i16> for u16 {
    open spec fn sum(self, rhs: i16) -> int {
        self as int + rhs as int
    }

    fn plus(self, rhs: i16) -> (r: u16) {
        if rhs < 0 {
            self - ((0i32 - rhs as i32) as u16)
        } else {
            self + (rhs as u16)
        }
    }
}

impl Plus<i8> for u16 {
    open spec fn sum(self, rhs: i8) -> int {
        self as int + rhs as int
    }

    fn plus(self, rhs: i8) -> (r: u16) {
        if rhs < 0 {
            self - ((0i16 - rhs as i16) as u16)
        } else {
            self + (rhs as u16)
        }
    }
}

impl Plus<u16> for u16 {
    open spec fn sum(self, rhs: u16) -> int {
        self as int + rhs as int
    }

    fn plus(self, rhs: u16) -> (r: u16) {
        self + rhs
    }
}

impl Plus<u8> for u16 {
    open spec fn sum(self, rhs: u8) -> int {
        self as int + rhs as int
    }

    fn plus(self, rhs: u8) -> (r: u16) {
        self + (rhs as u16)
    }
}

/// One end of a requested range on an axis.
#[derive(PartialEq, Eq, Debug, Clone, Copy)]
pub enum Bound {
    Included(u16),
    Excluded(u16),
    Unbounded,
}

/// The first coordinate that a start bound admits; an unbounded start takes the parent's.
pub open spec fn resolve_start(b: Bound, parent_start: u16) -> int {
    match b {
        Bound::Included(v) => v as int,
        Bound::Excluded(v) => v as int + 1,
        Bound::Unbounded => parent_start as int,
    }
}

/// The last coordinate that an end bound admits; an unbounded end takes the parent's.
pub open spec fn resolve_end(b: Bound, parent_end: u16) -> int {
    match b {
        Bound::Included(v) => v as int,
        Bound::Excluded(v) => v as int - 1,
        Bound::Unbounded => parent_end as int,
    }
}

#[derive(PartialEq, Eq, Debug, Clone, Copy)]
pub struct OutOfBoundsError;

/// An axis-aligned rectangle whose edges are all inclusive.
#[derive(PartialEq, Eq, Debug, Clone, Copy)]
pub struct Bounds {
    pub x_start: u16,
    pub x_end: u16,
    pub y_start: u16,
    pub y_end: u16,
}

impl Bounds {
    /// Starts do not lie past ends.
    pub open spec fn wf(self) -> bool {
        self.x_start <= self.x_end && self.y_start <= self.y_end
    }

    pub open spec fn width_spec(self) -> int {
        self.x_end - self.x_start + 1
    }

    pub open spec fn height_spec(self) -> int {
        self.y_end - self.y_start + 1
    }

    pub open spec fn area_spec(self) -> int {
        self.width_spec() * self.height_spec()
    }

    /// Width and height both fit in a `u16`.
    pub open spec fn sized(self) -> bool {
        self.wf() && self.width_spec() <= u16::MAX && self.height_spec() <= u16::MAX
    }

    pub open spec fn within(self, parent: Bounds) -> bool {
        self.x_start >= parent.x_start && self.x_end <= parent.x_end && self.y_start
            >= parent.y_start && self.y_end <= parent.y_end
    }

    /// Both axes of `self` and `other` share at least one coordinate.
    pub open spec fn overlaps(self, other: Bounds) -> bool {
        other.x_start <= self.x_end && self.x_start <= other.x_end && other.y_start <= self.y_end
            && self.y_start <= other.y_end
    }

    pub open spec fn intersection(self, other: Bounds) -> Bounds {
        Bounds {
            x_start: if self.x_start >= other.x_start { self.x_start } else { other.x_start },
            x_end: if self.x_end <= other.x_end { self.x_end } else { other.x_end },
            y_start: if self.y_start >= other.y_start { self.y_start } else { other.y_start },
            y_end: if self.y_end <= other.y_end { self.y_end } else { other.y_end },
        }
    }

    /// The requested rectangle of `new_within`, or `None` where it is empty or leaves `parent`.
    pub open spec fn resolved(x: (Bound, Bound), y: (Bound, Bound), parent: Bounds) -> Option<
        Bounds,
    > {
        let xs = resolve_start(x.0, parent.x_start);
        let xe = resolve_end(x.1, parent.x_end);
        let ys = resolve_start(y.0, parent.y_start);
        let ye = resolve_end(y.1, parent.y_end);
        if parent.x_start <= xs && xs <= xe && xe <= parent.x_end && parent.y_start <= ys && ys
            <= ye && ye <= parent.y_end {
            Some(Bounds { x_start: xs as u16, x_end: xe as u16, y_start: ys as u16, y_end: ye as u16 })
        } else {
            None
        }
    }

    /// Resolves a pair of axis ranges against `parent`. It fails where a requested start lies
    /// before the parent's start, a requested end after the parent's end, or a range is empty.
    pub fn new_within(x: (Bound, Bound), y: (Bound, Bound), parent: &Bounds) -> (r: Result<
        Self,
        OutOfBoundsError,
    >)
        requires
            parent.wf(),
        ensures
            Self::resolved(x, y, *parent) matches Some(b) ==> r == Ok::<Bounds, OutOfBoundsError>(b),
            Self::resolved(x, y, *parent) is None ==> r is Err,
    {
        let x_start = match resolve_start_exec(x.0, parent.x_start) {
            Some(v) => v,
            None => return Err(OutOfBoundsError),
        };
        if x_start < parent.x_start {
            return Err(OutOfBoundsError);
        }
        let x_end = match resolve_end_exec(x.1, parent.x_end) {
            Some(v) => v,
            None => return Err(OutOfBoundsError),
        };
        if x_end > parent.x_end || x_end < x_start {
            return Err(OutOfBoundsError);
        }
        let y_start = match resolve_start_exec(y.0, parent.y_start) {
            Some(v) => v,
            None => return Err(OutOfBoundsError),
        };
        if y_start < parent.y_start {
            return Err(OutOfBoundsError);
        }
        let y_end = match resolve_end_exec(y.1, parent.y_end) {
            Some(v) => v,
            None => return Err(OutOfBoundsError),
        };
        if y_end > parent.y_end || y_end < y_start {
            return Err(OutOfBoundsError);
        }
        Ok(Self { x_start, x_end, y_start, y_end })
    }

    pub fn width(&self) -> (r: u16)
        requires
            self.wf(),
            self.width_spec() <= u16::MAX,
        ensures
            r == self.width_spec(),
    {
        self.x_end - self.x_start + 1
    }

    pub fn height(&self) -> (r: u16)
        requires
            self.wf(),
            self.height_spec() <= u16::MAX,
        ensures
            r == self.height_spec(),
    {
        self.y_end - self.y_start + 1
    }

    pub fn range_horiz(&self) -> (r: RangeInclusive<u16>)
        ensures
            r@.start == self.x_start,
            r@.end == self.x_end,
            !r@.exhausted,
    {
        RangeInclusive::new(self.x_start, self.x_end)
    }

    pub fn range_vert(&self) -> (r: RangeInclusive<u16>)
        ensures
            r@.start == self.y_start,
            r@.end == self.y_end,
            !r@.exhausted,
    {
        RangeInclusive::new(self.y_start, self.y_end)
    }

    /// Number of pixels, counted in a wider integer.
    pub fn area(&self) -> (r: u32)
        requires
            self.sized(),
        ensures
            r == self.area_spec(),
    {
        let w = self.width() as u32;
        let h = self.height() as u32;
        assert(w * h <= 65535 * 65535) by (nonlinear_arith)
            requires
                w <= 65535,
                h <= 65535,
        ;
        w * h
    }

    /// The rectangle translated by `x` and `y`, each edge computed exactly.
    pub open spec fn moved_by<Px, Py>(self, x: Px, y: Py) -> Bounds where u16: Plus<Px> + Plus<Py> {
        Bounds {
            x_start: self.x_start.sum(x) as u16,
            x_end: self.x_end.sum(x) as u16,
            y_start: self.y_start.sum(y) as u16,
            y_end: self.y_end.sum(y) as u16,
        }
    }

    /// Every edge stays a valid coordinate when translated by `x` and `y`.
    pub open spec fn can_move_by<Px, Py>(self, x: Px, y: Py) -> bool where
        u16: Plus<Px> + Plus<Py>,
     {
        0 <= self.x_start.sum(x) <= u16::MAX && 0 <= self.x_end.sum(x) <= u16::MAX && 0
            <= self.y_start.sum(y) <= u16::MAX && 0 <= self.y_end.sum(y) <= u16::MAX
    }

    /// Translates both edges of each axis.
    pub fn move_by<Px, Py>(&mut self, x: Px, y: Py) -> (r: &mut Self) where
        u16: Plus<Px>,
        u16: Plus<Py>,
        Px: Copy,
        Py: Copy,

        requires
            old(self).can_move_by(x, y),
        ensures
            *r == old(self).moved_by(x, y),
            *final(self) == *final(r),
    {
        self.x_start = self.x_start.plus(x);
        self.x_end = self.x_end.plus(x);
        self.y_start = self.y_start.plus(y);
        self.y_end = self.y_end.plus(y);
        self
    }

    /// The overlapping part of two rectangles, or `None` where some axis has no coordinate in
    /// common.
    pub fn intersect(&self, other: &Self) -> (r: Option<Self>)
        ensures
            r == (if self.overlaps(*other) {
                Some(self.intersection(*other))
            } else {
                None
            }),
    {
        if other.x_start > self.x_end || other.x_end < self.x_start || other.y_start > self.y_end
            || other.y_end < self.y_start {
            return None;
        }
        Some(
            Self {
                x_start: if self.x_start >= other.x_start {
                    self.x_start
                } else {
                    other.x_start
                },
                x_end: if self.x_end <= other.x_end {
                    self.x_end
                } else {
                    other.x_end
                },
                y_start: if self.y_start >= other.y_start {
                    self.y_start
                } else {
                    other.y_start
                },
                y_end: if self.y_end <= other.y_end {
                    self.y_end
                } else {
                    other.y_end
                },
            },
        )
    }

    /// Moves only the end edge of each axis.
    pub fn append<Px, Py>(&mut self, x: Px, y: Py) -> (r: &mut Self) where
        u16: Plus<Px>,
        u16: Plus<Py>,
        Px: Copy,
        Py: Copy,

        requires
            0 <= old(self).x_end.sum(x) <= u16::MAX,
            0 <= old(self).y_end.sum(y) <= u16::MAX,
        ensures
            *r == (Bounds {
                x_end: old(self).x_end.sum(x) as u16,
                y_end: old(self).y_end.sum(y) as u16,
                ..*old(self)
            }),
            *final(self) == *final(r),
    {
        self.x_end = self.x_end.plus(x);
        self.y_end = self.y_end.plus(y);
        self
    }

    /// Keeps the top edge and makes the rectangle `y` rows high.
    pub fn set_height(&mut self, y: u16) -> (r: &mut Self)
        requires
            y >= 1,
            old(self).y_start + y - 1 <= u16::MAX,
        ensures
            *r == (Bounds { y_end: (old(self).y_start + y - 1) as u16, ..*old(self) }),
            *final(self) == *final(r),
    {
        self.y_end = self.y_start + (y - 1);
        self
    }

    /// Keeps the left edge and makes the rectangle `x` columns wide.
    pub fn set_width(&mut self, x: u16) -> (r: &mut Self)
        requires
            x >= 1,
            old(self).x_start + x - 1 <= u16::MAX,
        ensures
            *r == (Bounds { x_end: (old(self).x_start + x - 1) as u16, ..*old(self) }),
            *final(self) == *final(r),
    {
        self.x_end = self.x_start + (x - 1);
        self
    }

    pub fn is_within(&self, parent: Self) -> (r: bool)
        ensures
            r == self.within(parent),
    {
        self.x_start >= parent.x_start && self.x_end <= parent.x_end && self.y_start
            >= parent.y_start && self.y_end <= parent.y_end
    }
}

/// A rectangle that `new_within` accepts lies inside the parent, and where the parent's sides
/// fit in a `u16`, so do its own, and its area is the product of its sides without overflow.
pub proof fn lemma_new_within_contained(x: (Bound, Bound), y: (Bound, Bound), parent: Bounds)
    requires
        parent.sized(),
    ensures
        Bounds::resolved(x, y, parent) matches Some(b) ==> {
            &&& b.wf()
            &&& b.within(parent)
            &&& b.sized()
            &&& b.area_spec() == b.width_spec() * b.height_spec()
            &&& b.area_spec() <= u32::MAX
        },
{
    if let Some(b) = Bounds::resolved(x, y, parent) {
        let w = b.width_spec();
        let h = b.height_spec();
        assert(w * h <= 65535 * 65535) by (nonlinear_arith)
            requires
                1 <= w <= 65535,
                1 <= h <= 65535,
        ;
    }
}

/// Intersection does not depend on the order of its operands, and it is empty exactly where
/// some axis has no coordinate in common.
pub proof fn lemma_intersect_commutative(a: Bounds, b: Bounds)
    ensures
        a.overlaps(b) == b.overlaps(a),
        a.intersection(b) == b.intersection(a),
        !a.overlaps(b) <==> (b.x_start > a.x_end || b.x_end < a.x_start || b.y_start > a.y_end
            || b.y_end < a.y_start),
{
}

/// Translating by an offset and then by its negation gives back the starting rectangle, where
/// every coordinate stays valid on the way.
pub proof fn lemma_move_back(b: Bounds, dx: i16, dy: i16)
    requires
        dx != i16::MIN,
        dy != i16::MIN,
        b.can_move_by(dx, dy),
    ensures
        b.moved_by(dx, dy).can_move_by(-dx as i16, -dy as i16),
        b.moved_by(dx, dy).moved_by(-dx as i16, -dy as i16) == b,
{
}

fn resolve_start_exec(b: Bound, parent_start: u16) -> (r: Option<u16>)
    ensures
        r matches Some(v) ==> v == resolve_start(b, parent_start),
        r is None ==> resolve_start(b, parent_start) > u16::MAX,
{
    match b {
        Bound::Included(v) => Some(v),
        Bound::Excluded(v) => v.checked_add(1),
        Bound::Unbounded => Some(parent_start),
    }
}

fn resolve_end_exec(b: Bound, parent_end: u16) -> (r: Option<u16>)
    ensures
        r matches Some(v) ==> v == resolve_end(b, parent_end),
        r is None ==> resolve_end(b, parent_end) < 0,
{
    match b {
        Bound::Included(v) => Some(v),
        Bound::Excluded(v) => v.checked_sub(1),
        Bound::Unbounded => Some(parent_end),
    }
}

} // verus!
