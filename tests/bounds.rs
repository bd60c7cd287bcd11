use ssd1963::bit_twiddling::SetBit;
use ssd1963::{Bound, Bounds, OutOfBoundsError};

fn b(x_start: u16, x_end: u16, y_start: u16, y_end: u16) -> Bounds {
    Bounds {
        x_start,
        x_end,
        y_start,
        y_end,
    }
}

fn parent() -> Bounds {
    b(0, 799, 0, 479)
}

#[test]
fn bits() {
    assert_eq!(0u8.set_bit::<0>(true), 1);
    assert_eq!(0u8.set_bit::<1>(true), 2);
    assert_eq!(1u8.set_bit::<1>(true), 3);
    assert_eq!(1u8.set_bit::<0>(false), 0);
    assert_eq!(1u8.set_bit::<1>(false), 1);
}

#[test]
fn set_bit_keeps_other_bits() {
    assert_eq!(0b1010_1010u8.set_bit::<7>(false), 0b0010_1010);
    assert_eq!(0b1010_1010u8.set_bit::<0>(true), 0b1010_1011);
    assert_eq!(0xFFu8.set_bit::<3>(true), 0xFF);
}

#[test]
fn set_height() {
    assert_eq!(b(0u16, 0u16, 0u16, 0u16).set_height(2u16), &b(0, 0, 0, 1));
}

#[test]
fn set_width() {
    assert_eq!(b(0u16, 0u16, 0u16, 0u16).set_width(2u16), &b(0, 1, 0, 0));
}

#[test]
fn append() {
    assert_eq!(b(0u16, 0u16, 0u16, 0u16).append(5u16, 5u16), &b(0, 5, 0, 5));
    assert_eq!(b(0u16, 1u16, 0u16, 1u16).append(-1i16, -1i16), &b(0, 0, 0, 0));
}

#[test]
fn width() {
    assert_eq!(b(0u16, 1u16, 0u16, 1u16).width(), 2);
}

#[test]
fn height() {
    assert_eq!(b(0u16, 1u16, 0u16, 1u16).height(), 2);
}

#[test]
fn intersect() {
    assert_eq!(b(0u16, 0u16, 0u16, 0u16).intersect(&b(1, 1, 1, 1)), None);
    assert_eq!(b(0u16, 2u16, 0u16, 2u16).intersect(&b(1, 10, 1, 10)), Some(b(1, 2, 1, 2)));
}

#[test]
fn intersect_is_commutative() {
    let pairs = [
        (b(0, 2, 0, 2), b(1, 10, 1, 10)),
        (b(0, 0, 0, 0), b(1, 1, 1, 1)),
        (b(5, 9, 0, 3), b(0, 5, 3, 8)),
        (b(5, 9, 0, 3), b(0, 4, 0, 3)),
        (b(0, 100, 0, 100), b(10, 20, 30, 40)),
    ];
    for (x, y) in pairs.iter() {
        assert_eq!(x.intersect(y), y.intersect(x));
    }
    // Touching edges overlap on one coordinate.
    assert_eq!(b(5, 9, 0, 3).intersect(&b(0, 5, 3, 8)), Some(b(5, 5, 3, 3)));
    // Disjoint on one axis only.
    assert_eq!(b(5, 9, 0, 3).intersect(&b(0, 4, 0, 3)), None);
}

#[test]
fn move_by_and_back() {
    let start = b(10, 20, 30, 40);
    let mut m = start;
    m.move_by(-10i16, 25i16);
    assert_eq!(m, b(0, 10, 55, 65));
    m.move_by(10i16, -25i16);
    assert_eq!(m, start);
    let mut n = start;
    n.move_by(3u8, 4u16).move_by(-3i8, -4i16);
    assert_eq!(n, start);
}

#[test]
fn area_is_width_times_height() {
    assert_eq!(b(0, 799, 0, 479).area(), 800 * 480);
    assert_eq!(b(3, 3, 7, 7).area(), 1);
    let big = b(0, 65534, 0, 65534);
    assert_eq!(big.width(), 65535);
    assert_eq!(big.area(), 65535u32 * 65535u32);
}

#[test]
fn ranges() {
    assert_eq!(b(1, 2, 3, 4).range_horiz(), 1..=2);
    assert_eq!(b(1, 2, 3, 4).range_vert(), 3..=4);
}

#[test]
fn is_within_parent() {
    assert!(b(0, 799, 0, 479).is_within(parent()));
    assert!(b(10, 20, 10, 20).is_within(parent()));
    assert!(!b(10, 800, 10, 20).is_within(parent()));
    assert!(!b(10, 20, 10, 480).is_within(parent()));
}

#[test]
fn new_within_resolves_ranges() {
    let all = (Bound::Unbounded, Bound::Unbounded);
    assert_eq!(Bounds::new_within(all, all, &parent()), Ok(parent()));
    let half_open = (Bound::Included(10), Bound::Excluded(20));
    let closed = (Bound::Included(5), Bound::Included(5));
    let r = Bounds::new_within(half_open, closed, &parent()).unwrap();
    assert_eq!(r, b(10, 19, 5, 5));
    assert!(r.is_within(parent()));
    assert_eq!(r.width() as u32 * r.height() as u32, r.area());
    let open = (Bound::Excluded(10), Bound::Excluded(20));
    assert_eq!(Bounds::new_within(open, all, &parent()), Ok(b(11, 19, 0, 479)));
    let from = (Bound::Included(700), Bound::Unbounded);
    assert_eq!(Bounds::new_within(from, all, &parent()), Ok(b(700, 799, 0, 479)));
}

#[test]
fn new_within_rejects_outside() {
    let all = (Bound::Unbounded, Bound::Unbounded);
    let inner = b(10, 20, 10, 20);
    assert_eq!(
        Bounds::new_within((Bound::Included(9), Bound::Unbounded), all, &inner),
        Err(OutOfBoundsError)
    );
    assert_eq!(
        Bounds::new_within(all, (Bound::Unbounded, Bound::Included(21)), &inner),
        Err(OutOfBoundsError)
    );
    assert_eq!(
        Bounds::new_within((Bound::Included(0), Bound::Excluded(800)), all, &parent()),
        Ok(parent())
    );
    assert_eq!(
        Bounds::new_within((Bound::Included(0), Bound::Included(800)), all, &parent()),
        Err(OutOfBoundsError)
    );
    // Empty ranges have no rectangle.
    assert_eq!(
        Bounds::new_within((Bound::Included(5), Bound::Excluded(5)), all, &parent()),
        Err(OutOfBoundsError)
    );
    assert_eq!(
        Bounds::new_within((Bound::Excluded(65535), Bound::Unbounded), all, &b(0, 65535, 0, 10)),
        Err(OutOfBoundsError)
    );
}
