use vstd::prelude::*;

verus! {

/// Marks `N` as a valid bit position of the implementing type.
pub trait BitIndex<const N: usize> {

}

impl BitIndex<0> for u8 {

}

impl BitIndex<1> for u8 {

}

impl BitIndex<2> for u8 {

}

impl BitIndex<3> for u8 {

}

impl BitIndex<4> for u8 {

}

impl BitIndex<5> for u8 {

}

impl BitIndex<6> for u8 {

}

impl BitIndex<7> for u8 {

}

/// `v` with bit `n` (counted from the least significant) set to `val`, the other bits kept.
pub open spec fn with_bit(v: u8, n: u8, val: bool) -> u8 {
    if val {
        v | (1u8 << n)
    } else {
        v & !(1u8 << n)
    }
}

/// Sets one bit of a value.
pub trait SetBit: Sized {
    /// The value with bit `n` set to `val`.
    spec fn bit_set(self, n: u8, val: bool) -> u8;

    fn set_bit<const N: usize>(self, val: bool) -> (r: u8) where Self: BitIndex<N>
        requires
            N < 8,
        ensures
            r == self.bit_set(N as u8, val),
    ;
}

impl SetBit for u8 {
    open spec fn bit_set(self, n: u8, val: bool) -> u8 {
        with_bit(self, n, val)
    }

    fn set_bit<const N: usize>(self, val: bool) -> (r: u8) where Self: BitIndex<N> {
        let n = N as u8;
        let bit: u8 = if val {
            1u8 << n
        } else {
            0
        };
        let r = self & !(1u8 << n) | bit;
        if val {
            assert(r == self | (1u8 << n)) by (bit_vector)
                requires
                    n < 8,
                    bit == 1u8 << n,
                    r == self & !(1u8 << n) | bit,
            ;
        } else {
            assert(r == self & !(1u8 << n)) by (bit_vector)
                requires
                    bit == 0,
                    r == self & !(1u8 << n) | bit,
            ;
        }
        r
    }
}

} // verus!
