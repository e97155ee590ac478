//! The sums that the background worker offers.

use vstd::prelude::*;

verus! {

/// The numbers of `numbers` added up.
pub open spec fn total(numbers: Seq<i32>) -> int
    decreases numbers.len(),
{
    if numbers.len() == 0 {
        0
    } else {
        total(numbers.drop_last()) + numbers.last()
    }
}

/// Whether the numbers can be added one after the other without leaving 32
/// bits on the way.
pub open spec fn every_prefix_fits(numbers: Seq<i32>) -> bool {
    forall|to: int|
        0 <= to <= numbers.len() ==> i32::MIN <= #[trigger] total(numbers.take(to)) <= i32::MAX
}

/// Twice `num`.
pub fn double(num: u8) -> (out: u8)
    requires
        2 * num <= u8::MAX,
    ensures
        out == 2 * num,
{
    num * 2u8
}

/// Twice `num`, or nothing where that does not fit in 8 bits.
pub fn checked_double(num: u8) -> (out: Option<u8>)
    ensures
        out == if 2 * num <= u8::MAX {
            Some((2 * num) as u8)
        } else {
            None
        },
{
    if num <= u8::MAX / 2 {
        Some(double(num))
    } else {
        None
    }
}

/// The numbers of `numbers` added up, one after the other.
pub fn sum(numbers: &[i32]) -> (out: i32)
    requires
        every_prefix_fits(numbers@),
    ensures
        out == total(numbers@),
{
    let n: usize = numbers.len();
    let mut out: i32 = 0;
    let mut i: usize = 0;
    proof {
        assert(numbers@.take(0).len() == 0);
    }
    while i < n
        invariant
            n == numbers@.len(),
            i <= n,
            every_prefix_fits(numbers@),
            out == total(numbers@.take(i as int)),
        decreases n - i,
    {
        proof {
            let next = numbers@.take(i as int + 1);
            assert(next.drop_last() =~= numbers@.take(i as int));
            assert(next.last() == numbers@[i as int]);
            assert(i32::MIN <= total(next) <= i32::MAX);
        }
        out = out + numbers[i];
        i += 1;
    }
    proof {
        assert(numbers@.take(n as int) =~= numbers@);
    }
    out
}

/// The numbers of `numbers` added up, one after the other, or nothing
/// where a sum on the way leaves 32 bits.
pub fn checked_sum(numbers: &[i32]) -> (out: Option<i32>)
    ensures
        out is Some <==> every_prefix_fits(numbers@),
        out matches Some(t) ==> t == total(numbers@),
{
    let n: usize = numbers.len();
    let mut acc: i32 = 0;
    let mut i: usize = 0;
    proof {
        assert(numbers@.take(0).len() == 0);
    }
    while i < n
        invariant
            n == numbers@.len(),
            i <= n,
            acc == total(numbers@.take(i as int)),
            forall|to: int|
                0 <= to <= i ==> i32::MIN <= #[trigger] total(numbers@.take(to)) <= i32::MAX,
        decreases n - i,
    {
        proof {
            let next = numbers@.take(i as int + 1);
            assert(next.drop_last() =~= numbers@.take(i as int));
            assert(next.last() == numbers@[i as int]);
        }
        match acc.checked_add(numbers[i]) {
            Some(next) => {
                acc = next;
            },
            None => {
                assert(!(i32::MIN <= total(numbers@.take(i as int + 1)) <= i32::MAX));
                return None;
            },
        }
        i += 1;
    }
    proof {
        assert(numbers@.take(n as int) =~= numbers@);
    }
    Some(acc)
}

} // verus!
