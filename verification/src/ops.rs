//! Strided reductions over slices, with their mathematical model.
//!
//! A stride `step >= 1` selects the indices `0, step, 2 * step, ...` of a
//! slice; `sum_step` adds the selected elements and `product_step`
//! multiplies them. An empty slice or a stride of zero yields the element
//! type's zero value.

use vstd::prelude::*;
use crate::numeric::Numeric;

verus! {

/// The mathematical values of a sequence of elements.
pub open spec fn int_view<T: Numeric>(s: Seq<T>) -> Seq<int> {
    s.map_values(|x: T| x.as_int())
}

/// How many indices of the form `i * step` lie below `len`; that is, how
/// many elements a stride of `step` selects from a slice of length `len`.
pub open spec fn strided_terms(len: nat, step: nat) -> nat {
    if len == 0 || step == 0 {
        0
    } else {
        (((len - 1) / step as int) + 1) as nat
    }
}

/// The sum of the first `k` selected values: `s[0] + s[step] + ... +
/// s[(k - 1) * step]`. The partial sums of a strided summation are
/// exactly `strided_sum_upto(s, step, k)` for `k` up to the number of
/// selected indices.
pub open spec fn strided_sum_upto(s: Seq<int>, step: nat, k: nat) -> int
    decreases k,
{
    if k == 0 {
        0
    } else {
        strided_sum_upto(s, step, (k - 1) as nat) + s[(k - 1) * step]
    }
}

/// The strided sum of a whole sequence: the sum of the values at the
/// indices `0, step, 2 * step, ...`, and `0` when the sequence is empty
/// or the stride is zero.
pub open spec fn strided_sum(s: Seq<int>, step: nat) -> int {
    strided_sum_upto(s, step, strided_terms(s.len(), step))
}

/// The product of the first `k` selected values: `s[0] * s[step] * ... *
/// s[(k - 1) * step]`, with the empty product equal to `1`. The running
/// products of a strided multiplication are exactly
/// `strided_product_upto(s, step, k)` for `k` from `1` up to the number
/// of selected indices.
pub open spec fn strided_product_upto(s: Seq<int>, step: nat, k: nat) -> int
    decreases k,
{
    if k == 0 {
        1
    } else {
        strided_product_upto(s, step, (k - 1) as nat) * s[(k - 1) * step]
    }
}

/// The strided product of a whole sequence: the product of the values at
/// the indices `0, step, 2 * step, ...`, and `0` (not `1`) when the
/// sequence is empty or the stride is zero.
pub open spec fn strided_product(s: Seq<int>, step: nat) -> int {
    if s.len() == 0 || step == 0 {
        0
    } else {
        strided_product_upto(s, step, strided_terms(s.len(), step))
    }
}

/// Every partial sum of a strided summation stays within the element
/// type's range, so no accumulation step can overflow.
pub open spec fn sum_partials_in_range<T: Numeric>(s: Seq<T>, step: nat) -> bool {
    forall|k: nat|
        k <= strided_terms(s.len(), step) ==> T::min_int() <= #[trigger] strided_sum_upto(
            int_view(s),
            step,
            k,
        ) <= T::max_int()
}

/// Every running product of a strided multiplication stays within the
/// element type's range, so no accumulation step can overflow. The
/// running products start at `k == 1`, the first element itself.
pub open spec fn product_partials_in_range<T: Numeric>(s: Seq<T>, step: nat) -> bool {
    forall|k: nat|
        1 <= k <= strided_terms(s.len(), step) ==> T::min_int() <= #[trigger] strided_product_upto(
            int_view(s),
            step,
            k,
        ) <= T::max_int()
}

/// Sums the elements of a slice found at the indices `0, step,
/// 2 * step, ...`, starting from the element type's zero value.
///
/// If the slice is empty or the step is equal to zero, returns the zero
/// value of the element type.
pub fn slice_sum_step<T: Numeric>(s: &[T], step: usize) -> (r: T)
    requires
        sum_partials_in_range(s@, step as nat),
    ensures
        r.as_int() == strided_sum(int_view(s@), step as nat),
{
    let mut res: T = T::zero();
    if step == 0 {
        return res;
    }
    let length: usize = s.len();
    let ghost ints = int_view(s@);
    let mut idx: usize = 0;
    let ghost mut i: nat = 0;
    while idx < length
        invariant
            step >= 1,
            length == s@.len(),
            ints == int_view(s@),
            idx == i * step,
            i <= strided_terms(length as nat, step as nat),
            res.as_int() == strided_sum_upto(ints, step as nat, i),
            sum_partials_in_range(s@, step as nat),
        decreases length - idx,
    {
        proof {
            lemma_below_terms(length as nat, step as nat, i);
        }
        let x: T = *vstd::slice::slice_index_get(s, idx);
        proof {
            assert(ints[idx as int] == x.as_int());
            assert(strided_sum_upto(ints, step as nat, i + 1) == strided_sum_upto(
                ints,
                step as nat,
                i,
            ) + ints[i * step]);
        }
        res.add_in_place(x);
        proof {
            i = i + 1;
        }
        if length - idx <= step {
            proof {
                assert(i * step == (i - 1) * step + step) by (nonlinear_arith);
                lemma_at_or_above_terms(length as nat, step as nat, i);
            }
            return res;
        }
        proof {
            assert(i * step == (i - 1) * step + step) by (nonlinear_arith);
        }
        idx = idx + step;
    }
    proof {
        lemma_at_or_above_terms(length as nat, step as nat, i);
    }
    res
}

/// Multiplies the elements of a slice found at the indices `0, step,
/// 2 * step, ...`.
///
/// If the slice is empty or the step is equal to zero, returns the zero
/// value of the element type. Otherwise the accumulation is seeded with
/// the first element, not with the zero value: the zero value is no
/// multiplicative identity, and seeding from it would turn every product
/// into zero.
pub fn slice_product_step<T: Numeric>(s: &[T], step: usize) -> (r: T)
    requires
        product_partials_in_range(s@, step as nat),
    ensures
        r.as_int() == strided_product(int_view(s@), step as nat),
{
    let length: usize = s.len();
    if step == 0 || length == 0 {
        let res: T = T::zero();
        return res;
    }
    let ghost ints = int_view(s@);
    let mut res: T = *vstd::slice::slice_index_get(s, 0);
    proof {
        res.lemma_in_range();
        lemma_below_terms(length as nat, step as nat, 0);
        assert(strided_product_upto(ints, step as nat, 1) == strided_product_upto(
            ints,
            step as nat,
            0,
        ) * ints[0]);
    }
    if length <= step {
        proof {
            lemma_at_or_above_terms(length as nat, step as nat, 1);
        }
        return res;
    }
    let mut idx: usize = step;
    let ghost mut i: nat = 1;
    while idx < length
        invariant
            step >= 1,
            length == s@.len(),
            length >= 1,
            ints == int_view(s@),
            idx == i * step,
            1 <= i <= strided_terms(length as nat, step as nat),
            res.as_int() == strided_product_upto(ints, step as nat, i),
            product_partials_in_range(s@, step as nat),
        decreases length - idx,
    {
        proof {
            lemma_below_terms(length as nat, step as nat, i);
        }
        let x: T = *vstd::slice::slice_index_get(s, idx);
        proof {
            assert(ints[idx as int] == x.as_int());
            assert(strided_product_upto(ints, step as nat, i + 1) == strided_product_upto(
                ints,
                step as nat,
                i,
            ) * ints[i * step]);
        }
        res.mul_in_place(x);
        proof {
            i = i + 1;
        }
        if length - idx <= step {
            proof {
                assert(i * step == (i - 1) * step + step) by (nonlinear_arith);
                lemma_at_or_above_terms(length as nat, step as nat, i);
            }
            return res;
        }
        proof {
            assert(i * step == (i - 1) * step + step) by (nonlinear_arith);
        }
        idx = idx + step;
    }
    proof {
        lemma_at_or_above_terms(length as nat, step as nat, i);
    }
    res
}

/// An item summing trait.
pub trait ItemSum: Sized {
    type Item;

    /// When `sum_step` may be called.
    spec fn sum_req(self, step: usize) -> bool;

    /// What `sum_step` returns.
    spec fn sum_ens(self, step: usize, r: Self::Item) -> bool;

    /// Method for summing items with a specified step.
    fn sum_step(self, step: usize) -> (r: Self::Item)
        requires
            self.sum_req(step),
        ensures
            self.sum_ens(step, r),
    ;
}

impl<'a, T: Numeric> ItemSum for &'a [T] {
    type Item = T;

    /// Every partial sum stays within the element type's range.
    open spec fn sum_req(self, step: usize) -> bool {
        sum_partials_in_range(self@, step as nat)
    }

    /// The result models the strided sum of the slice: the sum of the
    /// elements at the indices `0, step, 2 * step, ...`, and zero when
    /// the slice is empty or the step is zero.
    open spec fn sum_ens(self, step: usize, r: T) -> bool {
        r.as_int() == strided_sum(int_view(self@), step as nat)
    }

    /// Sums elements of a slice with a specified step.
    ///
    /// If a slice is empty or a step is equal to zero,
    /// returns the zero value of the item type.
    fn sum_step(self, step: usize) -> (r: T) {
        slice_sum_step(self, step)
    }
}

/// An item multiplying trait.
pub trait ItemProduct: Sized {
    type Item;

    /// When `product_step` may be called.
    spec fn product_req(self, step: usize) -> bool;

    /// What `product_step` returns.
    spec fn product_ens(self, step: usize, r: Self::Item) -> bool;

    /// Method for multiplying items with a specified step.
    fn product_step(self, step: usize) -> (r: Self::Item)
        requires
            self.product_req(step),
        ensures
            self.product_ens(step, r),
    ;
}

impl<'a, T: Numeric> ItemProduct for &'a [T] {
    type Item = T;

    /// Every running product stays within the element type's range.
    open spec fn product_req(self, step: usize) -> bool {
        product_partials_in_range(self@, step as nat)
    }

    /// The result models the strided product of the slice: the product
    /// of the elements at the indices `0, step, 2 * step, ...`, and zero
    /// when the slice is empty or the step is zero.
    open spec fn product_ens(self, step: usize, r: T) -> bool {
        r.as_int() == strided_product(int_view(self@), step as nat)
    }

    /// Multiplies elements of a slice with a specified step.
    ///
    /// If a slice is empty or a step is equal to zero,
    /// returns the zero value of the item type.
    fn product_step(self, step: usize) -> (r: T) {
        slice_product_step(self, step)
    }
}

/// A strided sum over an empty sequence is zero, whatever the stride.
pub proof fn lemma_strided_sum_empty(s: Seq<int>, step: nat)
    requires
        s.len() == 0,
    ensures
        strided_sum(s, step) == 0,
{
}

/// A strided sum with stride zero is zero, whatever the sequence.
pub proof fn lemma_strided_sum_zero_stride(s: Seq<int>)
    ensures
        strided_sum(s, 0) == 0,
{
}

/// A strided product over an empty sequence, or with stride zero, is
/// zero: those cases yield the zero value, not the empty product.
pub proof fn lemma_strided_product_trivial(s: Seq<int>, step: nat)
    requires
        s.len() == 0 || step == 0,
    ensures
        strided_product(s, step) == 0,
{
}

/// With a positive stride no shorter than the sequence, only index `0`
/// is selected: both reductions yield exactly the first element.
pub proof fn lemma_first_element_only(s: Seq<int>, step: nat)
    requires
        1 <= s.len() <= step,
    ensures
        strided_sum(s, step) == s[0],
        strided_product(s, step) == s[0],
{
    lemma_below_terms(s.len(), step, 0);
    lemma_at_or_above_terms(s.len(), step, 1);
    assert(strided_sum_upto(s, step, 1) == strided_sum_upto(s, step, 0) + s[0]);
    assert(strided_product_upto(s, step, 1) == strided_product_upto(s, step, 0) * s[0]);
}

/// A strided product over a single-element sequence is that element,
/// whatever the positive stride.
pub proof fn lemma_strided_product_single(s: Seq<int>, step: nat)
    requires
        s.len() == 1,
        step >= 1,
    ensures
        strided_product(s, step) == s[0],
{
    lemma_first_element_only(s, step);
}

/// The summation is deterministic: any two results that satisfy its
/// contract on the same slice and stride are the same value.
pub proof fn lemma_sum_step_deterministic<T: Numeric>(s: Seq<T>, step: nat, r1: T, r2: T)
    requires
        r1.as_int() == strided_sum(int_view(s), step),
        r2.as_int() == strided_sum(int_view(s), step),
    ensures
        r1 == r2,
{
    r1.lemma_as_int_injective(r2);
}

/// The multiplication is deterministic: any two results that satisfy its
/// contract on the same slice and stride are the same value.
pub proof fn lemma_product_step_deterministic<T: Numeric>(s: Seq<T>, step: nat, r1: T, r2: T)
    requires
        r1.as_int() == strided_product(int_view(s), step),
        r2.as_int() == strided_product(int_view(s), step),
    ensures
        r1 == r2,
{
    r1.lemma_as_int_injective(r2);
}

/// An index `i * step` below `len` means `i` is not yet the number of
/// selected indices.
proof fn lemma_below_terms(len: nat, step: nat, i: nat)
    requires
        step >= 1,
        i * step < len,
    ensures
        i < strided_terms(len, step),
{
    assert(step * i == i * step) by (nonlinear_arith);
    vstd::arithmetic::div_mod::lemma_div_multiples_vanish(i as int, step as int);
    vstd::arithmetic::div_mod::lemma_div_is_ordered(
        (i * step) as int,
        len - 1,
        step as int,
    );
}

/// An index `i * step` at or past `len` means all selected indices lie
/// below `i * step`, so there are at most `i` of them.
proof fn lemma_at_or_above_terms(len: nat, step: nat, i: nat)
    requires
        step >= 1,
        len <= i * step,
    ensures
        strided_terms(len, step) <= i,
{
    if len > 0 {
        assert(i >= 1) by (nonlinear_arith)
            requires
                step >= 1,
                1 <= i * step,
        ;
        assert(i * step == step * (i - 1) + step) by (nonlinear_arith);
        vstd::arithmetic::div_mod::lemma_div_multiples_vanish_fancy(
            i - 1,
            step - 1,
            step as int,
        );
        vstd::arithmetic::div_mod::lemma_div_is_ordered(
            len - 1,
            step * (i - 1) + step - 1,
            step as int,
        );
    }
}

} // verus!
