//! Execution weight and its price.
use vstd::prelude::*;

verus! {

/// An amount of the native currency in its smallest unit.
pub type Balance = u128;

/// The cost of execution: computation time, and the size of the proof of validity.
#[derive(Clone, Copy, Debug, PartialEq, Eq)]
pub struct Weight {
    pub ref_time: u64,
    pub proof_size: u64,
}

/// `a + b`, or the largest `u64` if the sum is larger.
pub open spec fn saturated_sum(a: u64, b: u64) -> u64 {
    if a + b > u64::MAX {
        u64::MAX
    } else {
        (a + b) as u64
    }
}

/// The smaller of two numbers.
pub open spec fn smaller(a: u64, b: u64) -> u64 {
    if a <= b {
        a
    } else {
        b
    }
}

impl Weight {
    /// The component-wise saturated sum.
    pub open spec fn plus(self, other: Weight) -> Weight {
        Weight {
            ref_time: saturated_sum(self.ref_time, other.ref_time),
            proof_size: saturated_sum(self.proof_size, other.proof_size),
        }
    }

    /// The component-wise difference.
    pub open spec fn minus(self, other: Weight) -> Weight {
        Weight {
            ref_time: (self.ref_time - other.ref_time) as u64,
            proof_size: (self.proof_size - other.proof_size) as u64,
        }
    }

    /// The component-wise minimum.
    pub open spec fn meet(self, other: Weight) -> Weight {
        Weight {
            ref_time: smaller(self.ref_time, other.ref_time),
            proof_size: smaller(self.proof_size, other.proof_size),
        }
    }

    /// No component exceeds that of `other`.
    pub open spec fn within(self, other: Weight) -> bool {
        self.ref_time <= other.ref_time && self.proof_size <= other.proof_size
    }

    /// The weight of doing nothing.
    pub fn zero() -> (r: Weight)
        ensures
            r == (Weight { ref_time: 0, proof_size: 0 }),
    {
        Weight { ref_time: 0, proof_size: 0 }
    }

    /// The weight with the given components.
    pub fn from_parts(ref_time: u64, proof_size: u64) -> (r: Weight)
        ensures
            r == (Weight { ref_time, proof_size }),
    {
        Weight { ref_time, proof_size }
    }

    /// Adds component by component, and stays at the largest value where a sum exceeds it.
    pub fn saturating_add(self, other: Weight) -> (r: Weight)
        ensures
            r == self.plus(other),
    {
        Weight {
            ref_time: self.ref_time.saturating_add(other.ref_time),
            proof_size: self.proof_size.saturating_add(other.proof_size),
        }
    }

    /// Takes the smaller value of each component.
    pub fn min(self, other: Weight) -> (r: Weight)
        ensures
            r == self.meet(other),
    {
        Weight {
            ref_time: if self.ref_time <= other.ref_time {
                self.ref_time
            } else {
                other.ref_time
            },
            proof_size: if self.proof_size <= other.proof_size {
                self.proof_size
            } else {
                other.proof_size
            },
        }
    }

    /// Subtracts component by component.
    pub fn subtract(self, other: Weight) -> (r: Weight)
        requires
            other.within(self),
        ensures
            r == self.minus(other),
    {
        Weight {
            ref_time: self.ref_time - other.ref_time,
            proof_size: self.proof_size - other.proof_size,
        }
    }
}

/// A price list for weight.
pub trait WeightToFee {
    /// What the weight costs.
    spec fn fee_of(weight: Weight) -> Balance;

    /// What the weight costs.
    fn weight_to_fee(weight: &Weight) -> (r: Balance)
        ensures
            r == Self::fee_of(*weight),
    ;
}

/// The price list that asks `MULTIPLIER` for each unit of computation time, and nothing for the
/// size of the proof.
pub struct ConstantMultiplier<const MULTIPLIER: u128>;

impl<const MULTIPLIER: u128> WeightToFee for ConstantMultiplier<MULTIPLIER> {
    open spec fn fee_of(weight: Weight) -> Balance {
        if weight.ref_time * MULTIPLIER > u128::MAX {
            u128::MAX
        } else {
            (weight.ref_time * MULTIPLIER) as u128
        }
    }

    fn weight_to_fee(weight: &Weight) -> (r: Balance)
        ensures
            weight.ref_time * MULTIPLIER <= u128::MAX ==> r == weight.ref_time * MULTIPLIER,
            weight.ref_time * MULTIPLIER > u128::MAX ==> r == u128::MAX,
    {
        match (weight.ref_time as u128).checked_mul(MULTIPLIER) {
            Some(fee) => fee,
            None => u128::MAX,
        }
    }
}

/// A sum of weights is the exact sum in each component, or the largest value where that is
/// exceeded.
pub proof fn sums_are_exact_until_they_saturate(a: Weight, b: Weight, r: Weight)
    requires
        call_ensures(Weight::saturating_add, (a, b), r),
    ensures
        a.ref_time + b.ref_time <= u64::MAX ==> r.ref_time == a.ref_time + b.ref_time,
        a.ref_time + b.ref_time > u64::MAX ==> r.ref_time == u64::MAX,
        a.proof_size + b.proof_size <= u64::MAX ==> r.proof_size == a.proof_size + b.proof_size,
        a.proof_size + b.proof_size > u64::MAX ==> r.proof_size == u64::MAX,
        r == a.plus(b),
{
}

/// The smaller of two weights is, in each component, the largest value that exceeds neither.
pub proof fn smaller_weight_exceeds_neither(a: Weight, b: Weight, r: Weight)
    requires
        call_ensures(Weight::min, (a, b), r),
    ensures
        r.ref_time <= a.ref_time && r.ref_time <= b.ref_time,
        r.ref_time == a.ref_time || r.ref_time == b.ref_time,
        r.proof_size <= a.proof_size && r.proof_size <= b.proof_size,
        r.proof_size == a.proof_size || r.proof_size == b.proof_size,
        r == a.meet(b),
{
}

/// What is subtracted from a weight and what is left of it make up the weight.
pub proof fn difference_and_subtrahend_make_up_the_weight(a: Weight, b: Weight, r: Weight)
    requires
        b.ref_time <= a.ref_time,
        b.proof_size <= a.proof_size,
        call_ensures(Weight::subtract, (a, b), r),
    ensures
        call_requires(Weight::subtract, (a, b)),
        r.ref_time + b.ref_time == a.ref_time,
        r.proof_size + b.proof_size == a.proof_size,
        r == a.minus(b),
{
}

/// A weight has the components that it was made of, and none of them is anything for doing
/// nothing.
pub proof fn weights_keep_their_parts(
    ref_time: u64,
    proof_size: u64,
    weight: Weight,
    nothing: Weight,
)
    requires
        call_ensures(Weight::from_parts, (ref_time, proof_size), weight),
        call_ensures(Weight::zero, (), nothing),
    ensures
        weight.ref_time == ref_time,
        weight.proof_size == proof_size,
        nothing.ref_time == 0,
        nothing.proof_size == 0,
{
}

/// A constant multiplier asks exactly so much for each unit of computation time, up to the largest
/// balance, and the size of the proof makes no difference.
pub proof fn computation_time_alone_is_priced<const M: u128>(a: Weight, b: Weight)
    requires
        a.ref_time == b.ref_time,
    ensures
        a.ref_time * M <= u128::MAX ==> ConstantMultiplier::<M>::fee_of(a) == a.ref_time * M,
        a.ref_time * M > u128::MAX ==> ConstantMultiplier::<M>::fee_of(a) == u128::MAX,
        ConstantMultiplier::<M>::fee_of(a) == ConstantMultiplier::<M>::fee_of(b),
{
}

/// Reading the price list gives the price of the computation time, up to the largest balance, and
/// weights that differ in the size of their proof alone cost the same.
pub proof fn prices_are_read_exactly<const M: u128>(
    a: Weight,
    b: Weight,
    r: Balance,
    s: Balance,
)
    requires
        call_ensures(<ConstantMultiplier<M> as WeightToFee>::weight_to_fee, (&a,), r),
        call_ensures(<ConstantMultiplier<M> as WeightToFee>::weight_to_fee, (&b,), s),
    ensures
        r == (if a.ref_time * M <= u128::MAX {
            a.ref_time * M
        } else {
            u128::MAX as int
        }),
        a.ref_time == b.ref_time ==> r == s,
{
}

} // verus!
