use vstd::prelude::*;
use vstd::std_specs::cmp::PartialOrdIs;
use vstd::std_specs::cmp::PartialOrdSpec;

use crate::valid_err::ValidErr;
use crate::valid_result::VResult;
use crate::valid_result::adapter_shape;

verus! {

/// `lower <= v <= upper` under the type's partial order. A value that is
/// incomparable with a bound is not in bounds.
pub open spec fn in_bounds<T: PartialOrd>(lower: &T, v: &T, upper: &T) -> bool {
    lower.is_le(v) && v.is_le(upper)
}

/// The range adapter: accepts each accepted element exactly when it lies
/// between the two inclusive bounds under the type's partial order, and
/// rejects it as `OutOfBounds` otherwise — so a value incomparable with a
/// bound is rejected. Rejections coming in pass through unchanged.
pub struct Between<T: PartialOrd> {
    pub lower_bound: T,
    pub upper_bound: T,
}

impl<T: PartialOrd> Between<T> {
    pub fn new(lower_bound: T, upper_bound: T) -> (r: Between<T>)
        ensures
            r.lower_bound == lower_bound,
            r.upper_bound == upper_bound,
    {
        Between { lower_bound, upper_bound }
    }

    /// One outcome through the adapter. Where the element type's comparison
    /// obeys its specification, an accepted element stays accepted exactly
    /// when it lies in the inclusive range; in any case it either stays or
    /// comes out as `OutOfBounds` carrying the element, and a rejection
    /// passes through untouched.
    pub fn feed(&self, item: VResult<T>) -> (out: VResult<T>)
        ensures
            item is Err ==> out == item,
            item matches Ok(v) ==> out == item || out == Err::<T, ValidErr<T>>(
                ValidErr::OutOfBounds(v),
            ),
            T::obeys_partial_cmp_spec() ==> (item matches Ok(v) ==> out == if in_bounds(
                &self.lower_bound,
                &v,
                &self.upper_bound,
            ) {
                item
            } else {
                Err::<T, ValidErr<T>>(ValidErr::OutOfBounds(v))
            }),
    {
        match item {
            Ok(v) => {
                if self.lower_bound.le(&v) && v.le(&self.upper_bound) {
                    Ok(v)
                } else {
                    Err(ValidErr::OutOfBounds(v))
                }
            },
            Err(e) => Err(e),
        }
    }

    /// A whole sequence through the adapter, one outcome per input, in
    /// order; range inclusivity holds at every position.
    pub fn run(&self, items: Vec<VResult<T>>) -> (out: Vec<VResult<T>>)
        ensures
            adapter_shape(items@, out@),
            forall|i: int|
                0 <= i < out@.len() ==> (#[trigger] items@[i] matches Ok(v) ==> (out@[i] == items@[i]
                    || out@[i] == Err::<T, ValidErr<T>>(ValidErr::OutOfBounds(v)))),
            T::obeys_partial_cmp_spec() ==> forall|i: int|
                0 <= i < out@.len() ==> (#[trigger] items@[i] matches Ok(v) ==> out@[i]
                    == if in_bounds(&self.lower_bound, &v, &self.upper_bound) {
                    items@[i]
                } else {
                    Err::<T, ValidErr<T>>(ValidErr::OutOfBounds(v))
                }),
    {
        let ghost start = items@;
        let mut items = items;
        let mut out: Vec<VResult<T>> = Vec::new();
        while items.len() > 0
            invariant
                items@ =~= start.skip(out@.len() as int),
                out@.len() <= start.len(),
                forall|i: int|
                    0 <= i < out@.len() ==> (#[trigger] out@[i] is Ok ==> out@[i] == start[i]),
                forall|i: int|
                    0 <= i < out@.len() ==> (#[trigger] start[i] is Err ==> out@[i] == start[i]),
                forall|i: int|
                    0 <= i < out@.len() ==> (#[trigger] start[i] matches Ok(v) ==> (out@[i]
                        == start[i] || out@[i] == Err::<T, ValidErr<T>>(ValidErr::OutOfBounds(v)))),
                T::obeys_partial_cmp_spec() ==> forall|i: int|
                    0 <= i < out@.len() ==> (#[trigger] start[i] matches Ok(v) ==> out@[i]
                        == if in_bounds(&self.lower_bound, &v, &self.upper_bound) {
                        start[i]
                    } else {
                        Err::<T, ValidErr<T>>(ValidErr::OutOfBounds(v))
                    }),
            decreases items@.len(),
        {
            let ghost k = out@.len() as int;
            let item = items.remove(0);
            proof {
                assert(item == start.skip(k)[0]);
                assert(start.skip(k)[0] == start[k]);
                assert(items@ =~= start.skip(k + 1));
            }
            let checked = self.feed(item);
            out.push(checked);
        }
        out
    }
}

} // verus!
