use vstd::prelude::*;

use crate::valid_err::ValidErr;
use crate::valid_result::VResult;
use crate::valid_result::adapter_shape;

verus! {

/// The predicate adapter: checks every accepted element against a boolean
/// rule, rejecting as `Invalid` the elements for which it returns false.
/// Rejections coming in pass through unchanged.
pub struct Ensure<T, F: Fn(&T) -> bool> {
    validation: F,
    _marker: core::marker::PhantomData<T>,
}

impl<T, F: Fn(&T) -> bool> Ensure<T, F> {
    /// The rule the accepted elements are checked against.
    pub closed spec fn rule(&self) -> F {
        self.validation
    }

    pub fn new(validation: F) -> (r: Ensure<T, F>)
        ensures
            r.rule() == validation,
    {
        Ensure { validation, _marker: core::marker::PhantomData }
    }

    /// One outcome through the adapter: an accepted element stays accepted
    /// exactly when the rule returned true of it, and a rejection passes
    /// through untouched.
    pub fn feed(&self, item: VResult<T>) -> (out: VResult<T>)
        requires
            item matches Ok(v) ==> call_requires(self.rule(), (&v,)),
        ensures
            item is Err ==> out == item,
            item matches Ok(v) ==> ((out == item && call_ensures(self.rule(), (&v,), true)) || (out
                == Err::<T, ValidErr<T>>(ValidErr::Invalid(v)) && call_ensures(
                self.rule(),
                (&v,),
                false,
            ))),
    {
        match item {
            Ok(v) => {
                if (self.validation)(&v) {
                    Ok(v)
                } else {
                    Err(ValidErr::Invalid(v))
                }
            },
            Err(e) => Err(e),
        }
    }

    /// A whole sequence through the adapter, one outcome per input, in order.
    pub fn run(&self, items: Vec<VResult<T>>) -> (out: Vec<VResult<T>>)
        requires
            forall|i: int|
                0 <= i < items@.len() ==> (#[trigger] items@[i] matches Ok(v) ==> call_requires(
                    self.rule(),
                    (&v,),
                )),
        ensures
            adapter_shape(items@, out@),
            forall|i: int|
                0 <= i < out@.len() ==> (#[trigger] items@[i] matches Ok(v) ==> ((out@[i]
                    == items@[i] && call_ensures(self.rule(), (&v,), true)) || (out@[i] == Err::<
                    T,
                    ValidErr<T>,
                >(ValidErr::Invalid(v)) && call_ensures(self.rule(), (&v,), false)))),
    {
        let ghost start = items@;
        let mut items = items;
        let mut out: Vec<VResult<T>> = Vec::new();
        while items.len() > 0
            invariant
                forall|i: int|
                    0 <= i < start.len() ==> (#[trigger] start[i] matches Ok(v) ==> call_requires(
                        self.rule(),
                        (&v,),
                    )),
                items@ =~= start.skip(out@.len() as int),
                out@.len() <= start.len(),
                forall|i: int|
                    0 <= i < out@.len() ==> (#[trigger] out@[i] is Ok ==> out@[i] == start[i]),
                forall|i: int|
                    0 <= i < out@.len() ==> (#[trigger] start[i] is Err ==> out@[i] == start[i]),
                forall|i: int|
                    0 <= i < out@.len() ==> (#[trigger] start[i] matches Ok(v) ==> ((out@[i]
                        == start[i] && call_ensures(self.rule(), (&v,), true)) || (out@[i] == Err::<
                        T,
                        ValidErr<T>,
                    >(ValidErr::Invalid(v)) && call_ensures(self.rule(), (&v,), false)))),
            decreases items@.len(),
        {
            let ghost k = out@.len() as int;
            let item = items.remove(0);
            proof {
                assert(item == start.skip(k)[0]);
                assert(start.skip(k)[0] == start[k]);
                assert(items@ =~= start.skip(k + 1));
            }
            let checked = self.feed(item);
            out.push(checked);
        }
        out
    }
}

} // verus!
