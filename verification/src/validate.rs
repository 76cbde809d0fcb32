use vstd::prelude::*;

use crate::valid_err::ValidErr;
use crate::valid_result::VResult;

verus! {

/// Checks every raw element of a sequence against a boolean rule while
/// lifting it into the pipeline: an element that passes becomes accepted, one
/// that fails is rejected as `Invalid`.
pub struct Validate<T, F: Fn(&T) -> bool> {
    validation: F,
    _marker: core::marker::PhantomData<T>,
}

impl<T, F: Fn(&T) -> bool> Validate<T, F> {
    /// The rule the elements are checked against.
    pub closed spec fn rule(&self) -> F {
        self.validation
    }

    pub fn new(validation: F) -> (r: Validate<T, F>)
        ensures
            r.rule() == validation,
    {
        Validate { validation, _marker: core::marker::PhantomData }
    }

    /// Checks one element: accepted exactly when the rule returned true of
    /// it, rejected as `Invalid` carrying it otherwise.
    pub fn feed(&self, element: T) -> (out: VResult<T>)
        requires
            call_requires(self.rule(), (&element,)),
        ensures
            (out == Ok::<T, ValidErr<T>>(element) && call_ensures(
                self.rule(),
                (&element,),
                true,
            )) || (out == Err::<T, ValidErr<T>>(ValidErr::Invalid(element)) && call_ensures(
                self.rule(),
                (&element,),
                false,
            )),
    {
        if (self.validation)(&element) {
            Ok(element)
        } else {
            Err(ValidErr::Invalid(element))
        }
    }

    /// Checks a whole sequence, one outcome per element, in order.
    pub fn run(&self, elements: Vec<T>) -> (out: Vec<VResult<T>>)
        requires
            forall|i: int| 0 <= i < elements@.len() ==> call_requires(
                self.rule(),
                (&elements@[i],),
            ),
        ensures
            out@.len() == elements@.len(),
            forall|i: int|
                0 <= i < out@.len() ==> ((#[trigger] out@[i] == Ok::<T, ValidErr<T>>(elements@[i])
                    && call_ensures(self.rule(), (&elements@[i],), true)) || (out@[i] == Err::<
                    T,
                    ValidErr<T>,
                >(ValidErr::Invalid(elements@[i])) && call_ensures(
                    self.rule(),
                    (&elements@[i],),
                    false,
                ))),
    {
        let ghost start = elements@;
        let mut elements = elements;
        let mut out: Vec<VResult<T>> = Vec::new();
        while elements.len() > 0
            invariant
                forall|i: int| 0 <= i < start.len() ==> call_requires(self.rule(), (&start[i],)),
                elements@ =~= start.skip(out@.len() as int),
                out@.len() <= start.len(),
                forall|i: int|
                    0 <= i < out@.len() ==> ((#[trigger] out@[i] == Ok::<T, ValidErr<T>>(start[i])
                        && call_ensures(self.rule(), (&start[i],), true)) || (out@[i] == Err::<
                        T,
                        ValidErr<T>,
                    >(ValidErr::Invalid(start[i])) && call_ensures(
                        self.rule(),
                        (&start[i],),
                        false,
                    ))),
            decreases elements@.len(),
        {
            let ghost k = out@.len() as int;
            let v = elements.remove(0);
            proof {
                assert(v == start.skip(k)[0]);
                assert(start.skip(k)[0] == start[k]);
                assert(elements@ =~= start.skip(k + 1));
            }
            let checked = self.feed(v);
            out.push(checked);
        }
        out
    }
}

} // verus!
