use vstd::prelude::*;

use crate::valid_err::ValidErr;
use crate::valid_result::VResult;

verus! {

/// The entry point of a pipeline: a plain ordered sequence, ready to be
/// lifted so that every element counts as accepted.
pub struct Validatable<T> {
    items: Vec<T>,
}

impl<T> View for Validatable<T> {
    type V = Seq<T>;

    closed spec fn view(&self) -> Seq<T> {
        self.items@
    }
}

impl<T> Validatable<T> {
    pub fn new(items: Vec<T>) -> (r: Validatable<T>)
        ensures
            r@ == items@,
    {
        Validatable { items }
    }

    /// Lifts the wrapped sequence: one `Ok` per element, in order, and no
    /// rejection ever.
    pub fn run(self) -> (out: Vec<VResult<T>>)
        ensures
            out@.len() == self@.len(),
            forall|i: int| 0 <= i < out@.len() ==> out@[i] == Ok::<T, ValidErr<T>>(self@[i]),
    {
        let ghost start = self@;
        let mut out: Vec<VResult<T>> = Vec::new();
        let mut items = self.items;
        while items.len() > 0
            invariant
                items@ =~= start.skip(out@.len() as int),
                out@.len() <= start.len(),
                forall|i: int| 0 <= i < out@.len() ==> out@[i] == Ok::<T, ValidErr<T>>(start[i]),
            decreases items@.len(),
        {
            let ghost k = out@.len() as int;
            let v = items.remove(0);
            proof {
                assert(v == start.skip(k)[0]);
                assert(start.skip(k)[0] == start[k]);
                assert(items@ =~= start.skip(k + 1));
            }
            out.push(Ok(v));
        }
        out
    }
}

/// Lets any plain ordered sequence be sent into the pipeline.
pub trait Unvalidatable<T>: Sized {
    spec fn elements(&self) -> Seq<T>;

    /// Wraps the sequence as a pipeline source over its elements.
    fn validate(self) -> (r: Validatable<T>)
        ensures
            r@ == self.elements(),
    ;
}

impl<T> Unvalidatable<T> for Vec<T> {
    open spec fn elements(&self) -> Seq<T> {
        self@
    }

    fn validate(self) -> (r: Validatable<T>) {
        Validatable::new(self)
    }
}

} // verus!
