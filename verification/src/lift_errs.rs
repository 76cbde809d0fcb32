use vstd::prelude::*;

use crate::valid_err::ValidErr;
use crate::valid_result::VResult;
use crate::valid_result::bridged;

verus! {

/// An error-bridging adapter, named for lifting a nested run's failures to
/// one unified marker: functionally the same contract as `CastErrs`, kept
/// apart so that call sites can say which of the two conversions they mean.
/// Every `Ok` is accepted as it stands; every rejection becomes the opaque
/// `Bridged` marker.
pub struct LiftErrs;

impl LiftErrs {
    pub fn new() -> (r: LiftErrs) {
        LiftErrs
    }

    /// One collected result through the bridge.
    pub fn feed<T, E>(&self, item: Result<T, ValidErr<E>>) -> (out: VResult<T>)
        ensures
            out == bridged(item),
    {
        match item {
            Ok(v) => Ok(v),
            Err(_) => Err(ValidErr::Bridged),
        }
    }

    /// A whole sequence of collected results through the bridge, one outcome
    /// per input, in order.
    pub fn run<T, E>(&self, items: Vec<Result<T, ValidErr<E>>>) -> (out: Vec<VResult<T>>)
        ensures
            out@.len() == items@.len(),
            forall|i: int| 0 <= i < out@.len() ==> out@[i] == bridged(items@[i]),
    {
        let ghost start = items@;
        let mut items = items;
        let mut out: Vec<VResult<T>> = Vec::new();
        while items.len() > 0
            invariant
                items@ =~= start.skip(out@.len() as int),
                out@.len() <= start.len(),
                forall|i: int| 0 <= i < out@.len() ==> out@[i] == bridged(start[i]),
            decreases items@.len(),
        {
            let ghost k = out@.len() as int;
            let item = items.remove(0);
            proof {
                assert(item == start.skip(k)[0]);
                assert(start.skip(k)[0] == start[k]);
                assert(items@ =~= start.skip(k + 1));
            }
            let b = self.feed(item);
            out.push(b);
        }
        out
    }
}

/// Lets a collected sequence of nested-run results be lifted in place.
pub trait ErrLiftable<T, E>: Sized {
    spec fn results(&self) -> Seq<Result<T, ValidErr<E>>>;

    /// Lifts every collected result: `Ok` values are accepted, rejections
    /// become the opaque `Bridged` marker.
    fn lift_errs(self) -> (out: Vec<VResult<T>>)
        ensures
            out@.len() == self.results().len(),
            forall|i: int| 0 <= i < out@.len() ==> out@[i] == bridged(self.results()[i]),
    ;
}

impl<T, E> ErrLiftable<T, E> for Vec<Result<T, ValidErr<E>>> {
    open spec fn results(&self) -> Seq<Result<T, ValidErr<E>>> {
        self@
    }

    fn lift_errs(self) -> (out: Vec<VResult<T>>) {
        LiftErrs::new().run(self)
    }
}

} // verus!
