use vstd::prelude::*;

use crate::valid_err::ValidErr;
use crate::valid_result::VResult;

verus! {

/// A rejection-mapping stage: accepted elements pass through unchanged, and
/// every rejection is handed to a caller-supplied function that may rewrite
/// it — for decorating rejections after the fact. The mapping never touches
/// accepted elements and never turns a rejection into an acceptance.
#[verifier::reject_recursive_types(T)]
pub struct MsgPusher<T, F: Fn(ValidErr<T>) -> ValidErr<T>> {
    pusher: F,
    _marker: core::marker::PhantomData<T>,
}

impl<T, F: Fn(ValidErr<T>) -> ValidErr<T>> MsgPusher<T, F> {
    /// The function the rejections are mapped through.
    pub closed spec fn rule(&self) -> F {
        self.pusher
    }

    pub fn new(pusher: F) -> (r: MsgPusher<T, F>)
        ensures
            r.rule() == pusher,
    {
        MsgPusher { pusher, _marker: core::marker::PhantomData }
    }

    /// One outcome through the stage: acceptances untouched, rejections
    /// mapped.
    pub fn feed(&self, item: VResult<T>) -> (out: VResult<T>)
        requires
            item matches Err(e) ==> call_requires(self.rule(), (e,)),
        ensures
            item is Ok ==> out == item,
            item matches Err(e) ==> (out matches Err(e2) && call_ensures(self.rule(), (e,), e2)),
    {
        match item {
            Ok(v) => Ok(v),
            Err(e) => Err((self.pusher)(e)),
        }
    }

    /// A whole sequence through the stage, one outcome per input, in order.
    pub fn run(&self, items: Vec<VResult<T>>) -> (out: Vec<VResult<T>>)
        requires
            forall|i: int|
                0 <= i < items@.len() ==> (#[trigger] items@[i] matches Err(e) ==> call_requires(
                    self.rule(),
                    (e,),
                )),
        ensures
            out@.len() == items@.len(),
            forall|i: int|
                0 <= i < out@.len() ==> (#[trigger] items@[i] is Ok ==> out@[i] == items@[i]),
            forall|i: int|
                0 <= i < out@.len() ==> (#[trigger] items@[i] matches Err(e) ==> (out@[i] matches Err(
                    e2,
                ) && call_ensures(self.rule(), (e,), e2))),
    {
        let ghost start = items@;
        let mut items = items;
        let mut out: Vec<VResult<T>> = Vec::new();
        while items.len() > 0
            invariant
                forall|i: int|
                    0 <= i < start.len() ==> (#[trigger] start[i] matches Err(e) ==> call_requires(
                        self.rule(),
                        (e,),
                    )),
                items@ =~= start.skip(out@.len() as int),
                out@.len() <= start.len(),
                forall|i: int|
                    0 <= i < out@.len() ==> (#[trigger] start[i] is Ok ==> out@[i] == start[i]),
                forall|i: int|
                    0 <= i < out@.len() ==> (#[trigger] start[i] matches Err(e) ==> (out@[i] matches Err(
                        e2,
                    ) && call_ensures(self.rule(), (e,), e2))),
            decreases items@.len(),
        {
            let ghost k = out@.len() as int;
            let item = items.remove(0);
            proof {
                assert(item == start.skip(k)[0]);
                assert(start.skip(k)[0] == start[k]);
                assert(items@ =~= start.skip(k + 1));
            }
            let mapped = self.feed(item);
            out.push(mapped);
        }
        out
    }
}

} // verus!
