use vstd::prelude::*;

use crate::valid_err::ValidErr;
use crate::valid_result::VResult;
use crate::valid_result::adapter_shape;
use crate::valid_result::lemma_n_accepted_push;
use crate::valid_result::n_accepted;

verus! {

/// The maximum-count adapter: lets through at most `max_count` accepted
/// elements; every accepted element after that is rejected as `TooMany` and
/// is not counted. Once tripped, the adapter never recovers. Rejections
/// coming in pass through unchanged and never count toward the cap.
pub struct AtMost {
    pub max_count: usize,
    pub counter: usize,
}

/// What the maximum-count adapter, entered with `c0` elements already
/// counted, returns at position `i` of `s`: the input outcome while fewer
/// than `max` accepted elements stand before it, `TooMany` with the element
/// from then on, and any rejection unchanged.
pub open spec fn at_most_outcome<T>(max: nat, c0: nat, s: Seq<VResult<T>>, i: int) -> VResult<T> {
    match s[i] {
        Ok(v) => if c0 + n_accepted(s.take(i)) < max {
            Ok(v)
        } else {
            Err(ValidErr::TooMany(v))
        },
        Err(e) => Err(e),
    }
}

impl AtMost {
    /// The counter never passes the cap.
    pub open spec fn wf(&self) -> bool {
        self.counter <= self.max_count
    }

    pub fn new(max_count: usize) -> (r: AtMost)
        ensures
            r.max_count == max_count,
            r.counter == 0,
            r.wf(),
    {
        AtMost { max_count, counter: 0 }
    }

    /// One outcome through the adapter: an accepted element passes and is
    /// counted while the cap is not reached, and is rejected as `TooMany`
    /// without being counted once it is. A rejection passes through
    /// untouched.
    pub fn feed<T>(&mut self, item: VResult<T>) -> (out: VResult<T>)
        requires
            old(self).wf(),
        ensures
            final(self).wf(),
            final(self).max_count == old(self).max_count,
            item is Err ==> out == item && *final(self) == *old(self),
            item matches Ok(v) ==> if old(self).counter < old(self).max_count {
                out == item && final(self).counter == old(self).counter + 1
            } else {
                out == Err::<T, ValidErr<T>>(ValidErr::TooMany(v)) && *final(self) == *old(self)
            },
    {
        match item {
            Ok(v) => {
                if self.counter < self.max_count {
                    self.counter = self.counter + 1;
                    Ok(v)
                } else {
                    Err(ValidErr::TooMany(v))
                }
            },
            Err(e) => Err(e),
        }
    }

    /// A whole sequence through the adapter, one outcome per input, in
    /// order: exactly the first `max_count - counter` accepted elements
    /// pass, and every accepted element after them comes out as `TooMany`.
    pub fn run<T>(&mut self, items: Vec<VResult<T>>) -> (out: Vec<VResult<T>>)
        requires
            old(self).wf(),
        ensures
            final(self).wf(),
            final(self).max_count == old(self).max_count,
            adapter_shape(items@, out@),
            forall|i: int|
                0 <= i < out@.len() ==> out@[i] == at_most_outcome(
                    old(self).max_count as nat,
                    old(self).counter as nat,
                    items@,
                    i,
                ),
            if old(self).counter + n_accepted(items@) <= old(self).max_count {
                final(self).counter == old(self).counter + n_accepted(items@)
            } else {
                final(self).counter == final(self).max_count
            },
    {
        let ghost start = items@;
        let ghost max = self.max_count as nat;
        let ghost c0 = self.counter as nat;
        let mut items = items;
        let mut out: Vec<VResult<T>> = Vec::new();
        while items.len() > 0
            invariant
                self.wf(),
                self.max_count as nat == max,
                items@ =~= start.skip(out@.len() as int),
                out@.len() <= start.len(),
                if c0 + n_accepted(start.take(out@.len() as int)) <= max {
                    self.counter as nat == c0 + n_accepted(start.take(out@.len() as int))
                } else {
                    self.counter as nat == max
                },
                forall|i: int| 0 <= i < out@.len() ==> out@[i] == at_most_outcome(max, c0, start, i),
            decreases items@.len(),
        {
            let ghost k = out@.len() as int;
            let item = items.remove(0);
            proof {
                assert(item == start.skip(k)[0]);
                assert(start.skip(k)[0] == start[k]);
                assert(items@ =~= start.skip(k + 1));
                assert(start.take(k + 1) =~= start.take(k).push(start[k]));
                lemma_n_accepted_push(start.take(k), start[k]);
            }
            let checked = self.feed(item);
            out.push(checked);
        }
        proof {
            assert(start.take(start.len() as int) =~= start);
            assert forall|i: int| 0 <= i < out@.len() implies (#[trigger] out@[i] is Ok ==> out@[i]
                == start[i]) && (start[i] is Err ==> out@[i] == start[i]) by {
                assert(out@[i] == at_most_outcome(max, c0, start, i));
            }
        }
        out
    }
}

pub proof fn lemma_n_accepted_monotone<T>(s: Seq<VResult<T>>, i: int, j: int)
    requires
        0 <= i <= j <= s.len(),
    ensures
        n_accepted(s.take(i)) <= n_accepted(s.take(j)),
    decreases j - i,
{
    if i < j {
        lemma_n_accepted_monotone(s, i, j - 1);
        assert(s.take(j) =~= s.take(j - 1).push(s[j - 1]));
        lemma_n_accepted_push(s.take(j - 1), s[j - 1]);
    } else {
        assert(s.take(i) =~= s.take(j));
    }
}

/// Once tripped, the maximum-count adapter never recovers: after an accepted
/// element was rejected over the cap, every later accepted element is
/// rejected over the cap too.
pub proof fn lemma_at_most_never_recovers<T>(max: nat, s: Seq<VResult<T>>, i: int, j: int)
    requires
        0 <= i <= j < s.len(),
        s[i] is Ok,
        at_most_outcome(max, 0, s, i) is Err,
    ensures
        s[j] matches Ok(v) ==> at_most_outcome(max, 0, s, j) == Err::<T, ValidErr<T>>(
            ValidErr::TooMany(v),
        ),
{
    lemma_n_accepted_monotone(s, i, j);
}

/// Maximum-count boundary: over a source with no elements counted yet, an
/// accepted element passes exactly when fewer than `max` accepted elements
/// stand before it, and from the cap on every accepted element is rejected
/// as `TooMany`, carrying the element itself.
pub proof fn lemma_at_most_boundary<T>(max: nat, s: Seq<VResult<T>>, v: T, i: int)
    requires
        0 <= i < s.len(),
        s[i] == Ok::<T, ValidErr<T>>(v),
    ensures
        n_accepted(s.take(i)) < max ==> at_most_outcome(max, 0, s, i) == Ok::<T, ValidErr<T>>(v),
        n_accepted(s.take(i)) >= max ==> at_most_outcome(max, 0, s, i) == Err::<T, ValidErr<T>>(
            ValidErr::TooMany(v),
        ),
{
}

} // verus!
