use vstd::prelude::*;

use crate::valid_err::ValidErr;
use crate::valid_result::VResult;
use crate::valid_result::adapter_shape;
use crate::valid_result::lemma_n_accepted_le_len;
use crate::valid_result::lemma_n_accepted_push;
use crate::valid_result::n_accepted;

verus! {

/// The minimum-count adapter: counts the accepted elements that pass through
/// it, forwarding every outcome unchanged. Only at the natural end of the
/// source — when `finish` is called — does it reject: one synthetic trailing
/// `TooFew` outcome, exactly when fewer than `min_count` accepted elements
/// were seen. A consumer that stops pulling before the end never receives
/// the trailing outcome: the adapter cannot detect "too few" without seeing
/// the whole source.
pub struct AtLeast {
    pub min_count: usize,
    pub counter: usize,
}

impl AtLeast {
    pub fn new(min_count: usize) -> (r: AtLeast)
        ensures
            r.min_count == min_count,
            r.counter == 0,
    {
        AtLeast { min_count, counter: 0 }
    }

    /// One outcome through the adapter: forwarded unchanged, with accepted
    /// elements counted and rejections not.
    pub fn feed<T>(&mut self, item: VResult<T>) -> (out: VResult<T>)
        requires
            old(self).counter < usize::MAX,
        ensures
            out == item,
            final(self).min_count == old(self).min_count,
            item is Ok ==> final(self).counter == old(self).counter + 1,
            item is Err ==> *final(self) == *old(self),
    {
        match item {
            Ok(v) => {
                self.counter = self.counter + 1;
                Ok(v)
            },
            Err(e) => Err(e),
        }
    }

    /// The natural end of the source: exactly one trailing `TooFew` outcome
    /// when fewer accepted elements were counted than required, and nothing
    /// at all otherwise. Emitted once only: a second call returns nothing.
    pub fn finish<T>(&mut self) -> (out: Option<VResult<T>>)
        ensures
            final(self).min_count == old(self).min_count,
            old(self).counter >= old(self).min_count ==> out is None && *final(self) == *old(self),
            old(self).counter < old(self).min_count ==> out == Some(
                Err::<T, ValidErr<T>>(ValidErr::TooFew),
            ) && final(self).counter == final(self).min_count,
    {
        if self.counter >= self.min_count {
            None
        } else {
            self.counter = self.min_count;
            Some(Err(ValidErr::TooFew))
        }
    }

    /// A whole sequence through the adapter without ending the source: the
    /// outcomes come back unchanged, and no rejection is ever added here. A
    /// consumer that short-circuits — stops after these outcomes without
    /// calling `finish` — therefore never sees a trailing `TooFew`.
    pub fn run<T>(&mut self, items: Vec<VResult<T>>) -> (out: Vec<VResult<T>>)
        requires
            old(self).counter + items@.len() <= usize::MAX,
        ensures
            final(self).min_count == old(self).min_count,
            out@ == items@,
            adapter_shape(items@, out@),
            final(self).counter == old(self).counter + n_accepted(items@),
    {
        let ghost start = items@;
        let ghost c0 = self.counter as nat;
        let mut items = items;
        let mut out: Vec<VResult<T>> = Vec::new();
        while items.len() > 0
            invariant
                self.min_count == old(self).min_count,
                c0 + start.len() <= usize::MAX,
                items@ =~= start.skip(out@.len() as int),
                out@.len() <= start.len(),
                out@ =~= start.take(out@.len() as int),
                self.counter as nat == c0 + n_accepted(start.take(out@.len() as int)),
            decreases items@.len(),
        {
            let ghost k = out@.len() as int;
            let item = items.remove(0);
            proof {
                assert(item == start.skip(k)[0]);
                assert(start.skip(k)[0] == start[k]);
                assert(items@ =~= start.skip(k + 1));
                assert(start.take(k + 1) =~= start.take(k).push(start[k]));
                lemma_n_accepted_push(start.take(k), start[k]);
                lemma_n_accepted_le_len(start.take(k));
            }
            let counted = self.feed(item);
            out.push(counted);
        }
        proof {
            assert(start.take(start.len() as int) =~= start);
            assert(out@ =~= start);
        }
        out
    }

    /// A whole sequence through the adapter followed by the natural end of
    /// the source. When the accepted elements reach the required count the
    /// input comes back unchanged; otherwise it comes back with exactly one
    /// trailing `TooFew` outcome — one outcome more than was fed.
    pub fn run_to_end<T>(&mut self, items: Vec<VResult<T>>) -> (out: Vec<VResult<T>>)
        requires
            old(self).counter + items@.len() <= usize::MAX,
        ensures
            final(self).min_count == old(self).min_count,
            old(self).counter + n_accepted(items@) >= old(self).min_count ==> out@ == items@
                && final(self).counter == old(self).counter + n_accepted(items@),
            old(self).counter + n_accepted(items@) < old(self).min_count ==> out@ == items@.push(
                Err::<T, ValidErr<T>>(ValidErr::TooFew),
            ) && final(self).counter == final(self).min_count,
    {
        let mut out = self.run(items);
        let trailing = self.finish();
        match trailing {
            Some(e) => {
                out.push(e);
            },
            None => {},
        }
        out
    }
}

} // verus!
