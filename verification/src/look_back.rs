use vstd::prelude::*;

use crate::valid_err::ValidErr;
use crate::valid_result::VResult;
use crate::valid_result::adapter_shape;

verus! {

/// One outcome through the windowed-history adapter, as a relation between
/// the state before (`pre_pos`, `pre_store`) and after the step. With a
/// window of zero nothing is ever validated or stored. A rejection passes
/// through and touches nothing. While fewer than `steps` accepted elements
/// were seen there is no history to test against: the element passes and its
/// extracted property is appended. From then on the element is tested
/// against the property extracted `steps` accepted elements ago; on success
/// it passes, overwrites that slot and advances, and on failure it is
/// rejected as `LookBackFailed` and leaves position and buffer untouched, so
/// the next element is tested against the same stale value.
pub open spec fn look_back_step<T, A, M: Fn(&T) -> A, F: Fn(&A, &T) -> bool>(
    m: M,
    f: F,
    steps: nat,
    pre_pos: nat,
    pre_store: Seq<A>,
    item: VResult<T>,
    post_pos: nat,
    post_store: Seq<A>,
    out: VResult<T>,
) -> bool {
    if steps == 0 {
        out == item && post_pos == pre_pos && post_store == pre_store
    } else {
        match item {
            Err(_) => out == item && post_pos == pre_pos && post_store == pre_store,
            Ok(v) => if pre_pos < steps {
                &&& out == item
                &&& post_pos == pre_pos + 1
                &&& exists|a: A| #[trigger] call_ensures(m, (&v,), a) && post_store == pre_store.push(a)
            } else {
                let idx = (pre_pos % steps) as int;
                exists|b: bool|
                    {
                        &&& #[trigger] call_ensures(f, (&pre_store[idx], &v), b)
                        &&& b ==> {
                            &&& out == item
                            &&& post_pos == pre_pos + 1
                            &&& exists|a: A|
                                #[trigger] call_ensures(m, (&v,), a) && post_store == pre_store.update(
                                    idx,
                                    a,
                                )
                        }
                        &&& !b ==> {
                            &&& out == Err::<T, ValidErr<T>>(ValidErr::LookBackFailed(v))
                            &&& post_pos == pre_pos
                            &&& post_store == pre_store
                        }
                    }
            },
        }
    }
}

/// A whole sequence through the windowed-history adapter: `poss` and
/// `stores` are the position and buffer before each step, threaded from the
/// starting state to the final one, and every output outcome stands in the
/// step relation with its input.
pub open spec fn look_back_chain<T, A, M: Fn(&T) -> A, F: Fn(&A, &T) -> bool>(
    m: M,
    f: F,
    steps: nat,
    pre_pos: nat,
    pre_store: Seq<A>,
    items: Seq<VResult<T>>,
    post_pos: nat,
    post_store: Seq<A>,
    out: Seq<VResult<T>>,
    poss: Seq<nat>,
    stores: Seq<Seq<A>>,
) -> bool {
    &&& poss.len() == items.len() + 1
    &&& stores.len() == items.len() + 1
    &&& out.len() == items.len()
    &&& poss[0] == pre_pos
    &&& stores[0] == pre_store
    &&& poss.last() == post_pos
    &&& stores.last() == post_store
    &&& forall|i: int|
        0 <= i < items.len() ==> look_back_step(
            m,
            f,
            steps,
            poss[i],
            stores[i],
            items[i],
            poss[i + 1],
            stores[i + 1],
            #[trigger] out[i],
        )
}

/// The windowed-history adapter: remembers the properties of the last
/// `steps` accepted elements in a fixed-size circular buffer and tests each
/// new accepted element against the property from `steps` accepted elements
/// back. Rejections coming in pass through unchanged and never touch the
/// state, and elements this adapter rejects are excluded from its history.
#[verifier::reject_recursive_types(A)]
pub struct LookBack<T, A, M: Fn(&T) -> A, F: Fn(&A, &T) -> bool> {
    steps: usize,
    pos: usize,
    value_store: Vec<A>,
    extractor: M,
    validation: F,
    _marker: core::marker::PhantomData<T>,
}

impl<T, A, M: Fn(&T) -> A, F: Fn(&A, &T) -> bool> LookBack<T, A, M, F> {
    /// The length of the look-back window, in accepted elements.
    pub closed spec fn steps_spec(&self) -> nat {
        self.steps as nat
    }

    /// How many accepted elements the adapter has stored so far.
    pub closed spec fn position(&self) -> nat {
        self.pos as nat
    }

    /// The circular buffer of extracted properties.
    pub closed spec fn window(&self) -> Seq<A> {
        self.value_store@
    }

    /// The property extracted from each accepted element.
    pub closed spec fn rule(&self) -> M {
        self.extractor
    }

    /// The test of an element against the property from `steps` back.
    pub closed spec fn test(&self) -> F {
        self.validation
    }

    /// The buffer holds one slot per accepted element seen, up to the window
    /// length.
    pub open spec fn wf(&self) -> bool {
        self.window().len() == if self.position() >= self.steps_spec() {
            self.steps_spec()
        } else {
            self.position()
        }
    }

    pub fn new(steps: usize, extractor: M, validation: F) -> (r: LookBack<T, A, M, F>)
        ensures
            r.steps_spec() == steps,
            r.position() == 0,
            r.window() == Seq::<A>::empty(),
            r.rule() == extractor,
            r.test() == validation,
            r.wf(),
    {
        LookBack {
            steps,
            pos: 0,
            value_store: Vec::new(),
            extractor,
            validation,
            _marker: core::marker::PhantomData,
        }
    }

    /// The default convenience form: a window of one, testing each accepted
    /// element against the immediately preceding accepted element.
    pub fn look_back(extractor: M, validation: F) -> (r: LookBack<T, A, M, F>)
        ensures
            r.steps_spec() == 1,
            r.position() == 0,
            r.window() == Seq::<A>::empty(),
            r.rule() == extractor,
            r.test() == validation,
            r.wf(),
    {
        LookBack::new(1, extractor, validation)
    }

    /// One outcome through the adapter, exactly as `look_back_step` says.
    /// With a window of zero every outcome passes through unchanged,
    /// whatever it holds.
    pub fn feed(&mut self, item: VResult<T>) -> (out: VResult<T>)
        requires
            old(self).wf(),
            old(self).position() < usize::MAX,
            item matches Ok(v) ==> call_requires(old(self).rule(), (&v,)),
            item matches Ok(v) ==> ((old(self).steps_spec() > 0 && old(self).position() >= old(
                self,
            ).steps_spec()) ==> call_requires(
                old(self).test(),
                (&old(self).window()[(old(self).position() % old(self).steps_spec()) as int], &v),
            )),
        ensures
            final(self).wf(),
            final(self).steps_spec() == old(self).steps_spec(),
            final(self).rule() == old(self).rule(),
            final(self).test() == old(self).test(),
            look_back_step(
                old(self).rule(),
                old(self).test(),
                old(self).steps_spec(),
                old(self).position(),
                old(self).window(),
                item,
                final(self).position(),
                final(self).window(),
                out,
            ),
            item is Err ==> out == item && final(self).position() == old(self).position()
                && final(self).window() == old(self).window(),
            out is Ok ==> out == item,
            old(self).steps_spec() == 0 ==> out == item && final(self).position() == old(
                self,
            ).position() && final(self).window() == old(self).window(),
    {
        if self.steps == 0 {
            return item;
        }
        match item {
            Ok(v) => {
                if self.pos >= self.steps {
                    let idx = self.pos % self.steps;
                    let passed = (self.validation)(&self.value_store[idx], &v);
                    if passed {
                        let a = (self.extractor)(&v);
                        self.value_store[idx] = a;
                        self.pos = self.pos + 1;
                        Ok(v)
                    } else {
                        Err(ValidErr::LookBackFailed(v))
                    }
                } else {
                    let a = (self.extractor)(&v);
                    self.value_store.push(a);
                    self.pos = self.pos + 1;
                    Ok(v)
                }
            },
            Err(e) => Err(e),
        }
    }

    /// A whole sequence through the adapter, one outcome per input, in
    /// order, with position and buffer threaded through the steps. With a
    /// window of zero the input comes back whole and unchanged: nothing is
    /// ever rejected.
    pub fn run(&mut self, items: Vec<VResult<T>>) -> (out: Vec<VResult<T>>)
        requires
            old(self).wf(),
            old(self).position() + items@.len() <= usize::MAX,
            forall|i: int|
                0 <= i < items@.len() ==> (#[trigger] items@[i] matches Ok(v) ==> call_requires(
                    old(self).rule(),
                    (&v,),
                )),
            forall|a: A, v: T| #[trigger] call_requires(old(self).test(), (&a, &v)),
        ensures
            final(self).wf(),
            final(self).steps_spec() == old(self).steps_spec(),
            final(self).rule() == old(self).rule(),
            final(self).test() == old(self).test(),
            adapter_shape(items@, out@),
            old(self).steps_spec() == 0 ==> out@ == items@,
            exists|poss: Seq<nat>, stores: Seq<Seq<A>>|
                look_back_chain(
                    old(self).rule(),
                    old(self).test(),
                    old(self).steps_spec(),
                    old(self).position(),
                    old(self).window(),
                    items@,
                    final(self).position(),
                    final(self).window(),
                    out@,
                    poss,
                    stores,
                ),
    {
        let ghost start = items@;
        let ghost m = self.rule();
        let ghost f = self.test();
        let ghost steps = self.steps_spec();
        let ghost p0 = self.position();
        let mut items = items;
        let mut out: Vec<VResult<T>> = Vec::new();
        let ghost mut poss: Seq<nat> = seq![self.position()];
        let ghost mut stores: Seq<Seq<A>> = seq![self.window()];
        while items.len() > 0
            invariant
                forall|i: int|
                    0 <= i < start.len() ==> (#[trigger] start[i] matches Ok(v) ==> call_requires(
                        m,
                        (&v,),
                    )),
                forall|a: A, v: T| #[trigger] call_requires(f, (&a, &v)),
                self.wf(),
                self.rule() == m,
                self.test() == f,
                self.steps_spec() == steps,
                p0 + start.len() <= usize::MAX,
                self.position() <= p0 + out@.len(),
                items@ =~= start.skip(out@.len() as int),
                out@.len() <= start.len(),
                poss.len() == out@.len() + 1,
                stores.len() == out@.len() + 1,
                poss[0] == p0,
                stores[0] == old(self).window(),
                poss.last() == self.position(),
                stores.last() == self.window(),
                forall|i: int|
                    0 <= i < out@.len() ==> look_back_step(
                        m,
                        f,
                        steps,
                        poss[i],
                        stores[i],
                        start[i],
                        poss[i + 1],
                        stores[i + 1],
                        #[trigger] out@[i],
                    ),
                forall|i: int|
                    0 <= i < out@.len() ==> (#[trigger] out@[i] is Ok ==> out@[i] == start[i]),
                forall|i: int|
                    0 <= i < out@.len() ==> (#[trigger] start[i] is Err ==> out@[i] == start[i]),
                steps == 0 ==> out@ =~= start.take(out@.len() as int),
            decreases items@.len(),
        {
            let ghost k = out@.len() as int;
            let item = items.remove(0);
            proof {
                assert(item == start.skip(k)[0]);
                assert(start.skip(k)[0] == start[k]);
                assert(items@ =~= start.skip(k + 1));
            }
            let checked = self.feed(item);
            out.push(checked);
            proof {
                poss = poss.push(self.position());
                stores = stores.push(self.window());
            }
        }
        proof {
            assert(out@.len() == start.len());
            if steps == 0 {
                assert(out@ =~= start);
            }
            assert(look_back_chain(
                m,
                f,
                steps,
                p0,
                old(self).window(),
                start,
                self.position(),
                self.window(),
                out@,
                poss,
                stores,
            ));
        }
        out
    }
}

} // verus!
