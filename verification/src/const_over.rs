use vstd::prelude::*;
use vstd::std_specs::cmp::PartialEqSpec;

use crate::valid_err::ValidErr;
use crate::valid_result::VResult;
use crate::valid_result::adapter_shape;

verus! {

/// One outcome through the constancy adapter, as a relation between the
/// reference value before (`pre`) and after (`post`) the step. A rejection
/// passes through and touches nothing. The first accepted element fixes the
/// reference to its extracted property and always passes. Every later
/// accepted element either passes or is rejected as `BrokenConstant`, and —
/// where the property type's equality obeys its specification — passes
/// exactly when its extracted property equals the reference; the reference
/// itself never changes again.
pub open spec fn const_over_step<T, A: PartialEq, M: Fn(&T) -> A>(
    m: M,
    pre: Option<A>,
    item: VResult<T>,
    post: Option<A>,
    out: VResult<T>,
) -> bool {
    match item {
        Err(_) => out == item && post == pre,
        Ok(v) => match pre {
            None => out == item && (post matches Some(a) && call_ensures(m, (&v,), a)),
            Some(r) => post == pre && exists|a: A|
                {
                    &&& #[trigger] call_ensures(m, (&v,), a)
                    &&& out == item || out == Err::<T, ValidErr<T>>(ValidErr::BrokenConstant(v))
                    &&& A::obeys_eq_spec() ==> out == if a.eq_spec(&r) {
                        item
                    } else {
                        Err::<T, ValidErr<T>>(ValidErr::BrokenConstant(v))
                    }
                },
        },
    }
}

/// A whole sequence through the constancy adapter: `refs` is the reference
/// value before each step, threaded from `pre` to `post`, and every output
/// outcome stands in the step relation with its input.
pub open spec fn const_over_chain<T, A: PartialEq, M: Fn(&T) -> A>(
    m: M,
    pre: Option<A>,
    items: Seq<VResult<T>>,
    post: Option<A>,
    out: Seq<VResult<T>>,
    refs: Seq<Option<A>>,
) -> bool {
    &&& refs.len() == items.len() + 1
    &&& out.len() == items.len()
    &&& refs[0] == pre
    &&& refs.last() == post
    &&& forall|i: int|
        0 <= i < items.len() ==> const_over_step(m, refs[i], items[i], refs[i + 1], #[trigger] out[i])
}

/// The constancy adapter: derives a property from the first accepted element
/// and requires every later accepted element to derive an equal property,
/// rejecting it as `BrokenConstant` otherwise. Rejections coming in pass
/// through unchanged and never touch the reference.
#[verifier::reject_recursive_types(A)]
pub struct ConstOver<T, A: PartialEq, M: Fn(&T) -> A> {
    extractor: M,
    stored_value: Option<A>,
    _marker: core::marker::PhantomData<T>,
}

impl<T, A: PartialEq, M: Fn(&T) -> A> ConstOver<T, A, M> {
    /// The property the elements are compared by.
    pub closed spec fn rule(&self) -> M {
        self.extractor
    }

    /// The property derived from the first accepted element, once one was
    /// seen.
    pub closed spec fn reference(&self) -> Option<A> {
        self.stored_value
    }

    pub fn new(extractor: M) -> (r: ConstOver<T, A, M>)
        ensures
            r.rule() == extractor,
            r.reference() is None,
    {
        ConstOver { extractor, stored_value: None, _marker: core::marker::PhantomData }
    }

    /// One outcome through the adapter, exactly as `const_over_step` says.
    pub fn feed(&mut self, item: VResult<T>) -> (out: VResult<T>)
        requires
            item matches Ok(v) ==> call_requires(old(self).rule(), (&v,)),
        ensures
            final(self).rule() == old(self).rule(),
            const_over_step(
                old(self).rule(),
                old(self).reference(),
                item,
                final(self).reference(),
                out,
            ),
            item is Err ==> out == item && final(self).reference() == old(self).reference(),
            out is Ok ==> out == item,
    {
        match item {
            Ok(v) => {
                let a = (self.extractor)(&v);
                if self.stored_value.is_some() {
                    let r = self.stored_value.as_ref().unwrap();
                    if a.eq(r) {
                        Ok(v)
                    } else {
                        Err(ValidErr::BrokenConstant(v))
                    }
                } else {
                    self.stored_value = Some(a);
                    Ok(v)
                }
            },
            Err(e) => Err(e),
        }
    }

    /// A whole sequence through the adapter, one outcome per input, in
    /// order, with the reference value threaded through the steps.
    pub fn run(&mut self, items: Vec<VResult<T>>) -> (out: Vec<VResult<T>>)
        requires
            forall|i: int|
                0 <= i < items@.len() ==> (#[trigger] items@[i] matches Ok(v) ==> call_requires(
                    old(self).rule(),
                    (&v,),
                )),
        ensures
            final(self).rule() == old(self).rule(),
            adapter_shape(items@, out@),
            exists|refs: Seq<Option<A>>|
                const_over_chain(
                    old(self).rule(),
                    old(self).reference(),
                    items@,
                    final(self).reference(),
                    out@,
                    refs,
                ),
    {
        let ghost start = items@;
        let ghost m = self.rule();
        let mut items = items;
        let mut out: Vec<VResult<T>> = Vec::new();
        let ghost mut refs: Seq<Option<A>> = seq![self.reference()];
        while items.len() > 0
            invariant
                forall|i: int|
                    0 <= i < start.len() ==> (#[trigger] start[i] matches Ok(v) ==> call_requires(
                        m,
                        (&v,),
                    )),
                self.rule() == m,
                items@ =~= start.skip(out@.len() as int),
                out@.len() <= start.len(),
                refs.len() == out@.len() + 1,
                refs[0] == old(self).reference(),
                refs.last() == self.reference(),
                forall|i: int|
                    0 <= i < out@.len() ==> const_over_step(
                        m,
                        refs[i],
                        start[i],
                        refs[i + 1],
                        #[trigger] out@[i],
                    ),
                forall|i: int|
                    0 <= i < out@.len() ==> (#[trigger] out@[i] is Ok ==> out@[i] == start[i]),
                forall|i: int|
                    0 <= i < out@.len() ==> (#[trigger] start[i] is Err ==> out@[i] == start[i]),
            decreases items@.len(),
        {
            let ghost k = out@.len() as int;
            let item = items.remove(0);
            proof {
                assert(item == start.skip(k)[0]);
                assert(start.skip(k)[0] == start[k]);
                assert(items@ =~= start.skip(k + 1));
            }
            let checked = self.feed(item);
            out.push(checked);
            proof {
                refs = refs.push(self.reference());
            }
        }
        proof {
            assert(out@.len() == start.len());
            assert(const_over_chain(m, old(self).reference(), start, self.reference(), out@, refs));
        }
        out
    }
}

} // verus!
