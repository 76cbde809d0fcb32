use vstd::prelude::*;

use crate::valid_err::ValidErr;

verus! {

/// The outcome of validating one element: the accepted value, or the reason
/// it was rejected.
pub type VResult<T> = Result<T, ValidErr<T>>;

/// What bridging a collected result of a nested run gives: the value of an
/// `Ok` is accepted as it stands, and any rejection becomes the opaque
/// `Bridged` marker — its inner detail is discarded on purpose.
pub open spec fn bridged<T, E>(item: Result<T, ValidErr<E>>) -> VResult<T> {
    match item {
        Ok(v) => Ok(v),
        Err(_) => Err(ValidErr::Bridged),
    }
}

/// How many outcomes of `s` are accepted.
pub open spec fn n_accepted<T>(s: Seq<VResult<T>>) -> nat
    decreases s.len(),
{
    if s.len() == 0 {
        0
    } else {
        n_accepted(s.drop_last()) + if s.last() is Ok {
            1nat
        } else {
            0nat
        }
    }
}

/// Every outcome of `s` is a rejection.
pub open spec fn all_rejected<T>(s: Seq<VResult<T>>) -> bool {
    forall|i: int| 0 <= i < s.len() ==> #[trigger] s[i] is Err
}

/// The accepted values of `s`, in order.
pub open spec fn accepted_values<T>(s: Seq<VResult<T>>) -> Seq<T>
    decreases s.len(),
{
    if s.len() == 0 {
        Seq::empty()
    } else {
        match s[0] {
            Ok(v) => seq![v] + accepted_values(s.drop_first()),
            Err(_) => accepted_values(s.drop_first()),
        }
    }
}

/// `a` can be had from `b` by deleting elements of `b` without reordering.
pub open spec fn subsequence_of<T>(a: Seq<T>, b: Seq<T>) -> bool
    decreases a.len() + b.len(),
{
    if a.len() == 0 {
        true
    } else if b.len() == 0 {
        false
    } else {
        (a[0] == b[0] && subsequence_of(a.drop_first(), b.drop_first())) || subsequence_of(
            a,
            b.drop_first(),
        )
    }
}

/// What every adapter guarantees of a whole run: one outcome per input, an
/// accepted outcome is the input outcome itself, and a rejection entering the
/// adapter leaves it unchanged.
pub open spec fn adapter_shape<T>(inp: Seq<VResult<T>>, out: Seq<VResult<T>>) -> bool {
    &&& out.len() == inp.len()
    &&& forall|i: int| 0 <= i < out.len() ==> (#[trigger] out[i] is Ok ==> out[i] == inp[i])
    &&& forall|i: int| 0 <= i < out.len() ==> (#[trigger] inp[i] is Err ==> out[i] == inp[i])
}

pub proof fn lemma_n_accepted_push<T>(s: Seq<VResult<T>>, x: VResult<T>)
    ensures
        n_accepted(s.push(x)) == n_accepted(s) + if x is Ok {
            1nat
        } else {
            0nat
        },
{
    assert(s.push(x).drop_last() =~= s);
}

pub proof fn lemma_n_accepted_le_len<T>(s: Seq<VResult<T>>)
    ensures
        n_accepted(s) <= s.len(),
    decreases s.len(),
{
    if s.len() > 0 {
        lemma_n_accepted_le_len(s.drop_last());
    }
}

pub proof fn lemma_subsequence_cons_right<T>(a: Seq<T>, b: Seq<T>, x: T)
    requires
        subsequence_of(a, b),
    ensures
        subsequence_of(a, seq![x] + b),
{
    let b2 = seq![x] + b;
    if a.len() == 0 {
    } else {
        assert(b2.drop_first() =~= b);
    }
}

/// Order preservation: any run whose outcomes have the common adapter shape
/// keeps its accepted values in the relative order the input gave them; the
/// accepted values of the output are a subsequence of those of the input.
pub proof fn lemma_order_preservation<T>(inp: Seq<VResult<T>>, out: Seq<VResult<T>>)
    requires
        adapter_shape(inp, out),
    ensures
        subsequence_of(accepted_values(out), accepted_values(inp)),
    decreases inp.len(),
{
    if inp.len() == 0 {
    } else {
        let it = inp.drop_first();
        let ot = out.drop_first();
        assert forall|i: int| 0 <= i < ot.len() implies (#[trigger] ot[i] is Ok ==> ot[i] == it[i])
            && (it[i] is Err ==> ot[i] == it[i]) by {
            assert(ot[i] == out[i + 1]);
            assert(it[i] == inp[i + 1]);
        }
        lemma_order_preservation(it, ot);
        let av_out = accepted_values(out);
        let av_inp = accepted_values(inp);
        match out[0] {
            Ok(v) => {
                assert(out[0] is Ok);
                assert(inp[0] == out[0]);
                assert(av_out == seq![v] + accepted_values(ot));
                assert(av_inp == seq![v] + accepted_values(it));
                assert(av_out.len() > 0);
                assert(av_out[0] == av_inp[0]);
                assert(av_out.drop_first() =~= accepted_values(ot));
                assert(av_inp.drop_first() =~= accepted_values(it));
                assert(subsequence_of(av_out, av_inp));
            },
            Err(_) => {
                assert(av_out == accepted_values(ot));
                match inp[0] {
                    Ok(w) => {
                        assert(av_inp == seq![w] + accepted_values(it));
                        lemma_subsequence_cons_right(accepted_values(ot), accepted_values(it), w);
                    },
                    Err(_) => {
                        assert(av_inp == accepted_values(it));
                    },
                }
            },
        }
    }
}

/// Idempotence of pass-through: a run over inputs that are all already
/// rejections returns the identical sequence, unchanged.
pub proof fn lemma_all_rejected_pass_through<T>(inp: Seq<VResult<T>>, out: Seq<VResult<T>>)
    requires
        adapter_shape(inp, out),
        all_rejected(inp),
    ensures
        out == inp,
{
    assert(out =~= inp);
}

} // verus!
