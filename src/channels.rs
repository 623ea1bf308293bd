use vstd::prelude::*;

verus! {

/// Up-mix: the same mono signal for each of `channels` channels.
pub fn broadcast<S: Copy>(mono: &[S], channels: usize) -> (r: Vec<Vec<S>>)
    ensures
        r@.len() == channels,
        forall|c: int| 0 <= c < channels ==> #[trigger] r@[c]@ == mono@,
{
    let mut out: Vec<Vec<S>> = Vec::with_capacity(channels);
    let mut c: usize = 0;
    while c < channels
        invariant
            c <= channels,
            out@.len() == c,
            forall|k: int| 0 <= k < c ==> #[trigger] out@[k]@ == mono@,
        decreases channels - c,
    {
        out.push(copy_samples(mono));
        c = c + 1;
    }
    out
}

/// A fresh vector holding `samples`, in order.
pub fn copy_samples<S: Copy>(samples: &[S]) -> (r: Vec<S>)
    ensures
        r@ == samples@,
{
    let mut out: Vec<S> = Vec::with_capacity(samples.len());
    let mut i: usize = 0;
    while i < samples.len()
        invariant
            i <= samples@.len(),
            out@ == samples@.take(i as int),
        decreases samples@.len() - i,
    {
        out.push(samples[i]);
        i = i + 1;
        proof {
            assert(samples@.take(i as int) =~= samples@.take(i - 1) + seq![samples@[i - 1]]);
        }
    }
    assert(samples@.take(samples@.len() as int) =~= samples@);
    out
}

} // verus!
