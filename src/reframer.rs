use vstd::prelude::*;

verus! {

/// Two FIFO queues of mono samples between the host's block size and the
/// engine's fixed hop size: incoming samples wait in the input queue until a
/// whole hop can be sliced off; produced hops wait in the output queue until
/// the host drains them in blocks of its own length.
pub struct Reframer<S> {
    input: Vec<S>,
    output: Vec<S>,
    hop_size: usize,
}

impl<S: Copy> Reframer<S> {
    /// The samples waiting to be sliced into hops, oldest first.
    pub closed spec fn input_queue(&self) -> Seq<S> {
        self.input@
    }

    /// The produced samples waiting to be drained, oldest first.
    pub closed spec fn output_queue(&self) -> Seq<S> {
        self.output@
    }

    /// The fixed number of samples in one hop.
    pub closed spec fn hop(&self) -> nat {
        self.hop_size as nat
    }

    /// A reframer with empty queues, each reserved for a few hops.
    pub fn new(hop_size: usize) -> (r: Self)
        ensures
            r.input_queue() == Seq::<S>::empty(),
            r.output_queue() == Seq::<S>::empty(),
            r.hop() == hop_size,
    {
        let reserve = match hop_size.checked_mul(4) {
            Some(n) => n,
            None => hop_size,
        };
        Reframer {
            input: Vec::with_capacity(reserve),
            output: Vec::with_capacity(reserve),
            hop_size,
        }
    }

    pub fn hop_size(&self) -> (r: usize)
        ensures
            r == self.hop(),
    {
        self.hop_size
    }

    pub fn input_len(&self) -> (r: usize)
        ensures
            r == self.input_queue().len(),
    {
        self.input.len()
    }

    pub fn output_len(&self) -> (r: usize)
        ensures
            r == self.output_queue().len(),
    {
        self.output.len()
    }

    /// Appends `samples` to the input queue, in order.
    pub fn enqueue_input(&mut self, samples: &[S])
        ensures
            final(self).input_queue() == old(self).input_queue() + samples@,
            final(self).output_queue() == old(self).output_queue(),
            final(self).hop() == old(self).hop(),
    {
        push_all(&mut self.input, samples);
    }

    /// Whether the input queue holds at least one whole hop.
    pub fn hop_ready(&self) -> (r: bool)
        ensures
            r == (self.input_queue().len() >= self.hop()),
    {
        self.input.len() >= self.hop_size
    }

    /// Removes the oldest hop from the input queue and returns it.
    pub fn take_hop(&mut self) -> (r: Vec<S>)
        requires
            old(self).input_queue().len() >= old(self).hop(),
        ensures
            r@ == old(self).input_queue().take(old(self).hop() as int),
            final(self).input_queue() == old(self).input_queue().skip(old(self).hop() as int),
            final(self).output_queue() == old(self).output_queue(),
            final(self).hop() == old(self).hop(),
    {
        let mut hop = self.input.split_off(self.hop_size);
        std::mem::swap(&mut self.input, &mut hop);
        proof {
            assert(hop@ =~= old(self).input_queue().take(old(self).hop() as int));
            assert(self.input@ =~= old(self).input_queue().skip(old(self).hop() as int));
        }
        hop
    }

    /// Appends `samples` to the output queue, in order.
    pub fn enqueue_output(&mut self, samples: &[S])
        ensures
            final(self).output_queue() == old(self).output_queue() + samples@,
            final(self).input_queue() == old(self).input_queue(),
            final(self).hop() == old(self).hop(),
    {
        push_all(&mut self.output, samples);
    }

    /// Removes and returns the oldest `n` samples of the output queue when it
    /// holds that many; otherwise leaves it as it is and returns `None`.
    pub fn drain_output(&mut self, n: usize) -> (r: Option<Vec<S>>)
        ensures
            old(self).output_queue().len() >= n ==> {
                &&& r is Some
                &&& r->0@ == old(self).output_queue().take(n as int)
                &&& final(self).output_queue() == old(self).output_queue().skip(n as int)
            },
            old(self).output_queue().len() < n ==> {
                &&& r is None
                &&& final(self).output_queue() == old(self).output_queue()
            },
            final(self).input_queue() == old(self).input_queue(),
            final(self).hop() == old(self).hop(),
    {
        if self.output.len() < n {
            return None;
        }
        let mut drained = self.output.split_off(n);
        std::mem::swap(&mut self.output, &mut drained);
        proof {
            assert(drained@ =~= old(self).output_queue().take(n as int));
            assert(self.output@ =~= old(self).output_queue().skip(n as int));
        }
        Some(drained)
    }

    /// Empties both queues; the hop size stays.
    pub fn clear(&mut self)
        ensures
            final(self).input_queue() == Seq::<S>::empty(),
            final(self).output_queue() == Seq::<S>::empty(),
            final(self).hop() == old(self).hop(),
    {
        self.input.clear();
        self.output.clear();
    }
}

/// Appends every sample of `samples` to `queue`, in order.
fn push_all<S: Copy>(queue: &mut Vec<S>, samples: &[S])
    ensures
        final(queue)@ == old(queue)@ + samples@,
{
    let mut i: usize = 0;
    while i < samples.len()
        invariant
            i <= samples@.len(),
            queue@ == old(queue)@ + samples@.take(i as int),
        decreases samples@.len() - i,
    {
        queue.push(samples[i]);
        i = i + 1;
        proof {
            assert(samples@.take(i as int) =~= samples@.take(i - 1) + seq![samples@[i - 1]]);
        }
    }
    assert(samples@.take(samples@.len() as int) =~= samples@);
}

} // verus!
