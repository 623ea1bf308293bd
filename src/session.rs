use vstd::prelude::*;

use crate::rate::{rate_supported, sample_rate_supported};
use crate::reframer::Reframer;

verus! {

/// The hop size a session assumes before an engine has told it its own.
pub const DEFAULT_HOP_SIZE: usize = 480;

/// Why a session could not be made ready.
#[derive(Clone, Copy, Debug, PartialEq, Eq, Structural)]
pub enum InitError {
    /// The host's sample rate is not within tolerance of the engine's rate.
    UnsupportedSampleRate,
    /// The engine could not be built, or reported no usable hop size.
    EngineConstruction,
}

/// One processing session: whether an engine stands ready, the reframing
/// queues, and the hop that is with the engine right now.
///
/// Per host block the caller hands over the down-mixed block
/// (`begin_block`), then, while `next_hop` offers a hop, runs the engine on
/// `pending_hop` and reports back with `finish_hop`, and at last asks for a
/// block's worth of processed samples with `take_output`.
pub struct Session<S> {
    ready: bool,
    channels: usize,
    frames: Reframer<S>,
    pending: Option<Vec<S>>,
    enqueued: Ghost<nat>,
    produced: Ghost<nat>,
}

impl<S: Copy> Session<S> {
    /// Whether an engine has been set up and blocks are processed.
    pub closed spec fn is_ready(&self) -> bool {
        self.ready
    }

    pub closed spec fn channel_count(&self) -> nat {
        self.channels as nat
    }

    pub closed spec fn hop(&self) -> nat {
        self.frames.hop()
    }

    pub closed spec fn input_queue(&self) -> Seq<S> {
        self.frames.input_queue()
    }

    pub closed spec fn output_queue(&self) -> Seq<S> {
        self.frames.output_queue()
    }

    /// The hop handed to the engine and not yet answered for.
    pub closed spec fn in_flight(&self) -> Option<Seq<S>> {
        match self.pending {
            Some(v) => Some(v@),
            None => None,
        }
    }

    /// How many samples entered the input queue since the session last
    /// started cold.
    pub closed spec fn samples_in(&self) -> nat {
        self.enqueued@
    }

    /// How many samples entered the output queue since the session last
    /// started cold.
    pub closed spec fn samples_out(&self) -> nat {
        self.produced@
    }

    pub open spec fn in_flight_len(&self) -> nat {
        match self.in_flight() {
            Some(h) => h.len(),
            None => 0,
        }
    }

    /// The session's invariant: every sample that came in is either still
    /// queued, with the engine, or went out, and samples go out in whole hops.
    pub open spec fn wf(&self) -> bool {
        &&& self.hop() > 0
        &&& self.samples_in() == self.samples_out() + self.input_queue().len() + self.in_flight_len()
        &&& self.samples_out() % self.hop() == 0
        &&& self.in_flight() is Some ==> self.in_flight()->0.len() == self.hop()
        &&& !self.is_ready() ==> {
            &&& self.input_queue().len() == 0
            &&& self.output_queue().len() == 0
            &&& self.in_flight() is None
        }
    }

    /// Ready, with the given hop size and channel count, and nothing queued.
    pub open spec fn cold(&self, hop: nat, channels: nat) -> bool {
        &&& self.is_ready()
        &&& self.hop() == hop
        &&& self.channel_count() == channels
        &&& self.input_queue() == Seq::<S>::empty()
        &&& self.output_queue() == Seq::<S>::empty()
        &&& self.in_flight() is None
        &&& self.samples_in() == 0
        &&& self.samples_out() == 0
    }

    /// A session with no engine: every block passes through untouched.
    pub fn new() -> (r: Self)
        ensures
            r.wf(),
            !r.is_ready(),
            r.hop() == DEFAULT_HOP_SIZE,
            r.channel_count() == 1,
    {
        Session {
            ready: false,
            channels: 1,
            frames: Reframer::new(DEFAULT_HOP_SIZE),
            pending: None,
            enqueued: Ghost(0),
            produced: Ghost(0),
        }
    }

    pub fn ready(&self) -> (r: bool)
        ensures
            r == self.is_ready(),
    {
        self.ready
    }

    pub fn hop_size(&self) -> (r: usize)
        ensures
            r == self.hop(),
    {
        self.frames.hop_size()
    }

    pub fn channels(&self) -> (r: usize)
        ensures
            r == self.channel_count(),
    {
        self.channels
    }

    pub fn input_len(&self) -> (r: usize)
        ensures
            r == self.input_queue().len(),
    {
        self.frames.input_len()
    }

    pub fn output_len(&self) -> (r: usize)
        ensures
            r == self.output_queue().len(),
    {
        self.frames.output_len()
    }

    /// Sets the session up for a host running at `rate_mhz` (millihertz) with
    /// `channels` channels. `engine_hop` is what building the engine gave:
    /// the engine's hop size, or `None` when it could not be built. The rate
    /// is judged first; on any failure the session is left uninitialized, so
    /// that every block passes through untouched.
    pub fn initialize(&mut self, rate_mhz: u64, channels: usize, engine_hop: Option<usize>) -> (r:
        Result<usize, InitError>)
        requires
            old(self).wf(),
        ensures
            final(self).wf(),
            !rate_supported(rate_mhz) ==> r == Err::<usize, InitError>(
                InitError::UnsupportedSampleRate,
            ),
            rate_supported(rate_mhz) && (engine_hop is None || engine_hop == Some(0usize)) ==> r
                == Err::<usize, InitError>(InitError::EngineConstruction),
            rate_supported(rate_mhz) && engine_hop is Some && engine_hop->0 > 0 ==> r == Ok::<
                usize,
                InitError,
            >(engine_hop->0),
            r is Ok ==> final(self).cold(r->Ok_0 as nat, channels as nat),
            r is Err ==> !final(self).is_ready(),
    {
        if !sample_rate_supported(rate_mhz) {
            self.go_uninitialized();
            return Err(InitError::UnsupportedSampleRate);
        }
        match engine_hop {
            Some(hop) if hop > 0 => {
                self.ready = true;
                self.channels = channels;
                self.frames = Reframer::new(hop);
                self.pending = None;
                self.enqueued = Ghost(0);
                self.produced = Ghost(0);
                Ok(hop)
            },
            _ => {
                self.go_uninitialized();
                Err(InitError::EngineConstruction)
            },
        }
    }

    /// Empties both queues and forgets any hop with the engine, without
    /// touching readiness, hop size or channel count: a ready session starts
    /// again from cold.
    pub fn reset(&mut self)
        requires
            old(self).wf(),
        ensures
            final(self).wf(),
            final(self).is_ready() == old(self).is_ready(),
            final(self).hop() == old(self).hop(),
            final(self).channel_count() == old(self).channel_count(),
            final(self).input_queue() == Seq::<S>::empty(),
            final(self).output_queue() == Seq::<S>::empty(),
            final(self).in_flight() is None,
            final(self).samples_in() == 0,
            final(self).samples_out() == 0,
            old(self).is_ready() ==> final(self).cold(old(self).hop(), old(self).channel_count()),
    {
        self.frames.clear();
        self.pending = None;
        self.enqueued = Ghost(0);
        self.produced = Ghost(0);
    }

    /// Takes in one host block, already down-mixed to mono. Returns whether
    /// the session is processing; when it is not, nothing changes.
    pub fn begin_block(&mut self, mono: &[S]) -> (r: bool)
        requires
            old(self).wf(),
        ensures
            final(self).wf(),
            r == old(self).is_ready(),
            r ==> {
                &&& final(self).input_queue() == old(self).input_queue() + mono@
                &&& final(self).samples_in() == old(self).samples_in() + mono@.len()
                &&& final(self).output_queue() == old(self).output_queue()
                &&& final(self).in_flight() == old(self).in_flight()
                &&& final(self).samples_out() == old(self).samples_out()
                &&& final(self).is_ready() && final(self).hop() == old(self).hop()
                &&& final(self).channel_count() == old(self).channel_count()
            },
            !r ==> *final(self) == *old(self),
    {
        if !self.ready {
            return false;
        }
        self.frames.enqueue_input(mono);
        self.enqueued = Ghost(self.enqueued@ + mono@.len());
        true
    }

    /// When the session is ready, no hop is with the engine and a whole hop is
    /// queued, moves the oldest hop out of the input queue to be handed to the
    /// engine and returns `true`; otherwise changes nothing and returns `false`.
    pub fn next_hop(&mut self) -> (r: bool)
        requires
            old(self).wf(),
        ensures
            final(self).wf(),
            r == (old(self).is_ready() && old(self).in_flight() is None
                && old(self).input_queue().len() >= old(self).hop()),
            r ==> {
                &&& final(self).in_flight() == Some(
                    old(self).input_queue().take(old(self).hop() as int),
                )
                &&& final(self).input_queue() == old(self).input_queue().skip(
                    old(self).hop() as int,
                )
                &&& final(self).output_queue() == old(self).output_queue()
                &&& final(self).samples_in() == old(self).samples_in()
                &&& final(self).samples_out() == old(self).samples_out()
                &&& final(self).is_ready() && final(self).hop() == old(self).hop()
                &&& final(self).channel_count() == old(self).channel_count()
            },
            !r ==> *final(self) == *old(self),
    {
        if !self.ready || self.pending.is_some() || !self.frames.hop_ready() {
            return false;
        }
        let hop = self.frames.take_hop();
        self.pending = Some(hop);
        true
    }

    /// The hop to hand to the engine, if one is with it.
    pub fn pending_hop(&self) -> (r: Option<&[S]>)
        ensures
            r is Some == self.in_flight() is Some,
            r is Some ==> r->0@ == self.in_flight()->0,
    {
        match &self.pending {
            Some(v) => Some(v.as_slice()),
            None => None,
        }
    }

    /// Takes the engine's answer for the hop with it: `Some` with the
    /// processed hop, or `None` when the engine failed. A processed hop of the
    /// right length goes to the output queue; on failure, or on a hop of
    /// another length, the original hop goes there instead, unchanged. With no
    /// hop at the engine nothing changes.
    pub fn finish_hop(&mut self, processed: Option<&[S]>)
        requires
            old(self).wf(),
        ensures
            final(self).wf(),
            old(self).in_flight() is Some ==> {
                &&& final(self).in_flight() is None
                &&& final(self).output_queue() == old(self).output_queue() + hop_result(
                    old(self).in_flight()->0,
                    processed,
                )
                &&& final(self).samples_out() == old(self).samples_out() + old(self).hop()
                &&& final(self).input_queue() == old(self).input_queue()
                &&& final(self).samples_in() == old(self).samples_in()
                &&& final(self).is_ready() == old(self).is_ready()
                &&& final(self).hop() == old(self).hop()
                &&& final(self).channel_count() == old(self).channel_count()
            },
            old(self).in_flight() is None ==> *final(self) == *old(self),
    {
        let taken = self.pending.take();
        match taken {
            None => {},
            Some(original) => {
                match processed {
                    Some(out) if out.len() == original.len() => {
                        self.frames.enqueue_output(out);
                    },
                    _ => {
                        self.frames.enqueue_output(original.as_slice());
                    },
                }
                self.produced = Ghost(self.produced@ + self.frames.hop());
                proof {
                    lemma_add_hop_keeps_multiple(old(self).samples_out(), self.frames.hop());
                }
            },
        }
    }

    /// Removes and returns the oldest `n` processed samples when the session
    /// is ready and has that many; otherwise changes nothing and returns
    /// `None`, and the block is to pass through dry.
    pub fn take_output(&mut self, n: usize) -> (r: Option<Vec<S>>)
        requires
            old(self).wf(),
        ensures
            final(self).wf(),
            old(self).is_ready() && old(self).output_queue().len() >= n ==> {
                &&& r is Some
                &&& r->0@ == old(self).output_queue().take(n as int)
                &&& final(self).output_queue() == old(self).output_queue().skip(n as int)
                &&& final(self).input_queue() == old(self).input_queue()
                &&& final(self).in_flight() == old(self).in_flight()
                &&& final(self).samples_in() == old(self).samples_in()
                &&& final(self).samples_out() == old(self).samples_out()
                &&& final(self).is_ready() && final(self).hop() == old(self).hop()
                &&& final(self).channel_count() == old(self).channel_count()
            },
            !(old(self).is_ready() && old(self).output_queue().len() >= n) ==> {
                &&& r is None
                &&& *final(self) == *old(self)
            },
    {
        if !self.ready || self.frames.output_len() < n {
            return None;
        }
        self.frames.drain_output(n)
    }

    fn go_uninitialized(&mut self)
        requires
            old(self).hop() > 0,
        ensures
            final(self).wf(),
            !final(self).is_ready(),
            final(self).hop() == old(self).hop(),
            final(self).channel_count() == old(self).channel_count(),
    {
        self.ready = false;
        self.frames.clear();
        self.pending = None;
        self.enqueued = Ghost(0);
        self.produced = Ghost(0);
    }
}

/// What goes to the output queue for the hop `original`, given the engine's
/// answer: the processed hop when there is one of the same length, else the
/// original hop unchanged.
pub open spec fn hop_result<S>(original: Seq<S>, processed: Option<&[S]>) -> Seq<S> {
    match processed {
        Some(out) => if out@.len() == original.len() {
            out@
        } else {
            original
        },
        None => original,
    }
}

/// Conservation: once every whole hop has gone through the engine, if the
/// samples taken in since the last cold start make a whole number of hops,
/// exactly as many samples have gone to the output queue as came in.
pub proof fn lemma_conservation<S: Copy>(s: &Session<S>)
    requires
        s.wf(),
        s.samples_in() % s.hop() == 0,
        s.input_queue().len() < s.hop(),
        s.in_flight() is None,
    ensures
        s.samples_out() == s.samples_in(),
{
    let hop = s.hop() as int;
    let a = s.samples_in() as int / hop;
    let b = s.samples_out() as int / hop;
    vstd::arithmetic::div_mod::lemma_fundamental_div_mod(s.samples_in() as int, hop);
    vstd::arithmetic::div_mod::lemma_fundamental_div_mod(s.samples_out() as int, hop);
    let q = s.input_queue().len() as int;
    assert(q == a * hop - b * hop);
    assert(q == (a - b) * hop) by (nonlinear_arith)
        requires
            q == a * hop - b * hop,
    ;
    assert(a - b == 0) by (nonlinear_arith)
        requires
            q == (a - b) * hop,
            0 <= q < hop,
            hop > 0,
    ;
}

/// Cold start: two sessions that are both cold with the same hop size and
/// channel count are alike in every respect the contracts speak of, so the
/// same calls from there on give the same results. A reset ready session and
/// a freshly initialized one are such a pair.
pub proof fn lemma_cold_sessions_agree<S: Copy>(a: &Session<S>, b: &Session<S>, hop: nat, channels: nat)
    requires
        a.cold(hop, channels),
        b.cold(hop, channels),
    ensures
        a.is_ready() == b.is_ready(),
        a.hop() == b.hop(),
        a.channel_count() == b.channel_count(),
        a.input_queue() == b.input_queue(),
        a.output_queue() == b.output_queue(),
        a.in_flight() == b.in_flight(),
        a.samples_in() == b.samples_in(),
        a.samples_out() == b.samples_out(),
{
}

/// Bypass: a hop the engine failed on is passed on sample for sample.
pub proof fn lemma_failed_hop_passes_through<S>(original: Seq<S>)
    ensures
        hop_result(original, None) == original,
{
}

proof fn lemma_add_hop_keeps_multiple(total: nat, hop: nat)
    requires
        hop > 0,
        total % hop == 0,
    ensures
        (total + hop) % hop == 0,
{
    vstd::arithmetic::div_mod::lemma_mod_add_multiples_vanish(total as int, hop as int);
}

} // verus!
