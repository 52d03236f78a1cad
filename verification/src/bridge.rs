use vstd::prelude::*;

use crate::frame::{silence_seq, Frame};
use crate::params::{changes_between, poll_changes, ParamBank, ParamChange, ParamKind};
use crate::queue::{queue_capacity, queue_frames, FrameQueue};
use crate::window::WindowAccumulator;

verus! {

/// Frames per channel the inference engine consumes and produces in one
/// invocation.
pub const DEFAULT_HOP_SIZE: usize = 960;

/// The queues hold this many hops, so one full processing cycle can be
/// absorbed without overflow.
pub const BUFFER_CAPACITY_MULTIPLIER: usize = 2;

/// Push a whole window of produced frames onto the outbound queue, in order.
///
/// The caller shows that the capacity was sized for the window, so no push
/// can fail: an outbound overrun would corrupt frame order and is ruled out
/// here instead of being logged away.
fn push_all(q: &mut FrameQueue, win: &Vec<Frame>)
    requires
        queue_frames(*old(q)).len() + win@.len() <= queue_capacity(*old(q)),
    ensures
        queue_capacity(*final(q)) == queue_capacity(*old(q)),
        queue_frames(*final(q)) == queue_frames(*old(q)) + win@,
{
    let ghost cap0 = queue_capacity(*q);
    let ghost pre = queue_frames(*q);
    let mut j: usize = 0;
    while j < win.len()
        invariant
            j <= win@.len(),
            queue_capacity(*q) == cap0,
            queue_frames(*q) == pre + win@.subrange(0, j as int),
            pre.len() + win@.len() <= cap0,
        decreases win@.len() - j,
    {
        assert(queue_frames(*q).len() < cap0);
        let _ok = q.push(win[j]);
        proof {
            assert(queue_frames(*q) =~= pre + win@.subrange(0, j + 1));
        }
        j = j + 1;
    }
    proof {
        assert(queue_frames(*q) =~= pre + win@);
    }
}

/// The real-time bridge: the object the audio thread talks to.
///
/// It owns the inbound and outbound frame queues, the conversion-window
/// accumulator, and the parameter channel's two sides — the slots the
/// control thread writes and the values the worker last applied. `process`
/// drives one full producer-worker-consumer exchange: it enqueues the input
/// frame, performs the worker's polling step on it, and dequeues the frame
/// that priming and backpressure guarantee is ready. A deployment that runs
/// the worker's half on its own thread makes the same decisions through
/// `worker_poll` and `poll_changes` around the same ring buffers.
pub struct DfWrapper {
    inbound: FrameQueue,
    outbound: FrameQueue,
    acc: WindowAccumulator,
    slots: ParamBank,
    applied: ParamBank,
    applied_log: Vec<ParamChange>,
    hop: usize,
    active: bool,
    fed: Ghost<Seq<Frame>>,
    delivered: Ghost<Seq<Frame>>,
}

impl DfWrapper {
    /// Every frame ever accepted by `process`, in arrival order.
    pub closed spec fn inputs(self) -> Seq<Frame> {
        self.fed@
    }

    /// Every frame ever returned by `process`, in delivery order.
    pub closed spec fn outputs(self) -> Seq<Frame> {
        self.delivered@
    }

    /// The priming fill count: the algorithmic latency, in frames, that
    /// `init` reports to the host.
    pub closed spec fn latency_spec(self) -> nat {
        self.hop as nat * BUFFER_CAPACITY_MULTIPLIER as nat
    }

    /// The knob values the control side has written.
    pub closed spec fn pending_params(self) -> ParamBank {
        self.slots
    }

    /// The knob values the worker has applied to the engine.
    pub closed spec fn applied_params(self) -> ParamBank {
        self.applied
    }

    /// Every configuration change the worker has applied, in order.
    pub closed spec fn config_log(self) -> Seq<ParamChange> {
        self.applied_log@
    }

    /// Whether `init` has run: only then does the priming invariant hold and
    /// may `process` be called.
    pub closed spec fn is_active(self) -> bool {
        self.active
    }

    /// The bridge's invariant. At rest the inbound queue is drained, and the
    /// frames already delivered, the frames ready in the outbound queue and
    /// the frames still accumulating are exactly the priming silence followed
    /// by every input, in order: the pipeline neither drops, invents nor
    /// reorders a frame.
    pub closed spec fn wf(self) -> bool {
        &&& 1 <= self.hop <= 0x1000_0000
        &&& self.acc.wf()
        &&& self.acc.target_spec() == self.hop as nat
        &&& queue_capacity(self.inbound) == self.latency_spec()
        &&& queue_capacity(self.outbound) == self.latency_spec()
        &&& queue_frames(self.inbound).len() == 0
        &&& (self.active ==> {
            &&& self.outputs().len() == self.inputs().len()
            &&& self.outputs() + queue_frames(self.outbound) + self.acc.frames_spec()
                == silence_seq(self.latency_spec()) + self.inputs()
        })
    }

    /// A fresh, inactive bridge holding the initial knob bit patterns. No
    /// processing may happen before `init`.
    pub fn new(atten_lim: u32, min_thresh: u32, max_erb: u32, max_thresh: u32, post_filter_beta:
        u32) -> (w: DfWrapper)
        ensures
            w.wf(),
            !w.is_active(),
            w.pending_params() == (ParamBank {
                atten_lim,
                min_thresh,
                max_erb,
                max_thresh,
                post_filter_beta,
            }),
            w.applied_params() == w.pending_params(),
            w.config_log() == Seq::<ParamChange>::empty(),
            w.latency_spec() == DEFAULT_HOP_SIZE as nat * BUFFER_CAPACITY_MULTIPLIER as nat,
    {
        let hop = DEFAULT_HOP_SIZE;
        let capacity = hop * BUFFER_CAPACITY_MULTIPLIER;
        let bank = ParamBank { atten_lim, min_thresh, max_erb, max_thresh, post_filter_beta };
        DfWrapper {
            inbound: FrameQueue::new(capacity),
            outbound: FrameQueue::new(capacity),
            acc: WindowAccumulator::new(hop),
            slots: bank,
            applied: bank,
            applied_log: Vec::new(),
            hop,
            active: false,
            fed: Ghost(Seq::empty()),
            delivered: Ghost(Seq::empty()),
        }
    }

    /// (Re)start the pipeline for a host sample rate: fresh queues, a fresh
    /// accumulator, and the outbound queue primed with silence equal to its
    /// capacity. Returns that priming fill count — the latency, in samples,
    /// the host must be told for delay compensation.
    pub fn init(&mut self, plugin_sample_rate: usize) -> (latency: u32)
        requires
            old(self).wf(),
            1 <= plugin_sample_rate,
        ensures
            final(self).wf(),
            final(self).is_active(),
            latency as nat == final(self).latency_spec(),
            final(self).latency_spec() == old(self).latency_spec(),
            final(self).inputs() == Seq::<Frame>::empty(),
            final(self).outputs() == Seq::<Frame>::empty(),
            final(self).pending_params() == old(self).pending_params(),
            final(self).applied_params() == old(self).pending_params(),
            final(self).config_log() == old(self).config_log(),
    {
        let capacity = self.hop * BUFFER_CAPACITY_MULTIPLIER;
        self.inbound = FrameQueue::new(capacity);

        // The worker's starting duties: apply the initial knob values, then
        // prime the outbound queue with manufactured silence so the host's
        // first frames have matching outputs immediately.
        self.applied = self.slots;
        let mut outbound = FrameQueue::new(capacity);
        let mut i: usize = 0;
        while i < capacity
            invariant
                i <= capacity,
                queue_capacity(outbound) == capacity as nat,
                queue_frames(outbound) == silence_seq(i as nat),
            decreases capacity - i,
        {
            let _ok = outbound.push(Frame::silence());
            proof {
                assert(queue_frames(outbound) =~= silence_seq((i + 1) as nat));
            }
            i = i + 1;
        }
        self.outbound = outbound;
        self.acc = WindowAccumulator::new(self.hop);
        self.active = true;
        self.fed = Ghost(Seq::empty());
        self.delivered = Ghost(Seq::empty());
        proof {
            assert(self.outputs() + queue_frames(self.outbound) + self.acc.frames_spec()
                =~= silence_seq(self.latency_spec()) + self.inputs());
        }
        (self.hop * BUFFER_CAPACITY_MULTIPLIER) as u32
    }

    /// The per-sample hot path: exactly one frame out for every frame in,
    /// preserving order, with constant steady-state latency equal to the
    /// priming fill. The first `latency` outputs are the priming silence;
    /// from then on each output is the input fed `latency` calls earlier.
    /// Before consuming the frame, the worker applies every parameter whose
    /// stored bit pattern changed since it last applied it.
    pub fn process(&mut self, frame: Frame) -> (out: Frame)
        requires
            old(self).wf(),
            old(self).is_active(),
        ensures
            final(self).wf(),
            final(self).is_active(),
            final(self).latency_spec() == old(self).latency_spec(),
            final(self).inputs() == old(self).inputs().push(frame),
            final(self).outputs() == old(self).outputs().push(out),
            out == (if old(self).outputs().len() < old(self).latency_spec() {
                Frame::silence_spec()
            } else {
                old(self).inputs()[old(self).outputs().len() - old(self).latency_spec()]
            }),
            final(self).pending_params() == old(self).pending_params(),
            final(self).applied_params() == old(self).pending_params(),
            final(self).config_log() == old(self).config_log() + changes_between(
                old(self).applied_params(),
                old(self).pending_params(),
            ),
    {
        let ghost sil = silence_seq(self.latency_spec());
        let ghost in0 = self.fed@;
        let ghost out0 = self.delivered@;
        let ghost qo0 = queue_frames(self.outbound);
        let ghost a0 = self.acc.frames_spec();

        // Audio-thread half: enqueue the input frame. The inbound queue is
        // drained at rest, so there is always room.
        let _ok = self.inbound.push(frame);

        // Audio-thread half: take the produced frame that priming and
        // backpressure guarantee is ready.
        proof {
            assert(out0 + qo0 + a0 == sil + in0);
            assert((out0 + qo0 + a0).len() == out0.len() + qo0.len() + a0.len());
            assert((sil + in0).len() == sil.len() + in0.len());
            assert(sil.len() == self.latency_spec());
            assert(self.latency_spec() == self.hop as nat * 2);
            assert(a0.len() < self.hop as nat);
            assert(out0.len() == in0.len());
            assert(qo0.len() + a0.len() == sil.len());
            assert(qo0.len() > 0);
            assert((out0 + qo0)[out0.len() as int] == qo0[0]);
            assert((out0 + qo0 + a0)[out0.len() as int] == qo0[0]);
            assert((sil + in0)[out0.len() as int] == qo0[0]);
        }
        let popped = self.outbound.pop();
        let out = match popped {
            Some(f) => f,
            None => Frame::silence(),
        };

        // Worker half: apply every knob whose bit pattern changed since the
        // worker last configured the engine.
        let mut changes = poll_changes(&self.applied, &self.slots);
        self.applied_log.append(&mut changes);
        self.applied = self.slots;

        // Worker half: consume the input frame; a completed window runs one
        // processing cycle whose frames go out in order.
        let ghost qo1 = queue_frames(self.outbound);
        let taken = self.inbound.pop();
        let f = match taken {
            Some(f) => f,
            None => Frame::silence(),
        };
        assert(f == frame);
        let win_opt = self.acc.push(f);
        match win_opt {
            Some(win) => {
                proof {
                    assert(win@.len() == a0.len() + 1);
                    assert(a0.len() + 1 == self.hop as nat);
                    assert(qo1 == qo0.subrange(1, qo0.len() as int));
                    assert(qo1.len() == qo0.len() - 1);
                    assert(queue_capacity(self.outbound) == self.latency_spec());
                    assert(qo1.len() + win@.len() <= queue_capacity(self.outbound));
                }
                push_all(&mut self.outbound, &win);
                proof {
                    assert(queue_frames(self.outbound) + self.acc.frames_spec() =~= qo1
                        + a0.push(frame));
                }
            }
            None => {
                proof {
                    assert(queue_frames(self.outbound) + self.acc.frames_spec() =~= qo1
                        + a0.push(frame));
                }
            }
        }

        self.fed = Ghost(in0.push(frame));
        self.delivered = Ghost(out0.push(out));

        proof {
            let tail = qo1 + a0.push(frame);
            assert(queue_frames(self.outbound) + self.acc.frames_spec() == tail);
            assert(self.delivered@ + queue_frames(self.outbound) + self.acc.frames_spec()
                =~= self.delivered@ + tail);
            assert(qo1 == qo0.subrange(1, qo0.len() as int));
            assert(out == qo0[0]);
            assert(out0.push(out) + qo1 =~= out0 + qo0);
            assert(self.delivered@ + tail =~= (out0.push(out) + qo1) + a0.push(frame));
            assert((out0.push(out) + qo1) + a0.push(frame) =~= (out0 + qo0) + a0.push(frame));
            assert((out0 + qo0) + a0.push(frame) =~= ((out0 + qo0) + a0) + seq![frame]);
            assert((out0 + qo0) + a0 == sil + in0);
            assert((sil + in0) + seq![frame] =~= sil + in0.push(frame));
            assert(self.fed@ == in0.push(frame));
            assert(self.delivered@ + queue_frames(self.outbound) + self.acc.frames_spec() == sil
                + self.fed@);
            if out0.len() < sil.len() {
                assert(out == sil[out0.len() as int]);
            } else {
                assert(out == in0[out0.len() - sil.len()]);
            }
        }
        out
    }

    /// Write a new attenuation-limit bit pattern for the worker to apply.
    pub fn update_atten_limit(&mut self, bits: u32)
        ensures
            param_update(*old(self), *final(self), ParamKind::AttenLim, bits),
    {
        self.slots.write_if_changed(ParamKind::AttenLim, bits);
    }

    /// Write a new minimum-threshold bit pattern for the worker to apply.
    pub fn update_min_thresh(&mut self, bits: u32)
        ensures
            param_update(*old(self), *final(self), ParamKind::MinThresh, bits),
    {
        self.slots.write_if_changed(ParamKind::MinThresh, bits);
    }

    /// Write a new ERB-band threshold bit pattern for the worker to apply.
    pub fn update_max_erb(&mut self, bits: u32)
        ensures
            param_update(*old(self), *final(self), ParamKind::MaxErb, bits),
    {
        self.slots.write_if_changed(ParamKind::MaxErb, bits);
    }

    /// Write a new wideband-threshold bit pattern for the worker to apply.
    pub fn update_max_thresh(&mut self, bits: u32)
        ensures
            param_update(*old(self), *final(self), ParamKind::MaxThresh, bits),
    {
        self.slots.write_if_changed(ParamKind::MaxThresh, bits);
    }

    /// Write a new post-filter strength bit pattern for the worker to apply.
    pub fn update_post_filter_beta(&mut self, bits: u32)
        ensures
            param_update(*old(self), *final(self), ParamKind::PostFilterBeta, bits),
    {
        self.slots.write_if_changed(ParamKind::PostFilterBeta, bits);
    }

    /// The configuration changes the worker has applied so far, in order.
    pub fn config_changes(&self) -> (v: &Vec<ParamChange>)
        ensures
            v@ == self.config_log(),
    {
        &self.applied_log
    }
}

/// What a parameter setter does: it stores the new bit pattern in its slot —
/// idempotently, a second identical write changes nothing — and touches
/// nothing else: not the frame streams, not the worker's applied values, and
/// not the pipeline's well-formedness.
pub open spec fn param_update(pre: DfWrapper, post: DfWrapper, k: ParamKind, bits: u32) -> bool {
    &&& post.pending_params() == pre.pending_params().set(k, bits)
    &&& post.applied_params() == pre.applied_params()
    &&& post.config_log() == pre.config_log()
    &&& post.is_active() == pre.is_active()
    &&& post.inputs() == pre.inputs()
    &&& post.outputs() == pre.outputs()
    &&& post.latency_spec() == pre.latency_spec()
    &&& (pre.wf() ==> post.wf())
}

/// Law: frame order, priming latency, and one-out-per-in. For any active,
/// well-formed bridge, exactly as many frames have come out as went in, the
/// first `latency` outputs are the priming silence, and every later output
/// is the input fed exactly `latency` calls earlier — no frame is dropped,
/// invented or reordered.
pub proof fn lemma_frame_order_and_latency(w: DfWrapper)
    requires
        w.wf(),
        w.is_active(),
    ensures
        w.outputs().len() == w.inputs().len(),
        forall|k: int|
            0 <= k < w.outputs().len() ==> w.outputs()[k] == (if k < w.latency_spec() {
                Frame::silence_spec()
            } else {
                w.inputs()[k - w.latency_spec()]
            }),
{
    let sil = silence_seq(w.latency_spec());
    assert forall|k: int| 0 <= k < w.outputs().len() implies w.outputs()[k] == (if k
        < w.latency_spec() {
        Frame::silence_spec()
    } else {
        w.inputs()[k - w.latency_spec()]
    }) by {
        assert((w.outputs() + queue_frames(w.outbound) + w.acc.frames_spec())[k]
            == w.outputs()[k]);
        assert((sil + w.inputs())[k] == w.outputs()[k]);
    }
}

} // verus!
