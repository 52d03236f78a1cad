use vstd::prelude::*;

verus! {

/// Which tunable knob of the inference engine a value belongs to.
#[derive(Clone, Copy, PartialEq, Eq, Structural, Debug)]
pub enum ParamKind {
    AttenLim,
    MinThresh,
    MaxErb,
    MaxThresh,
    PostFilterBeta,
}

/// The five tunable knobs of the inference engine, one slot each.
///
/// Each slot holds the fixed-width bit pattern of the knob's numeric value,
/// the same representation the cross-thread channel stores atomically: a
/// change is detected by comparing bit patterns, never by numeric
/// comparison, so no rounding can hide or invent an update.
#[derive(Clone, Copy, PartialEq, Eq, Structural, Debug)]
pub struct ParamBank {
    pub atten_lim: u32,
    pub min_thresh: u32,
    pub max_erb: u32,
    pub max_thresh: u32,
    pub post_filter_beta: u32,
}

/// One knob change the worker must hand to the engine before the next hop.
#[derive(Clone, Copy, PartialEq, Eq, Structural, Debug)]
pub struct ParamChange {
    pub kind: ParamKind,
    pub bits: u32,
}

impl ParamBank {
    pub open spec fn get(self, k: ParamKind) -> u32 {
        match k {
            ParamKind::AttenLim => self.atten_lim,
            ParamKind::MinThresh => self.min_thresh,
            ParamKind::MaxErb => self.max_erb,
            ParamKind::MaxThresh => self.max_thresh,
            ParamKind::PostFilterBeta => self.post_filter_beta,
        }
    }

    pub open spec fn set(self, k: ParamKind, bits: u32) -> ParamBank {
        match k {
            ParamKind::AttenLim => ParamBank { atten_lim: bits, ..self },
            ParamKind::MinThresh => ParamBank { min_thresh: bits, ..self },
            ParamKind::MaxErb => ParamBank { max_erb: bits, ..self },
            ParamKind::MaxThresh => ParamBank { max_thresh: bits, ..self },
            ParamKind::PostFilterBeta => ParamBank { post_filter_beta: bits, ..self },
        }
    }

    /// Store a new bit pattern into one slot, but only when it differs from
    /// what the slot already holds, so an unchanged value causes no write.
    pub fn write_if_changed(&mut self, k: ParamKind, bits: u32) -> (changed: bool)
        ensures
            *final(self) == old(self).set(k, bits),
            changed == (old(self).get(k) != bits),
    {
        match k {
            ParamKind::AttenLim => {
                if self.atten_lim != bits {
                    self.atten_lim = bits;
                    true
                } else {
                    false
                }
            }
            ParamKind::MinThresh => {
                if self.min_thresh != bits {
                    self.min_thresh = bits;
                    true
                } else {
                    false
                }
            }
            ParamKind::MaxErb => {
                if self.max_erb != bits {
                    self.max_erb = bits;
                    true
                } else {
                    false
                }
            }
            ParamKind::MaxThresh => {
                if self.max_thresh != bits {
                    self.max_thresh = bits;
                    true
                } else {
                    false
                }
            }
            ParamKind::PostFilterBeta => {
                if self.post_filter_beta != bits {
                    self.post_filter_beta = bits;
                    true
                } else {
                    false
                }
            }
        }
    }
}

/// The change one slot contributes when the worker compares the bank it last
/// applied against the bank the control side has written: one entry when the
/// bit patterns differ, nothing when they agree.
pub open spec fn slot_change(last: ParamBank, cur: ParamBank, k: ParamKind) -> Seq<ParamChange> {
    if last.get(k) != cur.get(k) {
        seq![ParamChange { kind: k, bits: cur.get(k) }]
    } else {
        Seq::empty()
    }
}

/// Every knob change the worker must apply to move from the bank it last
/// applied to the bank currently written, in the worker's fixed slot order.
pub open spec fn changes_between(last: ParamBank, cur: ParamBank) -> Seq<ParamChange> {
    slot_change(last, cur, ParamKind::AttenLim) + slot_change(last, cur, ParamKind::MinThresh)
        + slot_change(last, cur, ParamKind::MaxErb) + slot_change(last, cur, ParamKind::MaxThresh)
        + slot_change(last, cur, ParamKind::PostFilterBeta)
}

/// The worker's per-iteration parameter poll: list exactly the knobs whose
/// stored bit pattern differs from the value last handed to the engine.
pub fn poll_changes(last: &ParamBank, cur: &ParamBank) -> (v: Vec<ParamChange>)
    ensures
        v@ == changes_between(*last, *cur),
{
    let mut v: Vec<ParamChange> = Vec::new();
    if last.atten_lim != cur.atten_lim {
        v.push(ParamChange { kind: ParamKind::AttenLim, bits: cur.atten_lim });
    }
    assert(v@ =~= slot_change(*last, *cur, ParamKind::AttenLim));
    if last.min_thresh != cur.min_thresh {
        v.push(ParamChange { kind: ParamKind::MinThresh, bits: cur.min_thresh });
    }
    assert(v@ =~= slot_change(*last, *cur, ParamKind::AttenLim)
        + slot_change(*last, *cur, ParamKind::MinThresh));
    if last.max_erb != cur.max_erb {
        v.push(ParamChange { kind: ParamKind::MaxErb, bits: cur.max_erb });
    }
    if last.max_thresh != cur.max_thresh {
        v.push(ParamChange { kind: ParamKind::MaxThresh, bits: cur.max_thresh });
    }
    if last.post_filter_beta != cur.post_filter_beta {
        v.push(ParamChange { kind: ParamKind::PostFilterBeta, bits: cur.post_filter_beta });
    }
    assert(v@ =~= changes_between(*last, *cur));
    v
}

/// Law: parameter updates are idempotent. Writing the same value into a slot
/// a second time leaves the bank exactly as after the first write, a worker
/// that has applied the written bank finds nothing further to apply, and a
/// single write makes the worker apply at most one configuration change —
/// exactly one when the value differs from what the slot held, none when it
/// does not.
pub proof fn lemma_parameter_update_idempotent(b: ParamBank, k: ParamKind, v: u32)
    ensures
        b.set(k, v).set(k, v) == b.set(k, v),
        changes_between(b.set(k, v), b.set(k, v).set(k, v)) == Seq::<ParamChange>::empty(),
        changes_between(b, b.set(k, v)).len() == (if b.get(k) != v {
            1nat
        } else {
            0nat
        }),
{
    let once = b.set(k, v);
    let twice = once.set(k, v);
    assert(twice == once);
    assert(changes_between(once, twice) =~= Seq::<ParamChange>::empty());
    assert(changes_between(b, once).len() == (if b.get(k) != v {
        1nat
    } else {
        0nat
    }));
}

/// Law: a worker that has applied exactly what the control side wrote has
/// nothing left to apply.
pub proof fn lemma_synced_bank_yields_no_changes(b: ParamBank)
    ensures
        changes_between(b, b) == Seq::<ParamChange>::empty(),
{
    assert(changes_between(b, b) =~= Seq::<ParamChange>::empty());
}

} // verus!
