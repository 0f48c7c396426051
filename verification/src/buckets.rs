//! The two-sided bucket generator.
//!
//! [`Generator`] assembles the boundary sequence step by step. It owns the
//! order of operations and the accumulated output, while the numeric work
//! on 64-bit floating-point values — the parameter checks, the scale-down
//! of the anchor, each multiplication by the growth factor, and the seam
//! comparison — is delegated to the caller: each call of
//! [`Generator::step`] consumes the answer to the previous request and
//! returns the next one. Boundaries travel as raw bit patterns (`u64`),
//! so the generator itself is plain integer code.
//!
//! The whole behaviour of a step is pinned down by [`step_model`]: the
//! state after the call and the returned action are exactly the model's
//! value for the state before the call and the consumed event.

use vstd::prelude::*;

verus! {

/// The requested split of the boundary sequence: `count_below` boundaries
/// strictly below the anchor, the anchor itself, and `count_above`
/// boundaries strictly above it, each step multiplying by `factor`.
///
/// `start` and `factor` are bit patterns of 64-bit floating-point values.
/// The generator never interprets them; the driver checks `start > 0` and
/// `factor > 1` when asked to.
#[derive(Clone, Copy, Debug, PartialEq, Eq, Structural)]
pub struct BucketSpec {
    pub start: u64,
    pub factor: u64,
    pub count_below: usize,
    pub count_above: usize,
}

/// The two ways a generation can fail.
#[derive(Clone, Copy, Debug, PartialEq, Eq, Structural)]
pub enum BucketError {
    /// The driver reported that `start <= 0` or `factor <= 1`.
    InvalidParameters,
    /// The driver reported that the last below-half boundary reached the
    /// anchor: rounding in the scale-down and the multiplications ate the
    /// whole gap. Retrying with the same parameters cannot succeed; the
    /// remediation is a larger factor or a smaller below-count.
    BucketOverlap,
}

/// What the generator waits for next.
#[derive(Clone, Copy, Debug, PartialEq, Eq, Structural)]
pub enum Phase {
    /// Waiting for the parameter check.
    Params,
    /// Waiting for the next below-half boundary.
    Below,
    /// Waiting for the next above-half boundary.
    Above,
    /// Waiting for the seam comparison.
    Seam,
    /// Finished, successfully or not.
    Done,
}

/// A numeric operation the driver must carry out, or the finished result.
///
/// Every operand is handed out with the request, so a driver keeps no
/// state of its own beyond the generator itself.
#[derive(Debug)]
pub enum Action {
    /// Check that `start > 0` and `factor > 1` hold of the two values;
    /// answer with [`Event::ParamsChecked`].
    CheckParams { start: u64, factor: u64 },
    /// Compute `start / factor^power`, the first below-half boundary;
    /// answer with [`Event::Computed`].
    ScaleDown { start: u64, factor: u64, power: usize },
    /// Compute `value * factor`, the next boundary; answer with
    /// [`Event::Computed`].
    Multiply { value: u64, factor: u64 },
    /// Check whether `left >= right`, where `left` is the last below-half
    /// boundary and `right` the anchor; answer with [`Event::Compared`].
    CompareAtSeam { left: u64, right: u64 },
    /// The boundary sequence, or the error. No answer is expected.
    Finished(Result<Vec<u64>, BucketError>),
}

/// The driver's answer to the pending [`Action`].
#[derive(Clone, Copy, Debug, PartialEq, Eq, Structural)]
pub enum Event {
    /// Whether both parameter conditions held.
    ParamsChecked(bool),
    /// The bit pattern of the computed value.
    Computed(u64),
    /// Whether the compared value reached the anchor.
    Compared(bool),
}

/// The generator's state as the contracts see it: the requested split,
/// the boundaries accumulated so far, and what is awaited next.
#[verifier::ext_equal]
pub struct GenModel {
    pub params: BucketSpec,
    pub out: Seq<u64>,
    pub phase: Phase,
}

/// [`Action`] at the specification level, with the finished sequence as a
/// `Seq` instead of a `Vec`.
#[verifier::ext_equal]
pub enum ActionModel {
    CheckParams { start: u64, factor: u64 },
    ScaleDown { start: u64, factor: u64, power: usize },
    Multiply { value: u64, factor: u64 },
    CompareAtSeam { left: u64, right: u64 },
    Finished(Result<Seq<u64>, BucketError>),
}

impl View for Action {
    type V = ActionModel;

    open spec fn view(&self) -> ActionModel {
        match self {
            Action::CheckParams { start, factor } => ActionModel::CheckParams {
                start: *start,
                factor: *factor,
            },
            Action::ScaleDown { start, factor, power } => ActionModel::ScaleDown {
                start: *start,
                factor: *factor,
                power: *power,
            },
            Action::Multiply { value, factor } => ActionModel::Multiply {
                value: *value,
                factor: *factor,
            },
            Action::CompareAtSeam { left, right } => ActionModel::CompareAtSeam {
                left: *left,
                right: *right,
            },
            Action::Finished(r) => ActionModel::Finished(
                match r {
                    Ok(v) => Ok(v@),
                    Err(e) => Err(*e),
                },
            ),
        }
    }
}

/// The full sequence has the below half, the anchor, and the above half.
pub open spec fn target_len(params: BucketSpec) -> int {
    params.count_below + params.count_above + 1
}

/// The state a fresh generator starts in.
pub open spec fn init_model(params: BucketSpec) -> GenModel {
    GenModel { params, out: Seq::empty(), phase: Phase::Params }
}

/// The request a fresh generator hands out.
pub open spec fn initial_action(params: BucketSpec) -> ActionModel {
    ActionModel::CheckParams { start: params.start, factor: params.factor }
}

/// The anchor boundary appended: the below half is complete, and the
/// anchor takes index `count_below`.
pub open spec fn anchored(m: GenModel) -> GenModel {
    GenModel { out: m.out.push(m.params.start), ..m }
}

/// All boundaries are in place. With a non-empty below half the seam must
/// still be checked; otherwise the sequence is handed over as it is, and
/// the generator keeps nothing.
pub open spec fn completed(m: GenModel) -> (GenModel, ActionModel) {
    if m.params.count_below > 0 {
        (
            GenModel { phase: Phase::Seam, ..m },
            ActionModel::CompareAtSeam {
                left: m.out[m.params.count_below - 1],
                right: m.params.start,
            },
        )
    } else {
        (
            GenModel { phase: Phase::Done, out: Seq::empty(), ..m },
            ActionModel::Finished(Ok(m.out)),
        )
    }
}

/// Just past the anchor: above-half boundaries are requested one by one,
/// the first one from the anchor itself.
pub open spec fn after_anchor(m: GenModel) -> (GenModel, ActionModel) {
    if m.params.count_above > 0 {
        (
            GenModel { phase: Phase::Above, ..m },
            ActionModel::Multiply { value: m.params.start, factor: m.params.factor },
        )
    } else {
        completed(m)
    }
}

/// The transition relation of the generator, as a function: the state
/// after a step and the action it returns, from the state before it and
/// the consumed event. [`Generator::step`] ensures exactly this, so a
/// driver's whole run is determined by the events it answers with.
pub open spec fn step_model(m: GenModel, ev: Event) -> (GenModel, ActionModel) {
    match (m.phase, ev) {
        (Phase::Params, Event::ParamsChecked(ok)) => {
            if !ok {
                (
                    GenModel { phase: Phase::Done, ..m },
                    ActionModel::Finished(Err(BucketError::InvalidParameters)),
                )
            } else if m.params.count_below > 0 {
                (
                    GenModel { phase: Phase::Below, ..m },
                    ActionModel::ScaleDown {
                        start: m.params.start,
                        factor: m.params.factor,
                        power: m.params.count_below,
                    },
                )
            } else {
                after_anchor(anchored(m))
            }
        },
        (Phase::Below, Event::Computed(v)) => {
            let grown = GenModel { out: m.out.push(v), ..m };
            if grown.out.len() < m.params.count_below {
                (grown, ActionModel::Multiply { value: v, factor: m.params.factor })
            } else {
                after_anchor(anchored(grown))
            }
        },
        (Phase::Above, Event::Computed(v)) => {
            let grown = GenModel { out: m.out.push(v), ..m };
            if grown.out.len() < target_len(m.params) {
                (grown, ActionModel::Multiply { value: v, factor: m.params.factor })
            } else {
                completed(grown)
            }
        },
        (Phase::Seam, Event::Compared(reached)) => {
            if reached {
                (
                    GenModel { phase: Phase::Done, ..m },
                    ActionModel::Finished(Err(BucketError::BucketOverlap)),
                )
            } else {
                (
                    GenModel { phase: Phase::Done, out: Seq::empty(), ..m },
                    ActionModel::Finished(Ok(m.out)),
                )
            }
        },
        _ => (m, ActionModel::Finished(Err(BucketError::InvalidParameters))),
    }
}

impl GenModel {
    /// What holds of the state in each phase: how full the output is, and
    /// that the anchor sits at index `count_below` once it is in.
    pub open spec fn wf(self) -> bool {
        match self.phase {
            Phase::Params => self.out.len() == 0,
            Phase::Below => {
                &&& self.params.count_below > 0
                &&& self.out.len() < self.params.count_below
            },
            Phase::Above => {
                &&& self.out.len() > self.params.count_below
                &&& self.out.len() <= self.params.count_below + self.params.count_above
                &&& self.out[self.params.count_below as int] == self.params.start
            },
            Phase::Seam => {
                &&& self.params.count_below > 0
                &&& self.out.len() == target_len(self.params)
                &&& self.out[self.params.count_below as int] == self.params.start
            },
            Phase::Done => true,
        }
    }

    /// Which events answer the pending request.
    pub open spec fn accepts(self, ev: Event) -> bool {
        match (self.phase, ev) {
            (Phase::Params, Event::ParamsChecked(_)) => true,
            (Phase::Below, Event::Computed(_)) => true,
            (Phase::Above, Event::Computed(_)) => true,
            (Phase::Seam, Event::Compared(_)) => true,
            _ => false,
        }
    }
}

/// A step taken on a well-formed state leaves a well-formed state, and
/// never touches the requested split.
pub proof fn lemma_step_preserves_wf(m: GenModel, ev: Event)
    requires
        m.wf(),
        m.accepts(ev),
    ensures
        step_model(m, ev).0.wf(),
        step_model(m, ev).0.params == m.params,
{
}

/// Builds one two-sided boundary sequence, one numeric request at a time.
///
/// A driver obtains a generator and its first request from
/// [`Generator::new`], then repeats: carry out the returned [`Action`],
/// feed the answer to [`Generator::step`], and stop at
/// [`Action::Finished`].
pub struct Generator {
    params: BucketSpec,
    out: Vec<u64>,
    phase: Phase,
}

impl View for Generator {
    type V = GenModel;

    closed spec fn view(&self) -> GenModel {
        GenModel { params: self.params, out: self.out@, phase: self.phase }
    }
}

impl Generator {
    /// A generator for the given split, together with the parameter check
    /// that must be answered first.
    pub fn new(params: BucketSpec) -> (r: (Generator, Action))
        ensures
            r.0@ == init_model(params),
            r.1@ == initial_action(params),
            r.0@.wf(),
    {
        let generator = Generator { params, out: Vec::new(), phase: Phase::Params };
        let action = Action::CheckParams { start: params.start, factor: params.factor };
        proof {
            assert(generator@ =~= init_model(params));
        }
        (generator, action)
    }

    /// Consumes the answer to the pending request and returns the next
    /// one. State and action are exactly [`step_model`] of the state
    /// before the call and the event.
    pub fn step(&mut self, ev: Event) -> (a: Action)
        requires
            old(self)@.wf(),
            old(self)@.accepts(ev),
        ensures
            final(self)@ == step_model(old(self)@, ev).0,
            a@ == step_model(old(self)@, ev).1,
            final(self)@.wf(),
    {
        proof {
            lemma_step_preserves_wf(old(self)@, ev);
        }
        match (self.phase, ev) {
            (Phase::Params, Event::ParamsChecked(ok)) => {
                if !ok {
                    self.phase = Phase::Done;
                    Action::Finished(Err(BucketError::InvalidParameters))
                } else if self.params.count_below > 0 {
                    self.phase = Phase::Below;
                    Action::ScaleDown {
                        start: self.params.start,
                        factor: self.params.factor,
                        power: self.params.count_below,
                    }
                } else {
                    self.advance_past_anchor()
                }
            },
            (Phase::Below, Event::Computed(v)) => {
                self.out.push(v);
                if self.out.len() < self.params.count_below {
                    Action::Multiply { value: v, factor: self.params.factor }
                } else {
                    self.advance_past_anchor()
                }
            },
            (Phase::Above, Event::Computed(v)) => {
                self.out.push(v);
                if self.out.len() - self.params.count_below <= self.params.count_above {
                    Action::Multiply { value: v, factor: self.params.factor }
                } else {
                    self.complete()
                }
            },
            (Phase::Seam, Event::Compared(reached)) => {
                self.phase = Phase::Done;
                if reached {
                    Action::Finished(Err(BucketError::BucketOverlap))
                } else {
                    let mut handed: Vec<u64> = Vec::new();
                    core::mem::swap(&mut handed, &mut self.out);
                    Action::Finished(Ok(handed))
                }
            },
            _ => Action::Finished(Err(BucketError::InvalidParameters)),
        }
    }

    /// Appends the anchor boundary and requests the first above-half
    /// product, or moves on when none is wanted.
    fn advance_past_anchor(&mut self) -> (a: Action)
        requires
            old(self)@.out.len() == old(self)@.params.count_below,
        ensures
            final(self)@ == after_anchor(anchored(old(self)@)).0,
            a@ == after_anchor(anchored(old(self)@)).1,
    {
        self.out.push(self.params.start);
        if self.params.count_above > 0 {
            self.phase = Phase::Above;
            Action::Multiply { value: self.params.start, factor: self.params.factor }
        } else {
            self.complete()
        }
    }

    /// All boundaries are in: requests the seam comparison, or hands the
    /// sequence over when the below half is empty.
    fn complete(&mut self) -> (a: Action)
        requires
            old(self)@.out.len() == target_len(old(self)@.params),
        ensures
            final(self)@ == completed(old(self)@).0,
            a@ == completed(old(self)@).1,
    {
        if self.params.count_below > 0 {
            self.phase = Phase::Seam;
            let left: u64 = self.out[self.params.count_below - 1];
            Action::CompareAtSeam { left, right: self.params.start }
        } else {
            self.phase = Phase::Done;
            let mut handed: Vec<u64> = Vec::new();
            core::mem::swap(&mut handed, &mut self.out);
            Action::Finished(Ok(handed))
        }
    }
}

impl BucketError {
    /// The report for this error, at the specification level.
    pub open spec fn message_model(self) -> Seq<char> {
        match self {
            BucketError::InvalidParameters => "invalid exponential sequence parameters"@,
            BucketError::BucketOverlap => "floating point arithmetic error causing incorrect buckets, try larger factor or smaller count_below"@,
        }
    }

    /// A human-readable report: for an overlap it names the remediation,
    /// a larger factor or a smaller below-count.
    pub fn message(&self) -> (m: String)
        ensures
            m@ == self.message_model(),
    {
        match self {
            BucketError::InvalidParameters => "invalid exponential sequence parameters".to_owned(),
            BucketError::BucketOverlap => "floating point arithmetic error causing incorrect buckets, try larger factor or smaller count_below".to_owned(),
        }
    }
}

} // verus!
