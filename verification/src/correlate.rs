//! The per-request correlation state machine.
//!
//! One `CorrelationState` owns the lifecycle of one outstanding query. Every
//! frame of the merged results-and-errors feed is handed to it as payload
//! bytes; it classifies the frame, filters by request identity, tracks which
//! of the declared result parts have arrived, and answers with the action the
//! caller must take: silently acknowledge, emit an incremental result, or
//! emit a terminal failure. The outstanding-parts set is populated at most
//! once, from the first matching part's declared total, and only ever
//! shrinks; the request is complete exactly when the set becomes empty.
//!
//! Frames may be duplicated and arrive in any order; completion depends only
//! on set emptiness. Every decision is deterministic and is specified by
//! [`spec_step`], the transition function the proofs in [`crate::laws`] are
//! stated over.

use vstd::prelude::*;
use vstd::hash_set::HashSetWithView;

use crate::envelope::DecodedFrame;
use crate::envelope::FrameModel;
use crate::envelope::classify_frame;
use crate::envelope::spec_classify;
use crate::errors::FailureKind;
use crate::errors::FailureModel;

verus! {

broadcast use vstd::std_specs::hash::axiom_u32_obeys_hash_table_key_model;

/// Whether an emitted result is one of more to come, or the last one.
#[derive(Clone, Copy, PartialEq, Eq, Structural, Debug)]
pub enum SpotAnswerStatus {
    Running,
    Finished,
}

/// Spec-level mirror of [`StepOutput`].
pub enum OutcomeModel {
    Skip,
    Emit(SpotAnswerStatus),
    Abort(FailureModel),
}

/// What the caller must do with the frame just processed.
#[derive(Debug)]
pub enum StepOutput {
    /// Acknowledge the frame and move on; it was not for this request.
    Skip,
    /// Acknowledge and yield an incremental result with this status; stop
    /// consuming after a `Finished` status.
    Emit(SpotAnswerStatus),
    /// Acknowledge, yield this terminal failure, and stop consuming.
    Abort(FailureKind),
}

impl View for StepOutput {
    type V = OutcomeModel;

    open spec fn view(&self) -> OutcomeModel {
        match self {
            StepOutput::Skip => OutcomeModel::Skip,
            StepOutput::Emit(st) => OutcomeModel::Emit(*st),
            StepOutput::Abort(k) => OutcomeModel::Abort(k@),
        }
    }
}

/// An output that ends the stream: the last result or a terminal failure.
pub open spec fn is_terminal(o: OutcomeModel) -> bool {
    o == OutcomeModel::Emit(SpotAnswerStatus::Finished) || o matches OutcomeModel::Abort(_)
}

/// Spec-level mirror of [`CorrelationState`].
pub struct StateModel {
    pub rid: Seq<char>,
    pub populated: bool,
    pub outstanding: Set<u32>,
    pub done: bool,
}

/// The state a correlation starts in: identity assigned, no part seen yet.
pub open spec fn fresh_model(rid: Seq<char>) -> StateModel {
    StateModel { rid, populated: false, outstanding: Set::empty(), done: false }
}

/// The outstanding-parts set right after the first part of a request that
/// declared `of` parts: all indices below `of`.
pub open spec fn full_parts(of: u32) -> Set<u32> {
    Set::new(|j: u32| j < of)
}

/// The transition function: how one classified frame moves the correlation
/// state, and what it makes visible. A terminal state absorbs every frame.
pub open spec fn spec_step(s: StateModel, f: FrameModel) -> (StateModel, OutcomeModel) {
    if s.done {
        (s, OutcomeModel::Skip)
    } else {
        match f {
            FrameModel::Violation => (
                StateModel { done: true, ..s },
                OutcomeModel::Abort(FailureModel::ProtocolViolation),
            ),
            FrameModel::ErrorFrame { rid, sender, reason, input } => if rid != s.rid {
                (s, OutcomeModel::Skip)
            } else {
                (
                    StateModel { done: true, ..s },
                    OutcomeModel::Abort(FailureModel::UpstreamFailure { reason, sender }),
                )
            },
            FrameModel::ResultPart { rid, id, of } => if rid != s.rid {
                (s, OutcomeModel::Skip)
            } else {
                let base = if s.populated {
                    s.outstanding
                } else {
                    full_parts(of)
                };
                let rest = base.remove(id);
                if rest.is_empty() {
                    (
                        StateModel { populated: true, outstanding: rest, done: true, ..s },
                        OutcomeModel::Emit(SpotAnswerStatus::Finished),
                    )
                } else {
                    (
                        StateModel { populated: true, outstanding: rest, ..s },
                        OutcomeModel::Emit(SpotAnswerStatus::Running),
                    )
                }
            },
        }
    }
}

/// The in-flight state of one request: its identity, the set of part indices
/// still outstanding, whether that set has been populated yet, and whether a
/// terminal output has been produced.
pub struct CorrelationState {
    request_id: String,
    populated: bool,
    outstanding: HashSetWithView<u32>,
    done: bool,
}

impl View for CorrelationState {
    type V = StateModel;

    closed spec fn view(&self) -> StateModel {
        StateModel {
            rid: self.request_id@,
            populated: self.populated,
            outstanding: self.outstanding@,
            done: self.done,
        }
    }
}

impl CorrelationState {
    /// The outstanding set is populated lazily, so before the first part it
    /// must still be empty.
    pub open spec fn wf(&self) -> bool {
        !self@.populated ==> self@.outstanding == Set::<u32>::empty()
    }

    /// Starts correlating the request with the given identity.
    pub fn new(request_id: String) -> (s: Self)
        ensures
            s@ == fresh_model(request_id@),
            s.wf(),
    {
        CorrelationState {
            request_id,
            populated: false,
            outstanding: HashSetWithView::<u32>::new(),
            done: false,
        }
    }

    /// The identity every frame of this request must carry.
    pub fn request_id(&self) -> (r: &String)
        ensures
            r@ == self@.rid,
    {
        &self.request_id
    }

    /// Whether a terminal output has been produced; no further frames are
    /// processed once this holds.
    pub fn is_done(&self) -> (r: bool)
        ensures
            r == self@.done,
    {
        self.done
    }

    /// Caller-initiated cancellation: the state becomes terminal and
    /// processing stops; nothing else changes and no error is raised.
    pub fn cancel(&mut self)
        requires
            old(self).wf(),
        ensures
            final (self).wf(),
            final (self)@ == (StateModel { done: true, ..old(self)@ }),
    {
        self.done = true;
    }

    /// Processes one already-classified frame; [`spec_step`] says exactly
    /// what changes and what becomes visible.
    pub fn step(&mut self, frame: &DecodedFrame) -> (out: StepOutput)
        requires
            old(self).wf(),
            !old(self)@.done,
        ensures
            final (self).wf(),
            final (self)@ == spec_step(old(self)@, frame@).0,
            out@ == spec_step(old(self)@, frame@).1,
    {
        match frame {
            DecodedFrame::Violation => {
                self.done = true;
                StepOutput::Abort(FailureKind::ProtocolViolation)
            },
            DecodedFrame::ErrorFrame(e) => {
                if e.request_id == self.request_id {
                    self.done = true;
                    StepOutput::Abort(
                        FailureKind::UpstreamFailure {
                            reason: e.reason.clone(),
                            sender: e.sender.clone(),
                        },
                    )
                } else {
                    StepOutput::Skip
                }
            },
            DecodedFrame::ResultPart(r) => {
                if r.request_id == self.request_id {
                    if !self.populated {
                        let of = r.part.of;
                        let ghost rid = self.request_id@;
                        let mut i: u32 = 0;
                        while i < of
                            invariant
                                i <= of,
                                self.request_id@ == rid,
                                self.populated == false,
                                self.done == false,
                                self.outstanding@ == full_parts(i),
                            decreases of - i,
                        {
                            self.outstanding.insert(i);
                            proof {
                                assert(full_parts(i).insert(i) =~= full_parts((i + 1) as u32));
                            }
                            i += 1;
                        }
                        self.populated = true;
                    }
                    self.outstanding.remove(&r.part.id);
                    if self.outstanding.is_empty() {
                        self.done = true;
                        StepOutput::Emit(SpotAnswerStatus::Finished)
                    } else {
                        StepOutput::Emit(SpotAnswerStatus::Running)
                    }
                } else {
                    StepOutput::Skip
                }
            },
        }
    }

    /// Classifies one inbound payload and processes it: the whole per-frame
    /// decision of the correlator, from bus bytes to caller-visible action.
    pub fn process_frame(&mut self, payload: &[u8]) -> (out: StepOutput)
        requires
            old(self).wf(),
            !old(self)@.done,
        ensures
            final (self).wf(),
            final (self)@ == spec_step(old(self)@, spec_classify(payload@)).0,
            out@ == spec_step(old(self)@, spec_classify(payload@)).1,
    {
        let frame = classify_frame(payload);
        self.step(&frame)
    }
}

} // verus!
