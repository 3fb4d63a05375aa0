//! Properties of the correlation state machine, proved over [`spec_step`].
//!
//! The model here folds the transition function of
//! [`crate::correlate`] over a whole sequence of classified frames:
//! [`run_state`] is the state after the sequence, [`run_events`] the
//! caller-visible outputs it produced. Terminal states absorb every later
//! frame, which is how "stop consuming" appears in the model.

use vstd::prelude::*;

use crate::correlate::OutcomeModel;
use crate::correlate::SpotAnswerStatus;
use crate::correlate::StateModel;
use crate::correlate::fresh_model;
use crate::correlate::full_parts;
use crate::correlate::is_terminal;
use crate::correlate::spec_step;
use crate::envelope::FrameModel;
use crate::errors::FailureModel;

verus! {

/// The correlation state after processing `fs` from `s`, frame by frame.
pub open spec fn run_state(s: StateModel, fs: Seq<FrameModel>) -> StateModel
    decreases fs.len(),
{
    if fs.len() == 0 {
        s
    } else {
        run_state(spec_step(s, fs[0]).0, fs.drop_first())
    }
}

/// Everything the caller sees while `fs` is processed from `s`: each frame's
/// outcome except the silent ones.
pub open spec fn run_events(s: StateModel, fs: Seq<FrameModel>) -> Seq<OutcomeModel>
    decreases fs.len(),
{
    if fs.len() == 0 {
        Seq::empty()
    } else {
        let o = spec_step(s, fs[0]).1;
        let head: Seq<OutcomeModel> = if o == OutcomeModel::Skip {
            Seq::empty()
        } else {
            seq![o]
        };
        head + run_events(spec_step(s, fs[0]).0, fs.drop_first())
    }
}

/// Whether some frame in `fs` is a result part with index `j`.
pub open spec fn part_delivered(fs: Seq<FrameModel>, j: u32) -> bool {
    exists|i: int|
        0 <= i < fs.len() && ((#[trigger] fs[i]) matches FrameModel::ResultPart { id, .. } && id
            == j)
}

/// A terminal state processes nothing further: whatever is still buffered,
/// the state does not change and nothing more becomes visible. This is what
/// bounds processing after completion, failure or cancellation.
pub proof fn lemma_done_absorbs(s: StateModel, fs: Seq<FrameModel>)
    requires
        s.done,
    ensures
        run_state(s, fs) == s,
        run_events(s, fs) == Seq::<OutcomeModel>::empty(),
    decreases fs.len(),
{
    if fs.len() > 0 {
        lemma_done_absorbs(s, fs.drop_first());
        assert(run_events(s, fs) =~= Seq::<OutcomeModel>::empty());
    }
}

/// A step's outcome is terminal exactly when the step makes the state
/// terminal.
proof fn lemma_step_terminal(s: StateModel, f: FrameModel)
    requires
        !s.done,
    ensures
        is_terminal(spec_step(s, f).1) <==> spec_step(s, f).0.done,
{
}

/// At most one terminal output is ever produced, and it is the last output:
/// whatever frames arrive, in whatever order and multiplicity, the stream
/// ends at its first completion or failure.
pub proof fn lemma_terminal_is_last(s: StateModel, fs: Seq<FrameModel>)
    ensures
        forall|i: int|
            0 <= i < run_events(s, fs).len() && is_terminal(run_events(s, fs)[i]) ==> i
                == run_events(s, fs).len() - 1,
    decreases fs.len(),
{
    if fs.len() > 0 {
        let s2 = spec_step(s, fs[0]).0;
        let o = spec_step(s, fs[0]).1;
        let tail = run_events(s2, fs.drop_first());
        lemma_terminal_is_last(s2, fs.drop_first());
        if s.done {
            lemma_done_absorbs(s, fs);
        } else {
            lemma_step_terminal(s, fs[0]);
            if is_terminal(o) {
                lemma_done_absorbs(s2, fs.drop_first());
                assert(run_events(s, fs) =~= seq![o]);
            } else if o == OutcomeModel::Skip {
                assert(run_events(s, fs) =~= tail);
            } else {
                assert(run_events(s, fs) =~= seq![o] + tail);
                assert forall|i: int|
                    0 <= i < run_events(s, fs).len() && is_terminal(
                        run_events(s, fs)[i],
                    ) implies i == run_events(s, fs).len() - 1 by {
                    if i == 0 {
                        assert(run_events(s, fs)[0] == o);
                        assert(tail.len() == 0);
                    } else {
                        assert(run_events(s, fs)[i] == tail[i - 1]);
                    }
                }
            }
        }
    }
}

/// The state's own invariant over every transition: once the outstanding
/// set has been populated it stays populated, and it only ever shrinks. In
/// particular the set is populated at most once, and completion can only come
/// closer.
pub proof fn lemma_outstanding_only_shrinks(s: StateModel, f: FrameModel)
    requires
        s.populated,
    ensures
        spec_step(s, f).0.populated,
        spec_step(s, f).0.outstanding.subset_of(s.outstanding),
{
}

/// Processing the same matching result part twice moves the state no further
/// than processing it once: duplicate delivery does not double-count toward
/// completion.
pub proof fn lemma_duplicate_no_double_count(s: StateModel, f: FrameModel)
    requires
        f matches FrameModel::ResultPart { .. },
    ensures
        spec_step(spec_step(s, f).0, f).0 == spec_step(s, f).0,
{
    let s1 = spec_step(s, f).0;
    if !s.done && !s1.done {
        match f {
            FrameModel::ResultPart { rid, id, of } => {
                if rid == s.rid {
                    assert(s1.outstanding.remove(id) =~= s1.outstanding);
                }
            },
            _ => {},
        }
    }
}

/// Frames carrying a foreign request identity are invisible: they change
/// nothing and produce no output on this correlator's stream.
pub proof fn lemma_foreign_frames_invisible(s: StateModel, fs: Seq<FrameModel>)
    requires
        forall|i: int|
            0 <= i < fs.len() ==> match #[trigger] fs[i] {
                FrameModel::ResultPart { rid, .. } => rid != s.rid,
                FrameModel::ErrorFrame { rid, .. } => rid != s.rid,
                FrameModel::Violation => false,
            },
    ensures
        run_state(s, fs) == s,
        run_events(s, fs) == Seq::<OutcomeModel>::empty(),
    decreases fs.len(),
{
    if fs.len() > 0 {
        assert(spec_step(s, fs[0]).0 == s);
        lemma_foreign_frames_invisible(s, fs.drop_first());
        assert(run_events(s, fs) =~= Seq::<OutcomeModel>::empty());
    }
}

/// An error frame for the active request terminates the stream at once with
/// the worker's failure, and nothing after it is processed, even frames
/// already buffered.
pub proof fn lemma_error_frame_terminates(s: StateModel, fs: Seq<FrameModel>)
    requires
        !s.done,
        fs.len() >= 1,
        fs[0] matches FrameModel::ErrorFrame { rid, .. } && rid == s.rid,
    ensures
        run_state(s, fs).done,
        run_events(s, fs) == seq![
            OutcomeModel::Abort(
                FailureModel::UpstreamFailure {
                    reason: fs[0]->ErrorFrame_reason,
                    sender: fs[0]->ErrorFrame_sender,
                },
            ),
        ],
{
    let s2 = spec_step(s, fs[0]).0;
    lemma_done_absorbs(s2, fs.drop_first());
    assert(run_events(s, fs) =~= seq![spec_step(s, fs[0]).1]);
}

/// A frame that decodes as neither a result part nor an error frame
/// terminates the stream at once with a protocol violation; the request is
/// not left hanging, and nothing after the frame is processed.
pub proof fn lemma_violation_terminates(s: StateModel, fs: Seq<FrameModel>)
    requires
        !s.done,
        fs.len() >= 1,
        fs[0] is Violation,
    ensures
        run_state(s, fs).done,
        run_events(s, fs) == seq![OutcomeModel::Abort(FailureModel::ProtocolViolation)],
{
    let s2 = spec_step(s, fs[0]).0;
    lemma_done_absorbs(s2, fs.drop_first());
    assert(run_events(s, fs) =~= seq![spec_step(s, fs[0]).1]);
}

/// The inductive heart of completion: from a populated, unfinished state
/// whose every outstanding part still arrives somewhere in `fs`, the run
/// emits `Running` for every frame but the last and ends with exactly one
/// `Finished`.
proof fn lemma_covered_run_finishes(s: StateModel, n: u32, fs: Seq<FrameModel>)
    requires
        !s.done,
        s.populated,
        !s.outstanding.is_empty(),
        s.outstanding.subset_of(full_parts(n)),
        forall|i: int|
            0 <= i < fs.len() ==> ((#[trigger] fs[i]) matches FrameModel::ResultPart { rid, id, of } && rid
                == s.rid && of == n && id < n),
        forall|j: u32| s.outstanding.contains(j) ==> #[trigger] part_delivered(fs, j),
    ensures
        run_state(s, fs).done,
        run_events(s, fs).len() >= 1,
        run_events(s, fs).last() == OutcomeModel::Emit(SpotAnswerStatus::Finished),
        forall|i: int|
            0 <= i < run_events(s, fs).len() - 1 ==> run_events(s, fs)[i] == OutcomeModel::Emit(
                SpotAnswerStatus::Running,
            ),
    decreases fs.len(),
{
    let j0 = s.outstanding.choose();
    assert(s.outstanding.contains(j0));
    assert(part_delivered(fs, j0));
    assert(fs.len() >= 1);
    let f0 = fs[0];
    let id0 = f0->ResultPart_id;
    let s2 = spec_step(s, f0).0;
    let o = spec_step(s, f0).1;
    let rest = s.outstanding.remove(id0);
    if rest.is_empty() {
        assert(o == OutcomeModel::Emit(SpotAnswerStatus::Finished));
        lemma_done_absorbs(s2, fs.drop_first());
        assert(run_events(s, fs) =~= seq![o]);
    } else {
        assert(o == OutcomeModel::Emit(SpotAnswerStatus::Running));
        assert forall|j: u32| s2.outstanding.contains(j) implies #[trigger] part_delivered(
            fs.drop_first(),
            j,
        ) by {
            assert(s.outstanding.contains(j));
            assert(part_delivered(fs, j));
            let i = choose|i: int|
                0 <= i < fs.len() && ((#[trigger] fs[i]) matches FrameModel::ResultPart { id, .. }
                    && id == j);
            assert(i != 0);
            assert(fs.drop_first()[i - 1] == fs[i]);
        }
        lemma_covered_run_finishes(s2, n, fs.drop_first());
        assert(run_events(s, fs) =~= seq![o] + run_events(s2, fs.drop_first()));
    }
}

/// Completion: for a request whose parts all declare a total of `n >= 1`,
/// delivering parts with every index below `n` present — in any order, with
/// any duplication — yields `Running` for each delivery except the last and
/// then exactly one `Finished`, which is the final output; the state is then
/// terminal.
pub proof fn lemma_all_parts_finish(rid: Seq<char>, n: u32, fs: Seq<FrameModel>)
    requires
        n >= 1,
        forall|i: int|
            0 <= i < fs.len() ==> ((#[trigger] fs[i]) matches FrameModel::ResultPart { rid: r, id, of } && r
                == rid && of == n && id < n),
        forall|j: u32| j < n ==> #[trigger] part_delivered(fs, j),
    ensures
        run_state(fresh_model(rid), fs).done,
        run_events(fresh_model(rid), fs).len() >= 1,
        run_events(fresh_model(rid), fs).last() == OutcomeModel::Emit(SpotAnswerStatus::Finished),
        forall|i: int|
            0 <= i < run_events(fresh_model(rid), fs).len() - 1 ==> run_events(
                fresh_model(rid),
                fs,
            )[i] == OutcomeModel::Emit(SpotAnswerStatus::Running),
{
    let s = fresh_model(rid);
    assert(part_delivered(fs, 0));
    assert(fs.len() >= 1);
    let f0 = fs[0];
    let id0 = f0->ResultPart_id;
    let s2 = spec_step(s, f0).0;
    let o = spec_step(s, f0).1;
    let rest = full_parts(n).remove(id0);
    if rest.is_empty() {
        assert(o == OutcomeModel::Emit(SpotAnswerStatus::Finished));
        lemma_done_absorbs(s2, fs.drop_first());
        assert(run_events(s, fs) =~= seq![o]);
    } else {
        assert(o == OutcomeModel::Emit(SpotAnswerStatus::Running));
        assert(s2.outstanding == rest);
        assert(rest.subset_of(full_parts(n)));
        assert forall|j: u32| s2.outstanding.contains(j) implies #[trigger] part_delivered(
            fs.drop_first(),
            j,
        ) by {
            assert(j < n);
            assert(part_delivered(fs, j));
            let i = choose|i: int|
                0 <= i < fs.len() && ((#[trigger] fs[i]) matches FrameModel::ResultPart { id, .. }
                    && id == j);
            assert(i != 0);
            assert(fs.drop_first()[i - 1] == fs[i]);
        }
        lemma_covered_run_finishes(s2, n, fs.drop_first());
        assert(run_events(s, fs) =~= seq![o] + run_events(s2, fs.drop_first()));
    }
}

} // verus!
