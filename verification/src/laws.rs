//! The guarantees of the generator, stated and proved over its model.

use vstd::prelude::*;

use crate::buckets::{
    init_model, lemma_step_preserves_wf, step_model, target_len, ActionModel, BucketError,
    BucketSpec, Event, GenModel,
};

verus! {

/// Law: a successful generation has exactly
/// `count_below + count_above + 1` boundaries.
pub proof fn lemma_ok_length(m: GenModel, ev: Event)
    requires
        m.wf(),
        m.accepts(ev),
    ensures
        (step_model(m, ev).1 matches ActionModel::Finished(Ok(s)) ==> s.len() == target_len(
            m.params,
        )),
{
}

/// Law: a successful generation carries the anchor's exact bit pattern at
/// index `count_below`.
pub proof fn lemma_ok_anchor(m: GenModel, ev: Event)
    requires
        m.wf(),
        m.accepts(ev),
    ensures
        (step_model(m, ev).1 matches ActionModel::Finished(Ok(s)) ==> s[
            m.params.count_below as int
        ] == m.params.start),
{
}

/// Law: with a non-empty below half, a sequence is handed over only after
/// the seam comparison came back negative — the last below-half boundary
/// stayed under the anchor, as the driver judges the two values.
pub proof fn lemma_ok_means_seam_held(m: GenModel, ev: Event)
    requires
        m.wf(),
        m.accepts(ev),
    ensures
        (step_model(m, ev).1 matches ActionModel::Finished(Ok(s)) && m.params.count_below > 0
            ==> m.phase is Seam && ev == Event::Compared(false)),
{
}

/// Law: the parameter error is reported exactly when the driver answers
/// the parameter check negatively, and never later.
pub proof fn lemma_invalid_parameters(m: GenModel, ev: Event)
    requires
        m.wf(),
        m.accepts(ev),
    ensures
        step_model(m, ev).1 == ActionModel::Finished(
            Err::<Seq<u64>, BucketError>(BucketError::InvalidParameters),
        ) <==> m.phase is Params && ev == Event::ParamsChecked(false),
{
}

/// Law: the overlap error is reported exactly when the seam comparison
/// comes back positive, and never otherwise.
pub proof fn lemma_overlap(m: GenModel, ev: Event)
    requires
        m.wf(),
        m.accepts(ev),
    ensures
        step_model(m, ev).1 == ActionModel::Finished(
            Err::<Seq<u64>, BucketError>(BucketError::BucketOverlap),
        ) <==> m.phase is Seam && ev == Event::Compared(true),
{
}

/// The outcome of a whole run: the generator is stepped through the given
/// events until it finishes. `None` means the events ran out first.
pub open spec fn run_model(m: GenModel, evs: Seq<Event>) -> Option<
    Result<Seq<u64>, BucketError>,
>
    decreases evs.len(),
{
    if evs.len() == 0 {
        None
    } else {
        let stepped = step_model(m, evs.first());
        match stepped.1 {
            ActionModel::Finished(r) => Some(r),
            _ => run_model(stepped.0, evs.drop_first()),
        }
    }
}

/// Whether every event of a run answers the request pending at its turn.
pub open spec fn run_accepts(m: GenModel, evs: Seq<Event>) -> bool
    decreases evs.len(),
{
    evs.len() == 0 || {
        &&& m.accepts(evs.first())
        &&& {
            let stepped = step_model(m, evs.first());
            stepped.1 is Finished || run_accepts(stepped.0, evs.drop_first())
        }
    }
}

/// Law, over whole runs: whatever values the driver answers with, a
/// successful run yields exactly `count_below + count_above + 1`
/// boundaries, with the anchor's bit pattern at index `count_below`.
pub proof fn lemma_run_ok(m: GenModel, evs: Seq<Event>)
    requires
        m.wf(),
        run_accepts(m, evs),
    ensures
        (run_model(m, evs) matches Some(Ok(s)) ==> s.len() == target_len(m.params) && s[
            m.params.count_below as int
        ] == m.params.start),
    decreases evs.len(),
{
    if evs.len() > 0 {
        let stepped = step_model(m, evs.first());
        lemma_ok_length(m, evs.first());
        lemma_ok_anchor(m, evs.first());
        lemma_step_preserves_wf(m, evs.first());
        if !(stepped.1 is Finished) {
            lemma_run_ok(stepped.0, evs.drop_first());
        }
    }
}

/// A run pending at the seam yields, at most, the sequence it already
/// accumulated.
proof fn lemma_run_seam(m: GenModel, evs: Seq<Event>)
    requires
        m.wf(),
        m.phase is Seam,
        run_accepts(m, evs),
    ensures
        (run_model(m, evs) matches Some(Ok(s)) ==> s == m.out),
        run_model(m, evs) is Some ==> 1 <= evs.len(),
{
}

/// A run pending in the above half appends one answered value per event,
/// in order, after what it already accumulated.
proof fn lemma_run_above(m: GenModel, evs: Seq<Event>)
    requires
        m.wf(),
        m.phase is Above,
        run_accepts(m, evs),
    ensures
        (run_model(m, evs) matches Some(Ok(s)) ==> {
            &&& s.len() == target_len(m.params)
            &&& target_len(m.params) - m.out.len() + (
            if m.params.count_below > 0 {
                1int
            } else {
                0int
            }) <= evs.len()
            &&& (forall|j: int| 0 <= j < m.out.len() ==> #[trigger] s[j] == m.out[j])
            &&& (forall|j: int|
                m.out.len() <= j < target_len(m.params) ==> #[trigger] s[j]
                    == evs[j - m.out.len()]->Computed_0)
        }),
    decreases evs.len(),
{
    if evs.len() > 0 {
        let stepped = step_model(m, evs.first());
        lemma_step_preserves_wf(m, evs.first());
        let rest = evs.drop_first();
        let k: int = m.out.len() as int;
        assert(evs.first() == evs[0]);
        assert forall|x: int| 0 <= x < rest.len() implies #[trigger] rest[x] == evs[x + 1] by {}
        if !(stepped.1 is Finished) {
            if stepped.0.phase is Above {
                lemma_run_above(stepped.0, rest);
            } else {
                lemma_run_seam(stepped.0, rest);
            }
        }
        match run_model(m, evs) {
            Some(Ok(s)) => {
                assert forall|j: int|
                    k <= j < target_len(m.params) implies #[trigger] s[j] == evs[
                    j - k
                ]->Computed_0 by {
                    if j == k {
                        assert(s[j] == m.out.push(evs[0]->Computed_0)[j]);
                    } else {
                        assert(s[j] == rest[j - k - 1]->Computed_0);
                        assert(rest[j - k - 1] == evs[j - k]);
                    }
                }
            },
            _ => {},
        }
    }
}

/// A run pending in the below half fills the remaining below-half
/// indices with the answered values in order, places the anchor, and
/// fills the above half with the answers that follow.
proof fn lemma_run_below(m: GenModel, evs: Seq<Event>)
    requires
        m.wf(),
        m.phase is Below,
        run_accepts(m, evs),
    ensures
        (run_model(m, evs) matches Some(Ok(s)) ==> {
            &&& s.len() == target_len(m.params)
            &&& target_len(m.params) - m.out.len() <= evs.len()
            &&& (forall|j: int| 0 <= j < m.out.len() ==> #[trigger] s[j] == m.out[j])
            &&& (forall|j: int|
                m.out.len() <= j < m.params.count_below ==> #[trigger] s[j]
                    == evs[j - m.out.len()]->Computed_0)
            &&& s[m.params.count_below as int] == m.params.start
            &&& (forall|j: int|
                m.params.count_below < j < target_len(m.params) ==> #[trigger] s[j]
                    == evs[j - m.out.len() - 1]->Computed_0)
        }),
    decreases evs.len(),
{
    if evs.len() > 0 {
        let stepped = step_model(m, evs.first());
        lemma_step_preserves_wf(m, evs.first());
        let rest = evs.drop_first();
        let k: int = m.out.len() as int;
        assert(evs.first() == evs[0]);
        assert forall|x: int| 0 <= x < rest.len() implies #[trigger] rest[x] == evs[x + 1] by {}
        if !(stepped.1 is Finished) {
            if stepped.0.phase is Below {
                lemma_run_below(stepped.0, rest);
            } else if stepped.0.phase is Above {
                lemma_run_above(stepped.0, rest);
            } else {
                lemma_run_seam(stepped.0, rest);
            }
        }
        match run_model(m, evs) {
            Some(Ok(s)) => {
                assert forall|j: int|
                    k <= j < m.params.count_below implies #[trigger] s[j] == evs[
                    j - k
                ]->Computed_0 by {
                    if j == k {
                        assert(s[j] == m.out.push(evs[0]->Computed_0)[j]);
                    } else {
                        assert(s[j] == rest[j - k - 1]->Computed_0);
                        assert(rest[j - k - 1] == evs[j - k]);
                    }
                }
                assert(s[m.params.count_below as int] == m.params.start);
                assert forall|j: int|
                    m.params.count_below < j < target_len(m.params) implies #[trigger] s[j] == evs[
                    j - k - 1
                ]->Computed_0 by {
                    assert(s[j] == rest[j - k - 2]->Computed_0);
                    assert(rest[j - k - 2] == evs[j - k - 1]);
                }
            },
            _ => {},
        }
    }
}

/// Law, over whole runs: a successful run is the concatenation, in
/// order, of the below half, the anchor, and the above half — each half
/// holding exactly the values the driver answered with, below-half
/// first. Event `0` is the parameter check, so below-half boundary `j`
/// is the answer to event `j + 1`; the anchor at `count_below` is no
/// answer but the given value itself; and above-half boundary `j` is the
/// answer to event `j`, the shift absorbed by the anchor.
pub proof fn lemma_run_composition(params: BucketSpec, evs: Seq<Event>)
    requires
        run_accepts(init_model(params), evs),
    ensures
        (run_model(init_model(params), evs) matches Some(Ok(s)) ==> {
            &&& s.len() == target_len(params)
            &&& target_len(params) <= evs.len()
            &&& s[params.count_below as int] == params.start
            &&& (forall|j: int|
                0 <= j < params.count_below ==> #[trigger] s[j] == evs[j + 1]->Computed_0)
            &&& (forall|j: int|
                params.count_below < j < target_len(params) ==> #[trigger] s[j]
                    == evs[j]->Computed_0)
        }),
{
    let m = init_model(params);
    if evs.len() > 0 {
        let stepped = step_model(m, evs.first());
        lemma_step_preserves_wf(m, evs.first());
        let rest = evs.drop_first();
        assert(evs.first() == evs[0]);
        assert forall|x: int| 0 <= x < rest.len() implies #[trigger] rest[x] == evs[x + 1] by {}
        if !(stepped.1 is Finished) {
            if stepped.0.phase is Below {
                lemma_run_below(stepped.0, rest);
            } else if stepped.0.phase is Above {
                lemma_run_above(stepped.0, rest);
            } else {
                lemma_run_seam(stepped.0, rest);
            }
        }
        match run_model(init_model(params), evs) {
            Some(Ok(s)) => {
                assert forall|j: int|
                    0 <= j < params.count_below implies #[trigger] s[j] == evs[
                    j + 1
                ]->Computed_0 by {
                    assert(s[j] == rest[j]->Computed_0);
                    assert(rest[j] == evs[j + 1]);
                }
                assert(s[params.count_below as int] == params.start);
                assert forall|j: int|
                    params.count_below < j < target_len(params) implies #[trigger] s[j] == evs[
                    j
                ]->Computed_0 by {
                    assert(s[j] == rest[j - 1]->Computed_0);
                    assert(rest[j - 1] == evs[j]);
                }
            },
            _ => {},
        }
    }
}

/// Which events answer which requests: the parameter check takes its two
/// verdicts as one flag, each arithmetic request takes a bit pattern, and
/// the seam comparison takes its verdict.
pub open spec fn answers(a: ActionModel, ev: Event) -> bool {
    match (a, ev) {
        (ActionModel::CheckParams { .. }, Event::ParamsChecked(_)) => true,
        (ActionModel::ScaleDown { .. }, Event::Computed(_)) => true,
        (ActionModel::Multiply { .. }, Event::Computed(_)) => true,
        (ActionModel::CompareAtSeam { .. }, Event::Compared(_)) => true,
        _ => false,
    }
}

/// Law: the protocol can always be followed. An event of the kind that
/// answers the returned request is accepted at the next step, and a
/// finished generator is exactly one that awaits nothing further.
pub proof fn lemma_protocol(m: GenModel, ev: Event, answer: Event)
    requires
        m.wf(),
        m.accepts(ev),
    ensures
        answers(step_model(m, ev).1, answer) ==> step_model(m, ev).0.accepts(answer),
        step_model(m, ev).1 is Finished <==> !(exists|e: Event| step_model(m, ev).0.accepts(e)),
{
    if !(step_model(m, ev).1 is Finished) {
        let post = step_model(m, ev).0;
        if post.phase is Params {
            assert(post.accepts(Event::ParamsChecked(true)));
        } else if post.phase is Below || post.phase is Above {
            assert(post.accepts(Event::Computed(0)));
        } else {
            assert(post.accepts(Event::Compared(true)));
        }
    }
}

/// Law: when the driver rejects the parameters, the run reports exactly
/// the parameter error.
pub proof fn lemma_run_rejects_invalid(params: BucketSpec, evs: Seq<Event>)
    requires
        evs.len() > 0,
        evs.first() == Event::ParamsChecked(false),
    ensures
        run_model(init_model(params), evs) == Some(
            Err::<Seq<u64>, BucketError>(BucketError::InvalidParameters),
        ),
{
}

/// Law: with no boundaries requested on either side, accepted parameters
/// yield the one-element sequence holding the anchor alone.
pub proof fn lemma_run_degenerate(params: BucketSpec, evs: Seq<Event>)
    requires
        params.count_below == 0,
        params.count_above == 0,
        evs.len() > 0,
        evs.first() == Event::ParamsChecked(true),
    ensures
        run_model(init_model(params), evs) == Some(
            Ok::<Seq<u64>, BucketError>(seq![params.start]),
        ),
{
    assert(Seq::<u64>::empty().push(params.start) =~= seq![params.start]);
}

} // verus!
