use vstd::prelude::*;

use crate::machine::{accepted_steps, lemma_step_preserves_wf, strictly_decreasing, MachineModel,
    Observation, Outcome, Phase, MAX_BACKTRACK_ATTEMPTS};
use crate::scalar::scalar_below;

verus! {

/// Every accepted trace keeps a well-formed machine well formed, and
/// with it the run invariants: the iteration count never exceeds the
/// budget, the trajectory always holds one sample more than the count,
/// and the dimension and budget themselves never change.
pub proof fn law_run_invariants(m: MachineModel, trace: Seq<Observation>)
    requires
        m.wf(),
        m.trace_accepted(trace),
    ensures
        m.run(trace).wf(),
        m.run(trace).iterations <= m.run(trace).max_iterations,
        m.run(trace).history.len() == m.run(trace).iterations + 1,
        m.run(trace).num_vars == m.num_vars,
        m.run(trace).max_iterations == m.max_iterations,
    decreases trace.len(),
{
    if trace.len() > 0 {
        lemma_step_preserves_wf(m, trace.first());
        law_run_invariants(m.step(trace.first()), trace.drop_first());
    }
}

/// The trajectory is append-only, and it grows by exactly one sample
/// per accepted step: a run extends the history it started from, the
/// new samples are as many as the improving trials observed, and the
/// iteration counter advances by the same amount — nothing else ever
/// touches either.
pub proof fn law_trajectory_append_only(m: MachineModel, trace: Seq<Observation>)
    requires
        m.wf(),
        m.trace_accepted(trace),
    ensures
        m.history.is_prefix_of(m.run(trace).history),
        m.run(trace).history.len() == m.history.len() + accepted_steps(trace),
        m.run(trace).iterations == m.iterations + accepted_steps(trace),
    decreases trace.len(),
{
    if trace.len() == 0 {
        assert(m.history.is_prefix_of(m.history));
    } else {
        let m1 = m.step(trace.first());
        lemma_step_preserves_wf(m, trace.first());
        law_trajectory_append_only(m1, trace.drop_first());
        assert(m.history.is_prefix_of(m1.history)) by {
            assert(m.history =~= m1.history.subrange(0, m.history.len() as int));
        }
        assert(m.history =~= m.run(trace).history.subrange(0, m.history.len() as int)) by {
            assert(m1.history =~= m.run(trace).history.subrange(0, m1.history.len() as int));
        }
    }
}

/// Monotone improvement: a step is committed only when its value ranks
/// strictly below the current one, so along any accepted trace from a
/// trajectory that decreases so far, every pair of consecutive
/// recorded samples strictly decreases.
pub proof fn law_monotone_improvement(m: MachineModel, trace: Seq<Observation>)
    requires
        m.wf(),
        m.trace_accepted(trace),
    ensures
        forall|i: int|
            0 <= i && i + 1 < m.run(trace).history.len() ==> scalar_below(
                #[trigger] m.run(trace).history[i + 1].value,
                m.run(trace).history[i].value,
            ),
{
    law_run_invariants(m, trace);
    assert(strictly_decreasing(m.run(trace).history));
}

/// Cancellation observed at an iteration boundary ends the run at once:
/// no gradient or step work follows, the iteration counter — still
/// strictly under the budget — and the trajectory are left exactly as
/// they were, and the delivered result alone carries the
/// early-termination flag.
pub proof fn law_cancellation(m: MachineModel)
    requires
        m.wf(),
        m.phase is AwaitingPoll,
    ensures
        m.step(Observation::CancellationPolled { cancelled: true }).phase == (Phase::Done {
            outcome: Outcome::Cancelled,
        }),
        m.step(Observation::CancellationPolled { cancelled: true }).iterations == m.iterations,
        m.step(Observation::CancellationPolled { cancelled: true }).history == m.history,
        m.step(Observation::CancellationPolled { cancelled: true }).iterations
            < m.max_iterations,
        m.step(
            Observation::CancellationPolled { cancelled: true },
        ).result().terminated_early,
{
}

/// A run whose very first gradient already satisfies the tolerance
/// converges with zero iterations performed and a trajectory holding
/// only the seed sample, and is not flagged as terminated early.
pub proof fn law_immediate_convergence(m: MachineModel, trace: Seq<Observation>)
    requires
        m.num_vars >= 2,
        m.point.len() == m.num_vars,
        m.max_iterations >= 1,
        m == MachineModel::initial(m.num_vars, m.max_iterations, m.point, m.value),
        trace =~= seq![
            Observation::CancellationPolled { cancelled: false },
            Observation::GradientWithinTolerance,
        ],
    ensures
        m.trace_accepted(trace),
        m.run(trace).phase == (Phase::Done { outcome: Outcome::Converged }),
        m.run(trace).iterations == 0,
        m.run(trace).history =~= seq![crate::scalar::sample_of(m.point, m.value)],
        !m.run(trace).result().terminated_early,
{
    assert(trace.len() == 2);
    assert(trace.first() == (Observation::CancellationPolled { cancelled: false }));
    let m1 = m.step(trace.first());
    let rest = trace.drop_first();
    assert(rest.len() == 1);
    assert(rest.first() == Observation::GradientWithinTolerance);
    let m2 = m1.step(rest.first());
    let tail = rest.drop_first();
    assert(tail.len() == 0);
    assert(m2.trace_accepted(tail));
    assert(m2.run(tail) == m2);
    assert(m1.trace_accepted(rest));
    assert(m1.run(rest) == m2);
    assert(m.trace_accepted(trace));
    assert(m.run(trace) == m2);
}

/// Stagnation: from a search that has already rejected some number of
/// trials, rejecting every remaining trial of the budget ends the run
/// as stagnated after this single unsuccessful iteration — the
/// iteration counter, point, value and trajectory are exactly what
/// they were, and the result is not flagged as terminated early.
pub proof fn law_stagnation(m: MachineModel, trace: Seq<Observation>)
    requires
        m.wf(),
        m.phase matches Phase::Searching { attempts },
        trace.len() == MAX_BACKTRACK_ATTEMPTS - m.phase->attempts,
        forall|i: int| 0 <= i < trace.len() ==> trace[i] == Observation::TrialRejected,
    ensures
        m.trace_accepted(trace),
        m.run(trace).phase == (Phase::Done { outcome: Outcome::Stagnated }),
        m.run(trace).iterations == m.iterations,
        m.run(trace).point == m.point,
        m.run(trace).value == m.value,
        m.run(trace).history == m.history,
        !m.run(trace).result().terminated_early,
    decreases trace.len(),
{
    assert(trace.len() > 0);
    assert(trace.first() == Observation::TrialRejected);
    let m1 = m.step(trace.first());
    lemma_step_preserves_wf(m, trace.first());
    let rest = trace.drop_first();
    if m.phase->attempts + 1 == MAX_BACKTRACK_ATTEMPTS {
        assert(rest.len() == 0);
        assert(m1.trace_accepted(rest));
        assert(m1.run(rest) == m1);
    } else {
        assert(forall|i: int| 0 <= i < rest.len() ==> rest[i] == trace[i + 1]);
        law_stagnation(m1, rest);
        assert(m1.trace_accepted(rest));
    }
    assert(m.trace_accepted(trace));
    assert(m.run(trace) == m1.run(rest));
}

/// Every finished state is terminal: a machine that is done accepts no
/// further observation, whatever it may be, so no outcome is ever
/// revised.
pub proof fn law_done_is_terminal(m: MachineModel, obs: Observation)
    requires
        m.phase matches Phase::Done { .. },
    ensures
        !m.accepts(obs),
{
}

/// Replay is idempotent: the machine holds no hidden state, so a run is
/// a function of the starting parameters and the observations alone —
/// equal starting states fed equal traces reach equal states, and with
/// them equal results.
pub proof fn law_replay(
    m1: MachineModel,
    m2: MachineModel,
    trace1: Seq<Observation>,
    trace2: Seq<Observation>,
)
    requires
        m1 == m2,
        trace1 == trace2,
    ensures
        m1.run(trace1) == m2.run(trace2),
        m1.run(trace1).result() == m2.run(trace2).result(),
{
}

} // verus!
