use vstd::prelude::*;

use crate::scalar::{make_sample, sample_of, scalar_below, Scalar, TrajectorySample};

verus! {

/// Number of shrinking trial steps the backtracking line search may
/// evaluate before a run is declared stagnated.  The bound keeps the
/// per-iteration cost at a known maximum and guarantees the search
/// cannot spin forever.
pub const MAX_BACKTRACK_ATTEMPTS: usize = 20;

/// Terminal outcome of a run.
#[derive(Clone, Copy, PartialEq, Eq, Structural, Debug)]
pub enum Outcome {
    /// The gradient norm fell below the convergence tolerance.
    Converged,
    /// No improving trial step was found within the backtracking budget.
    Stagnated,
    /// The iteration budget was used up.
    BudgetExhausted,
    /// The cancellation signal was observed at an iteration boundary.
    Cancelled,
    /// The objective evaluator failed; the run aborts and owes no result.
    EvaluationFailed,
}

/// Where the machine stands inside an iteration.
#[derive(Clone, Copy, PartialEq, Eq, Structural, Debug)]
pub enum Phase {
    /// Start of an iteration: the cancellation signal must be polled.
    AwaitingPoll,
    /// The gradient at the current point must be estimated and judged
    /// against the convergence tolerance.
    AwaitingGradient,
    /// Backtracking line search: `attempts` trial steps rejected so far.
    Searching { attempts: usize },
    /// The run is over.
    Done { outcome: Outcome },
}

/// An observation the driver hands to the machine.  Each observation
/// reports the result of the one piece of numeric work the machine
/// asked for through its current phase.
pub enum DescentEvent {
    /// The cancellation signal was polled at the start of an iteration.
    CancellationPolled { cancelled: bool },
    /// The objective evaluator failed while estimating the gradient.
    GradientFailed,
    /// The gradient norm is below the convergence tolerance.
    GradientWithinTolerance,
    /// The gradient norm is at or above the tolerance; the search for an
    /// improving step along the negated gradient begins.
    GradientDescends,
    /// A trial point strictly improved the objective value.
    TrialImproved { point: Vec<Scalar>, value: Scalar },
    /// The trial point did not improve the objective; the trial step
    /// will be contracted before the next attempt.
    TrialRejected,
}

/// Mathematical model of a `DescentEvent`.
pub ghost enum Observation {
    CancellationPolled { cancelled: bool },
    GradientFailed,
    GradientWithinTolerance,
    GradientDescends,
    TrialImproved { point: Seq<Scalar>, value: Scalar },
    TrialRejected,
}

impl View for DescentEvent {
    type V = Observation;

    open spec fn view(&self) -> Observation {
        match self {
            DescentEvent::CancellationPolled { cancelled } => Observation::CancellationPolled {
                cancelled: *cancelled,
            },
            DescentEvent::GradientFailed => Observation::GradientFailed,
            DescentEvent::GradientWithinTolerance => Observation::GradientWithinTolerance,
            DescentEvent::GradientDescends => Observation::GradientDescends,
            DescentEvent::TrialImproved { point, value } => Observation::TrialImproved {
                point: point@,
                value: *value,
            },
            DescentEvent::TrialRejected => Observation::TrialRejected,
        }
    }
}

/// A trajectory whose objective values strictly improve: every sample
/// ranks strictly below the one before it.
pub open spec fn strictly_decreasing(history: Seq<TrajectorySample>) -> bool {
    forall|i: int|
        0 <= i && i + 1 < history.len() ==> scalar_below(
            #[trigger] history[i + 1].value,
            history[i].value,
        )
}

/// Mathematical model of a running descent: the transient state a run
/// owns, with sequences in place of vectors.
#[verifier::ext_equal]
pub ghost struct MachineModel {
    pub num_vars: nat,
    pub max_iterations: nat,
    pub point: Seq<Scalar>,
    pub value: Scalar,
    pub iterations: nat,
    pub history: Seq<TrajectorySample>,
    pub phase: Phase,
}

impl MachineModel {
    /// Well-formedness: the invariants that hold of every reachable
    /// machine state.
    pub open spec fn wf(self) -> bool {
        &&& self.num_vars >= 2
        &&& self.point.len() == self.num_vars
        &&& self.iterations <= self.max_iterations
        &&& self.history.len() == self.iterations + 1
        &&& self.history.last() == sample_of(self.point, self.value)
        &&& strictly_decreasing(self.history)
        &&& (self.phase matches Phase::Searching { attempts } ==> attempts
            < MAX_BACKTRACK_ATTEMPTS)
        &&& (!(self.phase matches Phase::Done { .. }) ==> self.iterations < self.max_iterations)
    }

    /// The state a run starts in: the seed sample is already recorded,
    /// and a zero iteration budget is exhausted before any work is done.
    pub open spec fn initial(
        num_vars: nat,
        max_iterations: nat,
        point: Seq<Scalar>,
        value: Scalar,
    ) -> MachineModel {
        MachineModel {
            num_vars,
            max_iterations,
            point,
            value,
            iterations: 0,
            history: seq![sample_of(point, value)],
            phase: if max_iterations == 0 {
                Phase::Done { outcome: Outcome::BudgetExhausted }
            } else {
                Phase::AwaitingPoll
            },
        }
    }

    /// Which observation the machine is ready for in its current phase.
    pub open spec fn accepts(self, obs: Observation) -> bool {
        match obs {
            Observation::CancellationPolled { .. } => self.phase is AwaitingPoll,
            Observation::GradientFailed => self.phase is AwaitingGradient,
            Observation::GradientWithinTolerance => self.phase is AwaitingGradient,
            Observation::GradientDescends => self.phase is AwaitingGradient,
            Observation::TrialImproved { point, value } => (self.phase matches Phase::Searching {
                ..
            }) && point.len() == self.num_vars && scalar_below(value, self.value),
            Observation::TrialRejected => self.phase matches Phase::Searching { .. },
        }
    }

    /// The transition relation of the descent loop, one observation at a
    /// time, in the order an iteration evaluates its rules:
    /// cancellation ends the run without touching the counters; a failed
    /// gradient aborts; a gradient under tolerance converges; otherwise
    /// the search runs, committing an improving trial (one accepted
    /// iteration: point, value and trajectory advance together) or
    /// contracting until the attempt budget declares stagnation.
    pub open spec fn step(self, obs: Observation) -> MachineModel
        recommends
            self.wf(),
            self.accepts(obs),
    {
        match obs {
            Observation::CancellationPolled { cancelled } => if cancelled {
                MachineModel { phase: Phase::Done { outcome: Outcome::Cancelled }, ..self }
            } else {
                MachineModel { phase: Phase::AwaitingGradient, ..self }
            },
            Observation::GradientFailed => MachineModel {
                phase: Phase::Done { outcome: Outcome::EvaluationFailed },
                ..self
            },
            Observation::GradientWithinTolerance => MachineModel {
                phase: Phase::Done { outcome: Outcome::Converged },
                ..self
            },
            Observation::GradientDescends => MachineModel {
                phase: Phase::Searching { attempts: 0 },
                ..self
            },
            Observation::TrialImproved { point, value } => MachineModel {
                point,
                value,
                iterations: self.iterations + 1,
                history: self.history.push(sample_of(point, value)),
                phase: if self.iterations + 1 == self.max_iterations {
                    Phase::Done { outcome: Outcome::BudgetExhausted }
                } else {
                    Phase::AwaitingPoll
                },
                ..self
            },
            Observation::TrialRejected => {
                let attempts = self.phase->attempts;
                if attempts + 1 == MAX_BACKTRACK_ATTEMPTS {
                    MachineModel { phase: Phase::Done { outcome: Outcome::Stagnated }, ..self }
                } else {
                    MachineModel {
                        phase: Phase::Searching { attempts: (attempts + 1) as usize },
                        ..self
                    }
                }
            },
        }
    }
}

/// Final outcome of a run, delivered once to the caller.  The flag
/// `terminated_early` is set only for a cancelled run; consumers that
/// want to tell convergence, stagnation and budget exhaustion apart
/// read the richer `outcome` field.
#[derive(Clone, Debug)]
pub struct OptimizerResult {
    /// The last accepted point.
    pub x: Vec<Scalar>,
    /// The objective value at `x`.
    pub f_x: Scalar,
    /// Iterations actually performed (accepted steps).
    pub iterations: usize,
    /// The seed sample followed by one sample per accepted iteration.
    pub history: Vec<TrajectorySample>,
    /// Whether the run ended because it was cancelled.
    pub terminated_early: bool,
    /// How the run ended.
    pub outcome: Outcome,
}

/// Mathematical model of an `OptimizerResult`.
#[verifier::ext_equal]
pub ghost struct ResultModel {
    pub point: Seq<Scalar>,
    pub value: Scalar,
    pub iterations: nat,
    pub history: Seq<TrajectorySample>,
    pub terminated_early: bool,
    pub outcome: Outcome,
}

impl View for OptimizerResult {
    type V = ResultModel;

    open spec fn view(&self) -> ResultModel {
        ResultModel {
            point: self.x@,
            value: self.f_x,
            iterations: self.iterations as nat,
            history: self.history@,
            terminated_early: self.terminated_early,
            outcome: self.outcome,
        }
    }
}

impl MachineModel {
    /// The result a finished machine owes its caller: the committed
    /// state as it stands, with the early-termination flag set exactly
    /// for a cancelled run.
    pub open spec fn result(self) -> ResultModel
        recommends
            self.phase matches Phase::Done { .. },
    {
        ResultModel {
            point: self.point,
            value: self.value,
            iterations: self.iterations,
            history: self.history,
            terminated_early: self.phase->outcome is Cancelled,
            outcome: self.phase->outcome,
        }
    }
}

impl MachineModel {
    /// The state after a whole trace of observations, fed in order.
    pub open spec fn run(self, trace: Seq<Observation>) -> MachineModel
        decreases trace.len(),
    {
        if trace.len() == 0 {
            self
        } else {
            self.step(trace.first()).run(trace.drop_first())
        }
    }

    /// Each observation of the trace is accepted by the state it meets.
    pub open spec fn trace_accepted(self, trace: Seq<Observation>) -> bool
        decreases trace.len(),
    {
        trace.len() > 0 ==> self.accepts(trace.first()) && self.step(
            trace.first(),
        ).trace_accepted(trace.drop_first())
    }
}

/// How many observations of a trace commit an accepted step.
pub open spec fn accepted_steps(trace: Seq<Observation>) -> nat
    decreases trace.len(),
{
    if trace.len() == 0 {
        0
    } else {
        (if trace.first() matches Observation::TrialImproved { .. } {
            1nat
        } else {
            0nat
        }) + accepted_steps(trace.drop_first())
    }
}

/// A transition keeps every reachable state well formed.
pub proof fn lemma_step_preserves_wf(m: MachineModel, obs: Observation)
    requires
        m.wf(),
        m.accepts(obs),
    ensures
        m.step(obs).wf(),
{
    match obs {
        Observation::TrialImproved { point, value } => {
            let h = m.history.push(sample_of(point, value));
            assert forall|i: int| 0 <= i && i + 1 < h.len() implies scalar_below(
                #[trigger] h[i + 1].value,
                h[i].value,
            ) by {
                if i + 1 < m.history.len() {
                    assert(scalar_below(m.history[i + 1].value, m.history[i].value));
                } else {
                    assert(h[i] == sample_of(m.point, m.value));
                }
            }
        },
        _ => {},
    }
}

/// The descent loop's state machine.  It owns the bookkeeping of a run
/// — current point and value (as opaque scalars), iteration counter,
/// trajectory, phase — while the driver carries out the numeric work
/// and reports each outcome through `advance`.
pub struct DescentMachine {
    pub num_vars: usize,
    pub max_iterations: usize,
    pub x: Vec<Scalar>,
    pub f_x: Scalar,
    pub iterations: usize,
    pub history: Vec<TrajectorySample>,
    pub phase: Phase,
}

impl View for DescentMachine {
    type V = MachineModel;

    open spec fn view(&self) -> MachineModel {
        MachineModel {
            num_vars: self.num_vars as nat,
            max_iterations: self.max_iterations as nat,
            point: self.x@,
            value: self.f_x,
            iterations: self.iterations as nat,
            history: self.history@,
            phase: self.phase,
        }
    }
}

impl DescentMachine {
    /// Starts a run: records the seed trajectory sample for the
    /// starting point and its objective value, taken before the first
    /// iteration.  A sample holds the first two coordinates, so a run
    /// needs at least two of them.
    pub fn new(
        num_vars: usize,
        max_iterations: usize,
        initial_point: Vec<Scalar>,
        initial_value: Scalar,
    ) -> (m: Self)
        requires
            num_vars >= 2,
            initial_point@.len() == num_vars,
        ensures
            m@ == MachineModel::initial(
                num_vars as nat,
                max_iterations as nat,
                initial_point@,
                initial_value,
            ),
            m@.wf(),
    {
        let seed = make_sample(&initial_point, initial_value);
        let mut history: Vec<TrajectorySample> = Vec::new();
        history.push(seed);
        let phase = if max_iterations == 0 {
            Phase::Done { outcome: Outcome::BudgetExhausted }
        } else {
            Phase::AwaitingPoll
        };
        let m = DescentMachine {
            num_vars,
            max_iterations,
            x: initial_point,
            f_x: initial_value,
            iterations: 0,
            history,
            phase,
        };
        proof {
            assert(m@ =~= MachineModel::initial(
                num_vars as nat,
                max_iterations as nat,
                m.x@,
                initial_value,
            ));
        }
        m
    }

    /// Feeds one observation to the machine; the new state is exactly
    /// the model's transition for it.
    pub fn advance(&mut self, event: DescentEvent)
        requires
            old(self)@.wf(),
            old(self)@.accepts(event@),
        ensures
            final(self)@ == old(self)@.step(event@),
            final(self)@.wf(),
    {
        proof {
            lemma_step_preserves_wf(self@, event@);
        }
        match event {
            DescentEvent::CancellationPolled { cancelled } => {
                if cancelled {
                    self.phase = Phase::Done { outcome: Outcome::Cancelled };
                } else {
                    self.phase = Phase::AwaitingGradient;
                }
            },
            DescentEvent::GradientFailed => {
                self.phase = Phase::Done { outcome: Outcome::EvaluationFailed };
            },
            DescentEvent::GradientWithinTolerance => {
                self.phase = Phase::Done { outcome: Outcome::Converged };
            },
            DescentEvent::GradientDescends => {
                self.phase = Phase::Searching { attempts: 0 };
            },
            DescentEvent::TrialImproved { point, value } => {
                let sample = make_sample(&point, value);
                self.x = point;
                self.f_x = value;
                self.iterations = self.iterations + 1;
                self.history.push(sample);
                self.phase = if self.iterations == self.max_iterations {
                    Phase::Done { outcome: Outcome::BudgetExhausted }
                } else {
                    Phase::AwaitingPoll
                };
            },
            DescentEvent::TrialRejected => {
                let current = self.phase;
                match current {
                    Phase::Searching { attempts } => {
                        if attempts + 1 == MAX_BACKTRACK_ATTEMPTS {
                            self.phase = Phase::Done { outcome: Outcome::Stagnated };
                        } else {
                            self.phase = Phase::Searching { attempts: attempts + 1 };
                        }
                    },
                    _ => {
                        assert(false);
                    },
                }
            },
        }
        proof {
            assert(self@ =~= old(self)@.step(event@));
        }
    }

    /// Turns a finished machine into the result owed to the caller.
    /// An aborted run (failed evaluation) owes no result and is left
    /// out: the failure itself is what the caller reports.
    pub fn into_result(self) -> (r: OptimizerResult)
        requires
            self@.wf(),
            self@.phase matches Phase::Done { outcome } && !(outcome is EvaluationFailed),
        ensures
            r@ == self@.result(),
    {
        let outcome = match self.phase {
            Phase::Done { outcome } => outcome,
            _ => {
                proof {
                    assert(false);
                }
                Outcome::Cancelled
            },
        };
        let terminated_early = match outcome {
            Outcome::Cancelled => true,
            _ => false,
        };
        OptimizerResult {
            x: self.x,
            f_x: self.f_x,
            iterations: self.iterations,
            history: self.history,
            terminated_early,
            outcome,
        }
    }

    /// The phase the machine is in; the driver reads it to learn which
    /// piece of numeric work to perform next.
    pub fn phase(&self) -> (p: Phase)
        ensures
            p == self@.phase,
    {
        self.phase
    }

    /// Iterations performed so far (accepted steps only).
    pub fn iterations(&self) -> (n: usize)
        ensures
            n == self@.iterations,
    {
        self.iterations
    }
}

} // verus!
