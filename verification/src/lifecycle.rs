//! The lifecycle of a worker: a state machine that only moves forward.
//!
//! The machine performs nothing itself. In each phase it names the action
//! that leads out of the phase; the embedder performs the action and reports
//! how it ended, and the machine moves on.

use crate::error::ErrorKind;
use vstd::prelude::*;

verus! {

/// The phases of a worker, in the order in which a run passes them.
#[derive(Clone, Copy, Debug, PartialEq, Eq, Structural)]
pub enum Phase {
    Created,
    Bootstrapped,
    ModuleLoading,
    Running,
    LoadEventDispatched,
    Draining,
    UnloadEventDispatched,
    Terminated,
}

/// What the embedder is asked to do.
#[derive(Clone, Copy, Debug, PartialEq, Eq, Structural)]
pub enum Action {
    /// Run the script that sets up the script-side environment.
    Bootstrap,
    /// Load the target module.
    LoadModule,
    /// Evaluate the body of the target module.
    EvaluateModule,
    /// Deliver the "load" event.
    DispatchLoad,
    /// Poll the worker until no asynchronous work is left.
    Drain,
    /// Deliver the "unload" event.
    DispatchUnload,
    /// Release what the worker hands out and tear the context down.
    TearDown,
    /// Nothing: the run has failed and this step is passed over.
    Skip,
}

/// How an action ended.
#[derive(Clone, Copy, Debug, PartialEq, Eq, Structural)]
pub enum Outcome {
    Done,
    Failed,
}

impl Action {
    /// The script that performs the action, for the three actions that are
    /// performed by running a script.
    pub open spec fn spec_script(self) -> Option<Seq<char>> {
        match self {
            Action::Bootstrap => Some("bootstrap.mainRuntime()"@),
            Action::DispatchLoad => Some("window.dispatchEvent(new Event('load'))"@),
            Action::DispatchUnload => Some("window.dispatchEvent(new Event('unload'))"@),
            _ => None,
        }
    }

    /// The script that performs the action, if a script does.
    pub fn script(self) -> (script: Option<&'static str>)
        ensures
            match script {
                Some(text) => self.spec_script() == Some(text@),
                None => self.spec_script() is None,
            },
    {
        match self {
            Action::Bootstrap => Some("bootstrap.mainRuntime()"),
            Action::DispatchLoad => Some("window.dispatchEvent(new Event('load'))"),
            Action::DispatchUnload => Some("window.dispatchEvent(new Event('unload'))"),
            _ => None,
        }
    }
}

impl Phase {
    /// The place of the phase in the sequence, from 0.
    pub open spec fn ordinal(self) -> nat {
        match self {
            Phase::Created => 0,
            Phase::Bootstrapped => 1,
            Phase::ModuleLoading => 2,
            Phase::Running => 3,
            Phase::LoadEventDispatched => 4,
            Phase::Draining => 5,
            Phase::UnloadEventDispatched => 6,
            Phase::Terminated => 7,
        }
    }

    /// The phase that follows; `Terminated` follows itself.
    pub open spec fn spec_successor(self) -> Phase {
        match self {
            Phase::Created => Phase::Bootstrapped,
            Phase::Bootstrapped => Phase::ModuleLoading,
            Phase::ModuleLoading => Phase::Running,
            Phase::Running => Phase::LoadEventDispatched,
            Phase::LoadEventDispatched => Phase::Draining,
            Phase::Draining => Phase::UnloadEventDispatched,
            Phase::UnloadEventDispatched => Phase::Terminated,
            Phase::Terminated => Phase::Terminated,
        }
    }

    /// The place of the phase in the sequence, from 0.
    pub fn index(self) -> (i: u8)
        ensures
            i == self.ordinal(),
    {
        match self {
            Phase::Created => 0,
            Phase::Bootstrapped => 1,
            Phase::ModuleLoading => 2,
            Phase::Running => 3,
            Phase::LoadEventDispatched => 4,
            Phase::Draining => 5,
            Phase::UnloadEventDispatched => 6,
            Phase::Terminated => 7,
        }
    }

    /// The phase that follows.
    #[verifier::when_used_as_spec(spec_successor)]
    pub fn successor(self) -> (next: Phase)
        ensures
            next == self.spec_successor(),
    {
        match self {
            Phase::Created => Phase::Bootstrapped,
            Phase::Bootstrapped => Phase::ModuleLoading,
            Phase::ModuleLoading => Phase::Running,
            Phase::Running => Phase::LoadEventDispatched,
            Phase::LoadEventDispatched => Phase::Draining,
            Phase::Draining => Phase::UnloadEventDispatched,
            Phase::UnloadEventDispatched => Phase::Terminated,
            Phase::Terminated => Phase::Terminated,
        }
    }
}

/// The state of the machine: the phase, and the first failure of the run.
#[derive(Clone, Copy, Debug)]
pub struct Lifecycle {
    pub phase: Phase,
    pub failure: Option<ErrorKind>,
}

impl Lifecycle {
    /// The state of a worker that was just built.
    pub open spec fn spec_start() -> Lifecycle {
        Lifecycle { phase: Phase::Created, failure: None }
    }

    /// The action that leads out of the present phase. Once the run has
    /// failed, loading, evaluating, the "load" event and the drain are
    /// passed over; the "unload" event and the tear-down never are.
    pub open spec fn spec_pending(self) -> Option<Action> {
        match self.phase {
            Phase::Created => Some(Action::Bootstrap),
            Phase::Bootstrapped => Some(
                if self.failure is Some {
                    Action::Skip
                } else {
                    Action::LoadModule
                },
            ),
            Phase::ModuleLoading => Some(
                if self.failure is Some {
                    Action::Skip
                } else {
                    Action::EvaluateModule
                },
            ),
            Phase::Running => Some(
                if self.failure is Some {
                    Action::Skip
                } else {
                    Action::DispatchLoad
                },
            ),
            Phase::LoadEventDispatched => Some(
                if self.failure is Some {
                    Action::Skip
                } else {
                    Action::Drain
                },
            ),
            Phase::Draining => Some(Action::DispatchUnload),
            Phase::UnloadEventDispatched => Some(Action::TearDown),
            Phase::Terminated => None,
        }
    }

    /// The state after the pending action ended with `outcome`. A failed
    /// bootstrap ends the worker at once; any other step leads to the next
    /// phase, and the first failure is kept as an uncaught script error.
    pub open spec fn spec_advance(self, outcome: Outcome) -> Lifecycle {
        match self.phase {
            Phase::Terminated => self,
            Phase::Created => match outcome {
                Outcome::Done => Lifecycle { phase: Phase::Bootstrapped, failure: self.failure },
                Outcome::Failed => Lifecycle {
                    phase: Phase::Terminated,
                    failure: Some(ErrorKind::BootstrapFailure),
                },
            },
            phase => Lifecycle {
                phase: phase.spec_successor(),
                failure: if outcome == Outcome::Failed && self.failure is None {
                    Some(ErrorKind::UncaughtScriptError)
                } else {
                    self.failure
                },
            },
        }
    }

    /// The result of the run: none before `Terminated`, then the first failure.
    pub open spec fn spec_result(self) -> Option<Result<(), ErrorKind>> {
        if self.phase != Phase::Terminated {
            None
        } else {
            match self.failure {
                Some(e) => Some(Err(e)),
                None => Some(Ok(())),
            }
        }
    }

    /// The state of a worker that was just built.
    #[verifier::when_used_as_spec(spec_start)]
    pub fn start() -> (l: Lifecycle)
        ensures
            l == Lifecycle::spec_start(),
    {
        Lifecycle { phase: Phase::Created, failure: None }
    }

    /// The action that the embedder is to perform next.
    #[verifier::when_used_as_spec(spec_pending)]
    pub fn pending(self) -> (action: Option<Action>)
        ensures
            action == self.spec_pending(),
    {
        let failed = self.failure.is_some();
        match self.phase {
            Phase::Created => Some(Action::Bootstrap),
            Phase::Bootstrapped => Some(if failed { Action::Skip } else { Action::LoadModule }),
            Phase::ModuleLoading => Some(
                if failed {
                    Action::Skip
                } else {
                    Action::EvaluateModule
                },
            ),
            Phase::Running => Some(if failed { Action::Skip } else { Action::DispatchLoad }),
            Phase::LoadEventDispatched => Some(if failed { Action::Skip } else { Action::Drain }),
            Phase::Draining => Some(Action::DispatchUnload),
            Phase::UnloadEventDispatched => Some(Action::TearDown),
            Phase::Terminated => None,
        }
    }

    /// Moves on after the pending action ended with `outcome`.
    #[verifier::when_used_as_spec(spec_advance)]
    pub fn advance(self, outcome: Outcome) -> (next: Lifecycle)
        ensures
            next == self.spec_advance(outcome),
    {
        match self.phase {
            Phase::Terminated => self,
            Phase::Created => match outcome {
                Outcome::Done => Lifecycle { phase: Phase::Bootstrapped, failure: self.failure },
                Outcome::Failed => Lifecycle {
                    phase: Phase::Terminated,
                    failure: Some(ErrorKind::BootstrapFailure),
                },
            },
            phase => {
                let failure = match outcome {
                    Outcome::Failed => match self.failure {
                        None => Some(ErrorKind::UncaughtScriptError),
                        Some(e) => Some(e),
                    },
                    Outcome::Done => self.failure,
                };
                Lifecycle { phase: phase.successor(), failure }
            },
        }
    }

    /// The result of the run, once the worker has terminated.
    #[verifier::when_used_as_spec(spec_result)]
    pub fn result(self) -> (r: Option<Result<(), ErrorKind>>)
        ensures
            r == self.spec_result(),
    {
        match self.phase {
            Phase::Terminated => match self.failure {
                Some(e) => Some(Err(e)),
                None => Some(Ok(())),
            },
            _ => None,
        }
    }
}

/// The exit status of the process for the result of its main worker: zero
/// for a run that went through, one for a run that failed.
pub fn exit_status(result: Result<(), ErrorKind>) -> (code: i32)
    ensures
        code == (if result is Ok {
            0i32
        } else {
            1i32
        }),
{
    match result {
        Ok(_) => 0,
        Err(_) => 1,
    }
}

/// The state after each of `outcomes` was reported in its turn.
pub open spec fn run(l: Lifecycle, outcomes: Seq<Outcome>) -> Lifecycle
    decreases outcomes.len(),
{
    if outcomes.len() == 0 {
        l
    } else {
        run(l.spec_advance(outcomes[0]), outcomes.drop_first())
    }
}

/// The phases that the machine is in while `outcomes` are reported: the
/// present one, then the one after each report.
pub open spec fn visited(l: Lifecycle, outcomes: Seq<Outcome>) -> Seq<Phase>
    decreases outcomes.len(),
{
    if outcomes.len() == 0 {
        seq![l.phase]
    } else {
        seq![l.phase] + visited(l.spec_advance(outcomes[0]), outcomes.drop_first())
    }
}

/// The action that was pending before the report number `step`.
pub open spec fn performed(l: Lifecycle, outcomes: Seq<Outcome>, step: int) -> Option<Action> {
    run(l, outcomes.take(step)).spec_pending()
}

/// The eight phases in their order.
pub open spec fn full_sequence() -> Seq<Phase> {
    seq![
        Phase::Created,
        Phase::Bootstrapped,
        Phase::ModuleLoading,
        Phase::Running,
        Phase::LoadEventDispatched,
        Phase::Draining,
        Phase::UnloadEventDispatched,
        Phase::Terminated,
    ]
}

/// Every report moves a live worker forward: by one phase, or from
/// `Created` to `Terminated` where the bootstrap failed. Nothing moves a
/// terminated worker.
pub proof fn law_only_forward(l: Lifecycle, outcome: Outcome)
    ensures
        l.phase == Phase::Terminated ==> l.spec_advance(outcome) == l,
        l.phase == Phase::Created && outcome == Outcome::Failed ==> l.spec_advance(outcome)
            == (Lifecycle { phase: Phase::Terminated, failure: Some(ErrorKind::BootstrapFailure) }),
        l.phase != Phase::Terminated && !(l.phase == Phase::Created && outcome == Outcome::Failed)
            ==> l.spec_advance(outcome).phase.ordinal() == l.phase.ordinal() + 1,
        l.failure is Some && l.phase != Phase::Created ==> l.spec_advance(outcome).failure
            == l.failure,
{
}

/// Unfolds `run` and `visited` by one report.
proof fn lemma_unfold(l: Lifecycle, outcomes: Seq<Outcome>)
    requires
        outcomes.len() > 0,
    ensures
        run(l, outcomes) == run(l.spec_advance(outcomes[0]), outcomes.drop_first()),
        visited(l, outcomes) == seq![l.phase] + visited(
            l.spec_advance(outcomes[0]),
            outcomes.drop_first(),
        ),
        outcomes.drop_first().len() == outcomes.len() - 1,
        forall|i: int| 0 <= i < outcomes.len() - 1 ==> outcomes.drop_first()[i] == outcomes[i + 1],
{
}

/// Reporting one more outcome advances the state reached so far.
pub proof fn lemma_run_push(l: Lifecycle, outcomes: Seq<Outcome>, last: Outcome)
    ensures
        run(l, outcomes.push(last)) == run(l, outcomes).spec_advance(last),
    decreases outcomes.len(),
{
    if outcomes.len() == 0 {
        assert(outcomes.push(last).drop_first() =~= outcomes);
        lemma_unfold(l, outcomes.push(last));
    } else {
        assert(outcomes.push(last).drop_first() =~= outcomes.drop_first().push(last));
        lemma_unfold(l, outcomes.push(last));
        lemma_run_push(l.spec_advance(outcomes[0]), outcomes.drop_first(), last);
    }
}

/// A run whose bootstrap succeeds passes the eight phases in their fixed
/// order, each once, whatever the later steps report. The "unload" event is
/// dispatched and the worker torn down even where a step before them failed;
/// the steps between a failure and the "unload" event are passed over. The
/// run ends with `Ok` if every step was done, and with the uncaught script
/// error otherwise.
pub proof fn law_fixed_sequence(outcomes: Seq<Outcome>)
    requires
        outcomes.len() == 7,
        outcomes[0] == Outcome::Done,
    ensures
        visited(Lifecycle::spec_start(), outcomes) == full_sequence(),
        performed(Lifecycle::spec_start(), outcomes, 0) == Some(Action::Bootstrap),
        performed(Lifecycle::spec_start(), outcomes, 5) == Some(Action::DispatchUnload),
        performed(Lifecycle::spec_start(), outcomes, 6) == Some(Action::TearDown),
        forall|step: int|
            1 <= step < 5 ==> (#[trigger] performed(Lifecycle::spec_start(), outcomes, step)
                == Some(Action::Skip)) == (exists|i: int|
                1 <= i < step && outcomes[i] == Outcome::Failed),
        run(Lifecycle::spec_start(), outcomes).spec_result() == Some(
            if forall|i: int| 0 <= i < 7 ==> outcomes[i] == Outcome::Done {
                Ok::<(), ErrorKind>(())
            } else {
                Err::<(), ErrorKind>(ErrorKind::UncaughtScriptError)
            },
        ),
{
    let l0 = Lifecycle::spec_start();
    let o0 = outcomes;
    lemma_unfold(l0, o0);
    let l1 = l0.spec_advance(o0[0]);
    let o1 = o0.drop_first();
    lemma_unfold(l1, o1);
    let l2 = l1.spec_advance(o1[0]);
    let o2 = o1.drop_first();
    lemma_unfold(l2, o2);
    let l3 = l2.spec_advance(o2[0]);
    let o3 = o2.drop_first();
    lemma_unfold(l3, o3);
    let l4 = l3.spec_advance(o3[0]);
    let o4 = o3.drop_first();
    lemma_unfold(l4, o4);
    let l5 = l4.spec_advance(o4[0]);
    let o5 = o4.drop_first();
    lemma_unfold(l5, o5);
    let l6 = l5.spec_advance(o5[0]);
    let o6 = o5.drop_first();
    lemma_unfold(l6, o6);
    let l7 = l6.spec_advance(o6[0]);
    let o7 = o6.drop_first();
    assert(run(l7, o7) == l7);
    assert(visited(l7, o7) =~= seq![l7.phase]);
    assert(visited(l0, o0) =~= full_sequence());

    assert(outcomes.take(0) =~= Seq::<Outcome>::empty());
    assert(run(l0, outcomes.take(0)) == l0);
    assert(outcomes.take(1) =~= outcomes.take(0).push(outcomes[0]));
    lemma_run_push(l0, outcomes.take(0), outcomes[0]);
    assert(outcomes.take(2) =~= outcomes.take(1).push(outcomes[1]));
    lemma_run_push(l0, outcomes.take(1), outcomes[1]);
    assert(outcomes.take(3) =~= outcomes.take(2).push(outcomes[2]));
    lemma_run_push(l0, outcomes.take(2), outcomes[2]);
    assert(outcomes.take(4) =~= outcomes.take(3).push(outcomes[3]));
    lemma_run_push(l0, outcomes.take(3), outcomes[3]);
    assert(outcomes.take(5) =~= outcomes.take(4).push(outcomes[4]));
    lemma_run_push(l0, outcomes.take(4), outcomes[4]);
    assert(outcomes.take(6) =~= outcomes.take(5).push(outcomes[5]));
    lemma_run_push(l0, outcomes.take(5), outcomes[5]);
    assert(run(l0, outcomes.take(1)) == l1);
    assert(run(l0, outcomes.take(2)) == l2);
    assert(run(l0, outcomes.take(3)) == l3);
    assert(run(l0, outcomes.take(4)) == l4);
    assert(run(l0, outcomes.take(5)) == l5);
    assert(run(l0, outcomes.take(6)) == l6);
    let failed = |i: int| outcomes[i] == Outcome::Failed;
    assert(l2.failure is Some <==> failed(1));
    assert(l3.failure is Some <==> (failed(1) || failed(2)));
    assert(l4.failure is Some <==> (failed(1) || failed(2) || failed(3)));
}

/// A failed bootstrap ends the run at once: the worker goes from `Created`
/// to `Terminated`, no event is dispatched, and the run ends with
/// `BootstrapFailure`.
pub proof fn law_bootstrap_failure_aborts()
    ensures
        Lifecycle::spec_start().spec_pending() == Some(Action::Bootstrap),
        Lifecycle::spec_start().spec_advance(Outcome::Failed).phase == Phase::Terminated,
        Lifecycle::spec_start().spec_advance(Outcome::Failed).spec_pending() == None::<Action>,
        Lifecycle::spec_start().spec_advance(Outcome::Failed).spec_result() == Some(
            Err::<(), ErrorKind>(ErrorKind::BootstrapFailure),
        ),
{
}

} // verus!
