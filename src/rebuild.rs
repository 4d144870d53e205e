use crate::msg::Msg;
use crate::pipeline::{assets_plan, assets_stages, full_plan, full_stages, style_plan, style_stages, Stage};
use vstd::prelude::*;

verus! {

/// Where the watch loop stands.
#[derive(Clone, Copy, Debug, PartialEq, Eq, Structural)]
pub enum Phase {
    /// a pipeline run is in flight
    Building,
    /// the artifact runs and the loop waits for a change
    Serving,
    /// the last run failed; the loop waits for a source change
    Suspended,
    /// shutdown was seen; nothing more happens
    ShuttingDown,
}

/// What the loop is told.
#[derive(Debug)]
pub enum Input {
    /// an event from the message bus
    Bus(Msg),
    /// the stage in flight succeeded
    StageOk,
    /// the stage in flight failed, with its cause
    StageFailed(String),
    /// the running artifact exited by itself
    ArtifactExited,
}

/// What the loop asks to have done, in order; each is complete before the next.
#[derive(Debug)]
pub enum Action {
    /// run this pipeline stage and report how it went
    RunStage(Stage),
    /// stop the running artifact and wait until it has stopped
    Terminate,
    /// tell reload clients to reload
    NotifyReload,
    /// serve or start the built artifact
    Launch,
    /// report why the build failed
    ReportFailure(String),
    /// leave the loop
    Exit,
}

/// The loop's state as a mathematical value.
pub struct LoopState {
    pub phase: Phase,
    /// the stages of the current run still to finish; the first is in flight
    pub todo: Seq<Stage>,
    /// whether the current run is a whole pipeline run
    pub full: bool,
    /// whether the artifact runs
    pub running: bool,
    /// client-side-only mode: no server stage
    pub csr: bool,
}

pub open spec fn state_wf(s: LoopState) -> bool {
    &&& (s.phase is Building) == (s.todo.len() > 0)
    &&& s.phase is ShuttingDown ==> !s.running
    &&& (s.phase is Building && s.full) ==> !s.running
    &&& forall|j: int| 1 <= j < s.todo.len() ==> #[trigger] s.todo[j] != Stage::Clean
}

/// A whole run starts with `Clean` and cleans nowhere else; the partial plans
/// never clean.
pub proof fn lemma_plans_clean_first(csr: bool)
    ensures
        full_plan(csr, false)[0] == Stage::Clean,
        forall|j: int| 1 <= j < full_plan(csr, false).len() ==> #[trigger] full_plan(csr, false)[j] != Stage::Clean,
        forall|j: int| 0 <= j < style_plan().len() ==> #[trigger] style_plan()[j] != Stage::Clean,
        forall|j: int| 0 <= j < assets_plan().len() ==> #[trigger] assets_plan()[j] != Stage::Clean,
{
    let p = full_plan(csr, false);
    if csr {
        assert(p =~= seq![Stage::Clean, Stage::StyleCompile, Stage::ClientCompile, Stage::ArtifactGen]);
    } else {
        assert(p =~= seq![Stage::Clean, Stage::StyleCompile, Stage::ClientCompile, Stage::ArtifactGen, Stage::ServerCompile]);
    }
}

/// A whole pipeline run from the first stage, stopping the artifact first.
pub open spec fn restart(s: LoopState) -> (LoopState, Seq<Action>) {
    let plan = full_plan(s.csr, false);
    (
        LoopState { phase: Phase::Building, todo: plan, full: true, running: false, csr: s.csr },
        (if s.running {
            seq![Action::Terminate]
        } else {
            Seq::<Action>::empty()
        }) + seq![Action::RunStage(plan[0])],
    )
}

/// A run of only the given stages; the artifact keeps running.
pub open spec fn partial(s: LoopState, plan: Seq<Stage>) -> (LoopState, Seq<Action>) {
    (LoopState { phase: Phase::Building, todo: plan, full: false, ..s }, seq![Action::RunStage(plan[0])])
}

/// Shutdown: abandon the run, stop the artifact, leave.
pub open spec fn shut_down(s: LoopState) -> (LoopState, Seq<Action>) {
    (
        LoopState {
            phase: Phase::ShuttingDown,
            todo: Seq::<Stage>::empty(),
            full: false,
            running: false,
            csr: s.csr,
        },
        (if s.running {
            seq![Action::Terminate]
        } else {
            Seq::<Action>::empty()
        }) + seq![Action::Exit],
    )
}

/// The stage in flight succeeded.
pub open spec fn stage_done(s: LoopState) -> (LoopState, Seq<Action>) {
    let rest = s.todo.drop_first();
    if rest.len() > 0 {
        (LoopState { todo: rest, ..s }, seq![Action::RunStage(rest[0])])
    } else if s.full {
        (
            LoopState { phase: Phase::Serving, todo: rest, full: false, running: true, csr: s.csr },
            seq![Action::NotifyReload, Action::Launch],
        )
    } else {
        (LoopState { phase: Phase::Serving, todo: rest, ..s }, seq![Action::NotifyReload])
    }
}

pub open spec fn idle(s: LoopState) -> (LoopState, Seq<Action>) {
    (s, Seq::<Action>::empty())
}

/// One decision of the watch loop: the next state and what to do.
pub open spec fn next(s: LoopState, i: Input) -> (LoopState, Seq<Action>) {
    if s.phase is ShuttingDown {
        idle(s)
    } else {
        match i {
            Input::Bus(Msg::ShutDown) => shut_down(s),
            Input::Bus(Msg::SrcChanged) => if s.phase is Building {
                idle(s)
            } else {
                restart(s)
            },
            Input::Bus(Msg::StyleChanged) => if s.phase is Serving {
                partial(s, style_plan())
            } else {
                idle(s)
            },
            Input::Bus(Msg::AssetsChanged(_)) => if s.phase is Serving {
                partial(s, assets_plan())
            } else {
                idle(s)
            },
            Input::Bus(Msg::Reload(_)) => idle(s),
            Input::ArtifactExited => {
                let stopped = LoopState { running: false, ..s };
                if s.phase is Serving {
                    restart(stopped)
                } else {
                    idle(stopped)
                }
            },
            Input::StageOk => if s.phase is Building {
                stage_done(s)
            } else {
                idle(s)
            },
            Input::StageFailed(cause) => if s.phase is Building {
                (
                    LoopState { phase: Phase::Suspended, todo: Seq::<Stage>::empty(), full: false, ..s },
                    seq![Action::ReportFailure(cause)],
                )
            } else {
                idle(s)
            },
        }
    }
}

/// The loop's decisions over a sequence of inputs: the final state and every
/// action asked for, in order.
pub open spec fn run(s: LoopState, inputs: Seq<Input>) -> (LoopState, Seq<Action>)
    decreases inputs.len(),
{
    if inputs.len() == 0 {
        idle(s)
    } else {
        let before = run(s, inputs.drop_last());
        let last = next(before.0, inputs.last());
        (last.0, before.1 + last.1)
    }
}

/// Whether the artifact runs after the given actions have been performed.
pub open spec fn running_after(running: bool, actions: Seq<Action>) -> bool
    decreases actions.len(),
{
    if actions.len() == 0 {
        running
    } else {
        match actions.last() {
            Action::Terminate => false,
            Action::Launch => true,
            _ => running_after(running, actions.drop_last()),
        }
    }
}

/// Whether the artifact runs when the input arrives: an exit of the artifact
/// means that it no longer does.
pub open spec fn running_at_input(s: LoopState, i: Input) -> bool {
    s.running && !(i is ArtifactExited)
}

pub proof fn lemma_next_wf(s: LoopState, i: Input)
    requires
        state_wf(s),
    ensures
        state_wf(next(s, i).0),
{
    lemma_plans_clean_first(s.csr);
}

/// A failed stage never leads to a reload notification, nor to a launch of the
/// artifact: the failure is reported, once, and the loop suspends.
pub proof fn lemma_failure_never_reloads(s: LoopState, cause: String)
    requires
        state_wf(s),
        s.phase is Building,
    ensures
        next(s, Input::StageFailed(cause)).1 == seq![Action::ReportFailure(cause)],
        next(s, Input::StageFailed(cause)).0.phase is Suspended,
        forall|k: int|
            0 <= k < next(s, Input::StageFailed(cause)).1.len() ==> !(
            #[trigger] next(s, Input::StageFailed(cause)).1[k] is NotifyReload)
                && !(next(s, Input::StageFailed(cause)).1[k] is Launch),
{
}

/// After a failure, inputs that hold no source change start no stage: the
/// loop stays suspended, or shuts down.
pub proof fn lemma_suspension_holds(s: LoopState, inputs: Seq<Input>)
    requires
        state_wf(s),
        s.phase is Suspended,
        forall|j: int| 0 <= j < inputs.len() ==> !(#[trigger] inputs[j] matches Input::Bus(Msg::SrcChanged)),
    ensures
        run(s, inputs).0.phase is Suspended || run(s, inputs).0.phase is ShuttingDown,
        state_wf(run(s, inputs).0),
        forall|k: int| 0 <= k < run(s, inputs).1.len() ==> !(#[trigger] run(s, inputs).1[k] is RunStage),
    decreases inputs.len(),
{
    if inputs.len() > 0 {
        let rest = inputs.drop_last();
        assert(forall|j: int| 0 <= j < rest.len() ==> rest[j] == inputs[j]);
        lemma_suspension_holds(s, rest);
        let before = run(s, rest);
        let last = next(before.0, inputs.last());
        assert(!(inputs[inputs.len() - 1] matches Input::Bus(Msg::SrcChanged)));
        assert forall|k: int| 0 <= k < run(s, inputs).1.len() implies !(#[trigger] run(s, inputs).1[k] is RunStage) by {
            if k >= before.1.len() {
                assert(run(s, inputs).1[k] == last.1[k - before.1.len()]);
            } else {
                assert(run(s, inputs).1[k] == before.1[k]);
            }
        }
    }
}

/// Once the loop shuts down, no input makes it do anything more.
pub proof fn lemma_shutdown_final(s: LoopState, inputs: Seq<Input>)
    requires
        s.phase is ShuttingDown,
    ensures
        run(s, inputs).0 == s,
        run(s, inputs).1 == Seq::<Action>::empty(),
    decreases inputs.len(),
{
    if inputs.len() > 0 {
        lemma_shutdown_final(s, inputs.drop_last());
        assert(run(s, inputs).1 =~= Seq::<Action>::empty());
    }
}

/// The artifact is stopped before a whole pipeline run starts (its first
/// stage, `Clean`), and it is never launched while an instance runs: no two
/// instances run at once.
pub proof fn lemma_stopped_before_run(s: LoopState, i: Input)
    requires
        state_wf(s),
    ensures
        forall|k: int|
            0 <= k < next(s, i).1.len() && (#[trigger] next(s, i).1[k] == Action::RunStage(Stage::Clean)
                || next(s, i).1[k] is Launch) ==> !running_after(
                running_at_input(s, i),
                next(s, i).1.take(k),
            ),
{
    lemma_plans_clean_first(s.csr);
    let acts = next(s, i).1;
    assert forall|k: int|
        0 <= k < acts.len() && (#[trigger] acts[k] == Action::RunStage(Stage::Clean) || acts[k] is Launch)
        implies !running_after(running_at_input(s, i), acts.take(k)) by {
        let pre = acts.take(k);
        assert(acts.len() <= 2);
        if k == 0 {
            assert(pre =~= Seq::<Action>::empty());
            if s.phase is Building {
                assert(s.todo.len() > 0);
                if i is StageOk && s.todo.drop_first().len() > 0 {
                    assert(s.todo.drop_first()[0] == s.todo[1]);
                }
            }
            assert(!running_at_input(s, i));
        } else {
            assert(k == 1);
            assert(pre =~= seq![acts[0]]);
            assert(pre.drop_last() =~= Seq::<Action>::empty());
            assert(running_after(running_at_input(s, i), pre.drop_last()) == running_at_input(s, i));
            assert(acts[0] is Terminate || (acts[0] is NotifyReload && !running_at_input(s, i)));
        }
    }
}

/// The watch → rebuild state machine.
pub struct RebuildLoop {
    phase: Phase,
    todo: Vec<Stage>,
    full: bool,
    running: bool,
    csr: bool,
}

impl View for RebuildLoop {
    type V = LoopState;

    closed spec fn view(&self) -> LoopState {
        LoopState {
            phase: self.phase,
            todo: self.todo@,
            full: self.full,
            running: self.running,
            csr: self.csr,
        }
    }
}

impl RebuildLoop {
    pub open spec fn wf(&self) -> bool {
        state_wf(self@)
    }

    /// The loop at its start: a whole pipeline run is due, nothing runs yet.
    pub fn new(csr: bool) -> (r: RebuildLoop)
        ensures
            r.wf(),
            r@ == (LoopState {
                phase: Phase::Building,
                todo: full_plan(csr, false),
                full: true,
                running: false,
                csr,
            }),
    {
        RebuildLoop { phase: Phase::Building, todo: full_stages(csr, false), full: true, running: false, csr }
    }

    pub fn phase(&self) -> (r: Phase)
        ensures
            r == self@.phase,
    {
        self.phase
    }

    /// Whether the artifact runs.
    pub fn running(&self) -> (r: bool)
        ensures
            r == self@.running,
    {
        self.running
    }

    /// The stage in flight, if a run is.
    pub fn current_stage(&self) -> (r: Option<Stage>)
        requires
            self.wf(),
        ensures
            self@.phase is Building ==> r == Some(self@.todo[0]),
            !(self@.phase is Building) ==> r is None,
    {
        if let Phase::Building = self.phase {
            Some(self.todo[0])
        } else {
            None
        }
    }

    fn restart(&mut self) -> (r: Vec<Action>)
        requires
            !(old(self).phase is ShuttingDown),
        ensures
            (final(self)@, r@) == restart(old(self)@),
    {
        let mut r: Vec<Action> = Vec::new();
        if self.running {
            r.push(Action::Terminate);
        }
        let plan = full_stages(self.csr, false);
        r.push(Action::RunStage(plan[0]));
        self.phase = Phase::Building;
        self.todo = plan;
        self.full = true;
        self.running = false;
        assert(r@ =~= restart(old(self)@).1);
        r
    }

    fn partial(&mut self, plan: Vec<Stage>) -> (r: Vec<Action>)
        requires
            plan@.len() > 0,
        ensures
            (final(self)@, r@) == partial(old(self)@, plan@),
    {
        let r = vec![Action::RunStage(plan[0])];
        self.phase = Phase::Building;
        self.todo = plan;
        self.full = false;
        assert(r@ =~= partial(old(self)@, plan@).1);
        r
    }

    fn shut_down(&mut self) -> (r: Vec<Action>)
        ensures
            (final(self)@, r@) == shut_down(old(self)@),
    {
        let mut r: Vec<Action> = Vec::new();
        if self.running {
            r.push(Action::Terminate);
        }
        r.push(Action::Exit);
        self.phase = Phase::ShuttingDown;
        self.todo = Vec::new();
        self.full = false;
        self.running = false;
        assert(r@ =~= shut_down(old(self)@).1);
        assert(self@.todo =~= Seq::<Stage>::empty());
        r
    }

    fn stage_done(&mut self) -> (r: Vec<Action>)
        requires
            old(self).todo@.len() > 0,
        ensures
            (final(self)@, r@) == stage_done(old(self)@),
    {
        self.todo.remove(0);
        assert(self.todo@ =~= old(self)@.todo.drop_first());
        if self.todo.len() > 0 {
            let r = vec![Action::RunStage(self.todo[0])];
            assert(r@ =~= stage_done(old(self)@).1);
            r
        } else if self.full {
            self.phase = Phase::Serving;
            self.full = false;
            self.running = true;
            let r = vec![Action::NotifyReload, Action::Launch];
            assert(r@ =~= stage_done(old(self)@).1);
            r
        } else {
            self.phase = Phase::Serving;
            let r = vec![Action::NotifyReload];
            assert(r@ =~= stage_done(old(self)@).1);
            r
        }
    }

    /// Takes one input and returns the actions to perform, in order.
    pub fn step(&mut self, i: Input) -> (r: Vec<Action>)
        requires
            old(self).wf(),
        ensures
            final(self).wf(),
            (final(self)@, r@) == next(old(self)@, i),
    {
        let ghost s = self@;
        proof {
            lemma_next_wf(s, i);
        }
        if let Phase::ShuttingDown = self.phase {
            return Vec::new();
        }
        let r = match i {
            Input::Bus(Msg::ShutDown) => self.shut_down(),
            Input::Bus(Msg::SrcChanged) => {
                if let Phase::Building = self.phase {
                    Vec::new()
                } else {
                    self.restart()
                }
            },
            Input::Bus(Msg::StyleChanged) => {
                if let Phase::Serving = self.phase {
                    self.partial(style_stages())
                } else {
                    Vec::new()
                }
            },
            Input::Bus(Msg::AssetsChanged(_)) => {
                if let Phase::Serving = self.phase {
                    self.partial(assets_stages())
                } else {
                    Vec::new()
                }
            },
            Input::Bus(Msg::Reload(_)) => Vec::new(),
            Input::ArtifactExited => {
                self.running = false;
                if let Phase::Serving = self.phase {
                    self.restart()
                } else {
                    Vec::new()
                }
            },
            Input::StageOk => {
                if let Phase::Building = self.phase {
                    self.stage_done()
                } else {
                    Vec::new()
                }
            },
            Input::StageFailed(cause) => {
                if let Phase::Building = self.phase {
                    self.phase = Phase::Suspended;
                    self.todo = Vec::new();
                    self.full = false;
                    assert(self@.todo =~= Seq::<Stage>::empty());
                    vec![Action::ReportFailure(cause)]
                } else {
                    Vec::new()
                }
            },
        };
        proof {
            let e = next(s, i);
            assert(r@ =~= e.1);
        }
        r
    }
}

} // verus!
