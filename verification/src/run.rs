//! Carrying a plan out, one action at a time. The caller performs each
//! action and reports how it went; the first failure ends the run.

use crate::error::ScaffoldError;
use crate::config::ConfigView;
use crate::generator::Generator;
use crate::plan::{actions, dir, lemma_plan_shape, plan_with, ActionView, Artifact, FsAction};
use vstd::prelude::*;

verus! {

/// A run as mathematical values: the plan, how many of its actions were
/// carried out, and whether the action after those failed.
pub struct RunView {
    pub plan: Seq<ActionView>,
    pub done: nat,
    pub failed: bool,
}

/// A run before its first action.
pub open spec fn start(plan: Seq<ActionView>) -> RunView {
    RunView { plan, done: 0, failed: false }
}

/// The action that is to be performed next, if the run goes on.
pub open spec fn pending(run: RunView) -> Option<ActionView> {
    if !run.failed && run.done < run.plan.len() {
        Some(run.plan[run.done as int])
    } else {
        None
    }
}

/// The run after the pending action was tried. A run that has ended stays as
/// it is.
pub open spec fn after(run: RunView, success: bool) -> RunView {
    if pending(run).is_none() {
        run
    } else if success {
        RunView { done: run.done + 1, ..run }
    } else {
        RunView { failed: true, ..run }
    }
}

/// How the run ended, or nothing while an action is pending.
pub open spec fn outcome(run: RunView) -> Option<Result<(), ScaffoldError>> {
    if run.failed {
        Some(
            Err(
                ScaffoldError::Io {
                    step: run.done as usize,
                    artifact: run.plan[run.done as int].artifact,
                },
            ),
        )
    } else if run.done >= run.plan.len() {
        Some(Ok(()))
    } else {
        None
    }
}

/// A plan that is being carried out.
pub struct Synthesis {
    plan: Vec<FsAction>,
    done: usize,
    failed: bool,
}

impl View for Synthesis {
    type V = RunView;

    closed spec fn view(&self) -> RunView {
        RunView { plan: actions(self.plan@), done: self.done as nat, failed: self.failed }
    }
}

impl Synthesis {
    #[verifier::type_invariant]
    spec fn well_formed(&self) -> bool {
        &&& self.done <= self.plan.len()
        &&& self.failed ==> self.done < self.plan.len()
    }

    /// Starts a run of `plan`.
    pub fn begin(plan: Vec<FsAction>) -> (run: Synthesis)
        ensures
            run@ == start(actions(plan@)),
    {
        Synthesis { plan, done: 0, failed: false }
    }

    /// The action to perform next. There is none once every action was
    /// carried out or one has failed.
    pub fn next_action(&self) -> (action: Option<&FsAction>)
        ensures
            match action {
                Some(a) => pending(self@) == Some(a@),
                None => pending(self@).is_none(),
            },
    {
        proof {
            use_type_invariant(self);
        }
        if !self.failed && self.done < self.plan.len() {
            Some(&self.plan[self.done])
        } else {
            None
        }
    }

    /// Takes note of how the pending action went.
    pub fn record(&mut self, success: bool)
        ensures
            final(self)@ == after(old(self)@, success),
    {
        proof {
            use_type_invariant(&*self);
        }
        if !self.failed && self.done < self.plan.len() {
            if success {
                self.done = self.done + 1;
            } else {
                self.failed = true;
            }
        }
    }

    /// The number of actions that were carried out.
    pub fn performed(&self) -> (count: usize)
        ensures
            count == self@.done,
            count <= self@.plan.len(),
    {
        proof {
            use_type_invariant(self);
        }
        self.done
    }

    /// How the run ended, or nothing while an action is pending.
    pub fn result(&self) -> (ended: Option<Result<(), ScaffoldError>>)
        ensures
            ended == outcome(self@),
    {
        proof {
            use_type_invariant(self);
        }
        if self.failed {
            Some(Err(ScaffoldError::Io { step: self.done, artifact: self.plan[self.done].artifact() }))
        } else if self.done >= self.plan.len() {
            Some(Ok(()))
        } else {
            None
        }
    }
}

/// The run after each of the reports `events` was recorded in turn.
pub open spec fn replay(run: RunView, events: Seq<bool>) -> RunView
    decreases events.len(),
{
    if events.len() == 0 {
        run
    } else {
        after(replay(run, events.drop_last()), events.last())
    }
}

/// A failure is final: whatever is reported afterwards, the run stays at the
/// failed action, hands out no further action, and counts no further action
/// as carried out.
pub proof fn lemma_failure_is_final(run: RunView, events: Seq<bool>)
    requires
        run.failed,
    ensures
        replay(run, events) == run,
        pending(run).is_none(),
    decreases events.len(),
{
    if events.len() > 0 {
        lemma_failure_is_final(run, events.drop_last());
    }
}

/// Where the first action of a plan fails, the run ends with an error that
/// names position 0 and that action's artifact, nothing was carried out, and
/// nothing is carried out afterwards.
pub proof fn lemma_first_failure_stops_all(plan: Seq<ActionView>, later: Seq<bool>)
    requires
        plan.len() > 0,
    ensures
        ({
            let ended = replay(after(start(plan), false), later);
            &&& ended.done == 0
            &&& pending(ended).is_none()
            &&& outcome(ended) == Some(
                Err::<(), ScaffoldError>(ScaffoldError::Io { step: 0, artifact: plan[0].artifact }),
            )
        }),
{
    lemma_failure_is_final(after(start(plan), false), later);
}

/// A run never counts more actions than were reported as successful, and it
/// succeeds only after every action of the plan was carried out.
pub proof fn lemma_success_means_all_done(plan: Seq<ActionView>, events: Seq<bool>)
    ensures
        replay(start(plan), events).plan == plan,
        replay(start(plan), events).done <= events.len(),
        replay(start(plan), events).done <= plan.len(),
        replay(start(plan), events).failed ==> replay(start(plan), events).done < plan.len(),
        outcome(replay(start(plan), events)) == Some(Ok::<(), ScaffoldError>(())) ==> replay(
            start(plan),
            events,
        ).done == plan.len(),
    decreases events.len(),
{
    if events.len() > 0 {
        lemma_success_means_all_done(plan, events.drop_last());
    }
}

/// Every project begins with the creation of its root directory. Where that
/// fails, as it does when the directory is already there, the run ends with an
/// error that names the root directory: nothing was created or written, and
/// nothing is afterwards.
pub proof fn lemma_root_failure_stops_project<G: Generator>(
    g: &G,
    config: ConfigView,
    later: Seq<bool>,
)
    ensures
        ({
            let plan = plan_with(g, config);
            let ended = replay(after(start(plan), false), later);
            &&& plan[0] == dir(Artifact::RootDir, seq![config.name])
            &&& ended.done == 0
            &&& pending(ended).is_none()
            &&& outcome(ended) == Some(
                Err::<(), ScaffoldError>(
                    ScaffoldError::Io { step: 0, artifact: Artifact::RootDir },
                ),
            )
        }),
{
    lemma_plan_shape(g, config);
    lemma_first_failure_stops_all(plan_with(g, config), later);
}

} // verus!
