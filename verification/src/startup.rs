//! The order in which the program acquires its resources at start-up, and
//! what it has to release when a step fails or when it ends.

use vstd::prelude::*;

verus! {

/// The steps of start-up, in the order in which they are taken.
#[derive(Clone, Copy, Debug, PartialEq, Eq, Structural)]
pub enum StartupStep {
    RegisterClass,
    CreateWindow,
    AddTrayIcon,
    InstallMouseHook,
    InstallKeyboardHook,
}

/// One release of a resource that start-up acquired.
#[derive(Clone, Copy, Debug, PartialEq, Eq, Structural)]
pub enum Cleanup {
    UnhookMouse,
    UnhookKeyboard,
    RemoveTrayIcon,
}

/// What follows a step of start-up.
#[derive(Debug, PartialEq, Eq)]
pub enum StartupOutcome {
    /// The step succeeded: take the next one.
    Next(StartupStep),
    /// The last step succeeded: run the message loop.
    Ready,
    /// The step failed: make these releases, in order, and end.
    Failed(Vec<Cleanup>),
}

impl View for StartupOutcome {
    type V = StartupPlan;

    open spec fn view(&self) -> StartupPlan {
        match *self {
            StartupOutcome::Next(step) => StartupPlan::Next(step),
            StartupOutcome::Ready => StartupPlan::Ready,
            StartupOutcome::Failed(releases) => StartupPlan::Failed(releases@),
        }
    }
}

/// The mathematical form of a `StartupOutcome`.
pub enum StartupPlan {
    Next(StartupStep),
    Ready,
    Failed(Seq<Cleanup>),
}

impl StartupStep {
    /// The place of the step in the order of start-up, from zero.
    pub open spec fn index(self) -> nat {
        match self {
            StartupStep::RegisterClass => 0,
            StartupStep::CreateWindow => 1,
            StartupStep::AddTrayIcon => 2,
            StartupStep::InstallMouseHook => 3,
            StartupStep::InstallKeyboardHook => 4,
        }
    }

    /// The step that follows this one, if any.
    pub open spec fn successor(self) -> Option<StartupStep> {
        match self {
            StartupStep::RegisterClass => Some(StartupStep::CreateWindow),
            StartupStep::CreateWindow => Some(StartupStep::AddTrayIcon),
            StartupStep::AddTrayIcon => Some(StartupStep::InstallMouseHook),
            StartupStep::InstallMouseHook => Some(StartupStep::InstallKeyboardHook),
            StartupStep::InstallKeyboardHook => None,
        }
    }

    /// The release that undoes the step, for the steps that are undone. The
    /// window class and the window are left to the end of the process.
    pub open spec fn release(self) -> Option<Cleanup> {
        match self {
            StartupStep::AddTrayIcon => Some(Cleanup::RemoveTrayIcon),
            StartupStep::InstallMouseHook => Some(Cleanup::UnhookMouse),
            StartupStep::InstallKeyboardHook => Some(Cleanup::UnhookKeyboard),
            _ => None,
        }
    }

    /// The releases owed when this step fails: those of the steps taken
    /// before it, the latest first.
    pub open spec fn unwind(self) -> Seq<Cleanup> {
        match self {
            StartupStep::InstallMouseHook => seq![Cleanup::RemoveTrayIcon],
            StartupStep::InstallKeyboardHook => seq![Cleanup::UnhookMouse, Cleanup::RemoveTrayIcon],
            _ => Seq::empty(),
        }
    }

    /// What follows the step, given whether it succeeded.
    pub open spec fn plan(self, succeeded: bool) -> StartupPlan {
        if !succeeded {
            StartupPlan::Failed(self.unwind())
        } else {
            match self.successor() {
                Some(step) => StartupPlan::Next(step),
                None => StartupPlan::Ready,
            }
        }
    }

    /// The first step of start-up.
    pub fn first() -> (step: StartupStep)
        ensures
            step == StartupStep::RegisterClass,
    {
        StartupStep::RegisterClass
    }

    /// Decides what follows a step of start-up. After a success the next
    /// step is due, or the message loop after the last. After a failure
    /// everything acquired so far is released, the latest first, and the
    /// program ends.
    pub fn advance(self, succeeded: bool) -> (outcome: StartupOutcome)
        ensures
            outcome@ == self.plan(succeeded),
    {
        if !succeeded {
            let mut releases: Vec<Cleanup> = Vec::new();
            match self {
                StartupStep::InstallMouseHook => {
                    releases.push(Cleanup::RemoveTrayIcon);
                },
                StartupStep::InstallKeyboardHook => {
                    releases.push(Cleanup::UnhookMouse);
                    releases.push(Cleanup::RemoveTrayIcon);
                },
                _ => {},
            }
            assert(releases@ =~= self.unwind());
            StartupOutcome::Failed(releases)
        } else {
            match self {
                StartupStep::RegisterClass => StartupOutcome::Next(StartupStep::CreateWindow),
                StartupStep::CreateWindow => StartupOutcome::Next(StartupStep::AddTrayIcon),
                StartupStep::AddTrayIcon => StartupOutcome::Next(StartupStep::InstallMouseHook),
                StartupStep::InstallMouseHook => StartupOutcome::Next(
                    StartupStep::InstallKeyboardHook,
                ),
                StartupStep::InstallKeyboardHook => StartupOutcome::Ready,
            }
        }
    }
}

/// The releases made when the message loop has ended.
pub open spec fn shutdown_plan() -> Seq<Cleanup> {
    seq![Cleanup::UnhookMouse, Cleanup::UnhookKeyboard, Cleanup::RemoveTrayIcon]
}

/// The releases to make when the message loop has ended: both hooks, then
/// the icon.
pub fn shutdown() -> (releases: Vec<Cleanup>)
    ensures
        releases@ == shutdown_plan(),
{
    let mut releases: Vec<Cleanup> = Vec::new();
    releases.push(Cleanup::UnhookMouse);
    releases.push(Cleanup::UnhookKeyboard);
    releases.push(Cleanup::RemoveTrayIcon);
    assert(releases@ =~= shutdown_plan());
    releases
}

/// A failed step leaves nothing behind: a release is owed for a step if and
/// only if the step undoes anything and was taken before the one that
/// failed; and of two owed releases the one for the later step comes first.
pub proof fn unwind_releases_what_was_acquired(failed: StartupStep, taken: StartupStep)
    ensures
        taken.release() is Some ==> (failed.unwind().contains(taken.release().unwrap())
            <==> taken.index() < failed.index()),
        forall|i: int, j: int, a: StartupStep, b: StartupStep|
            0 <= i < j < failed.unwind().len() && a.release() == Some(failed.unwind()[i])
                && b.release() == Some(failed.unwind()[j]) ==> b.index() < a.index(),
        failed.unwind().no_duplicates(),
{
    let owed = failed.unwind();
    match failed {
        StartupStep::InstallMouseHook => {
            assert(owed[0] == Cleanup::RemoveTrayIcon);
        },
        StartupStep::InstallKeyboardHook => {
            assert(owed[0] == Cleanup::UnhookMouse);
            assert(owed[1] == Cleanup::RemoveTrayIcon);
        },
        _ => {},
    }
}

/// At the end of the program every release is made, exactly once.
pub proof fn shutdown_releases_everything(step: StartupStep)
    ensures
        step.release() is Some ==> shutdown_plan().contains(step.release().unwrap()),
        shutdown_plan().no_duplicates(),
{
    let all = shutdown_plan();
    assert(all[0] == Cleanup::UnhookMouse);
    assert(all[1] == Cleanup::UnhookKeyboard);
    assert(all[2] == Cleanup::RemoveTrayIcon);
}

} // verus!
