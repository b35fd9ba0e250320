//! The run as a whole, as decisions.
//!
//! The identity is made first, since no listener starts without one. Then the
//! browser is launched, if one is to be watched, and the branches race: the
//! static file service, the two listeners and the browser's exit. The first
//! branch to end ends the run; the others are dropped where they stand.

use vstd::prelude::*;

verus! {

/// One of the branches that race.
#[derive(Clone, Copy, Debug, PartialEq, Eq, Structural)]
pub enum Branch {
    /// The static file service.
    Http,
    /// The listener of the multiplexed transport.
    Multiplexed,
    /// The listener of the framed socket.
    FramedSocket,
    /// The wait for the browser to exit.
    Browser,
}

/// What made a run fail.
#[derive(Clone, Copy, Debug, PartialEq, Eq, Structural)]
pub enum Failure {
    /// No identity could be made.
    Identity,
    /// The browser could not be launched.
    BrowserLaunch,
    /// This branch ended with an error.
    Branch(Branch),
}

/// How a run ended.
#[derive(Clone, Copy, Debug, PartialEq, Eq, Structural)]
pub enum Exit {
    /// A branch ended well.
    Success,
    /// A fatal error.
    Failure(Failure),
}

/// Where a run stands.
#[derive(Clone, Copy, Debug, PartialEq, Eq, Structural)]
pub enum RunState {
    /// The identity is being made.
    AwaitingIdentity,
    /// The browser is being launched.
    AwaitingBrowser,
    /// The branches race.
    Racing,
    /// The run is over.
    Terminal(Exit),
}

/// What the caller reports to the orchestrator.
#[derive(Clone, Copy, Debug, PartialEq, Eq, Structural)]
pub enum RunEvent {
    /// The identity is there.
    IdentityReady,
    /// No identity could be made.
    IdentityFailed,
    /// The browser runs.
    BrowserLaunched,
    /// The browser could not be launched.
    BrowserLaunchFailed,
    /// A branch ended, well (`true`) or with an error.
    BranchEnded(Branch, bool),
}

/// What the orchestrator asks of the caller.
#[derive(Clone, Copy, Debug, PartialEq, Eq, Structural)]
pub enum RunAction {
    /// Make the identity.
    MakeIdentity,
    /// Launch the browser.
    LaunchBrowser,
    /// Poll every started branch until the first ends.
    Race,
    /// Drop every branch and end the process.
    Exit(Exit),
}

/// Whether `branch` takes part in the race. The browser does only where one
/// is watched.
pub open spec fn takes_part(watch_browser: bool, branch: Branch) -> bool {
    branch != Branch::Browser || watch_browser
}

/// How the run ends when `branch` is the first to end. The browser's exit
/// ends the run well whatever its status; any other branch hands on its own
/// result.
pub open spec fn exit_of(branch: Branch, ok: bool) -> Exit {
    if ok || branch == Branch::Browser {
        Exit::Success
    } else {
        Exit::Failure(Failure::Branch(branch))
    }
}

/// The state that follows `state` when `event` is reported. An event that
/// does not answer what the orchestrator is waiting for changes nothing, and
/// nothing changes a run that is over.
pub open spec fn run_step(watch_browser: bool, state: RunState, event: RunEvent) -> RunState {
    match (state, event) {
        (RunState::AwaitingIdentity, RunEvent::IdentityReady) => if watch_browser {
            RunState::AwaitingBrowser
        } else {
            RunState::Racing
        },
        (RunState::AwaitingIdentity, RunEvent::IdentityFailed) => RunState::Terminal(
            Exit::Failure(Failure::Identity),
        ),
        (RunState::AwaitingBrowser, RunEvent::BrowserLaunched) => RunState::Racing,
        (RunState::AwaitingBrowser, RunEvent::BrowserLaunchFailed) => RunState::Terminal(
            Exit::Failure(Failure::BrowserLaunch),
        ),
        (RunState::Racing, RunEvent::BranchEnded(branch, ok)) => if takes_part(
            watch_browser,
            branch,
        ) {
            RunState::Terminal(exit_of(branch, ok))
        } else {
            state
        },
        _ => state,
    }
}

/// What an orchestrator in `state` asks for.
pub open spec fn run_action(state: RunState) -> RunAction {
    match state {
        RunState::AwaitingIdentity => RunAction::MakeIdentity,
        RunState::AwaitingBrowser => RunAction::LaunchBrowser,
        RunState::Racing => RunAction::Race,
        RunState::Terminal(exit) => RunAction::Exit(exit),
    }
}

/// The state reached from `state` through `events`, taken in order.
pub open spec fn run_through(watch_browser: bool, state: RunState, events: Seq<RunEvent>) -> RunState
    decreases events.len(),
{
    if events.len() == 0 {
        state
    } else {
        run_step(watch_browser, run_through(watch_browser, state, events.drop_last()), events.last())
    }
}

/// The status with which the process ends: zero for a good end, one for a
/// fatal error.
pub open spec fn exit_status(exit: Exit) -> u8 {
    match exit {
        Exit::Success => 0,
        Exit::Failure(_) => 1,
    }
}

/// The status with which the process ends.
pub fn exit_code(exit: Exit) -> (code: u8)
    ensures
        code == exit_status(exit),
        code == 0 <==> exit == Exit::Success,
{
    match exit {
        Exit::Success => 0,
        Exit::Failure(_) => 1,
    }
}

/// Starts the branches and ends the run with the first of them.
pub struct Orchestrator {
    watch_browser: bool,
    state: RunState,
}

impl Orchestrator {
    /// Whether a browser is launched and watched.
    pub closed spec fn watch_browser(&self) -> bool {
        self.watch_browser
    }

    /// Where the run stands.
    pub closed spec fn state(&self) -> RunState {
        self.state
    }

    /// An orchestrator at the start of a run.
    pub fn new(watch_browser: bool) -> (orchestrator: Self)
        ensures
            orchestrator.watch_browser() == watch_browser,
            orchestrator.state() == RunState::AwaitingIdentity,
    {
        Orchestrator { watch_browser, state: RunState::AwaitingIdentity }
    }

    /// What the orchestrator is waiting for.
    pub fn action(&self) -> (action: RunAction)
        ensures
            action == run_action(self.state()),
    {
        match self.state {
            RunState::AwaitingIdentity => RunAction::MakeIdentity,
            RunState::AwaitingBrowser => RunAction::LaunchBrowser,
            RunState::Racing => RunAction::Race,
            RunState::Terminal(exit) => RunAction::Exit(exit),
        }
    }

    /// Whether `branch` takes part in the race.
    pub fn races(&self, branch: Branch) -> (part: bool)
        ensures
            part == takes_part(self.watch_browser(), branch),
    {
        match branch {
            Branch::Browser => self.watch_browser,
            _ => true,
        }
    }

    /// Takes in `event` and says what to do next.
    pub fn on_event(&mut self, event: RunEvent) -> (action: RunAction)
        ensures
            final(self).watch_browser() == old(self).watch_browser(),
            final(self).state() == run_step(old(self).watch_browser(), old(self).state(), event),
            action == run_action(final(self).state()),
    {
        let next = match (self.state, event) {
            (RunState::AwaitingIdentity, RunEvent::IdentityReady) => if self.watch_browser {
                RunState::AwaitingBrowser
            } else {
                RunState::Racing
            },
            (RunState::AwaitingIdentity, RunEvent::IdentityFailed) => RunState::Terminal(
                Exit::Failure(Failure::Identity),
            ),
            (RunState::AwaitingBrowser, RunEvent::BrowserLaunched) => RunState::Racing,
            (RunState::AwaitingBrowser, RunEvent::BrowserLaunchFailed) => RunState::Terminal(
                Exit::Failure(Failure::BrowserLaunch),
            ),
            (RunState::Racing, RunEvent::BranchEnded(branch, ok)) => if self.races(branch) {
                let exit = match branch {
                    Branch::Browser => Exit::Success,
                    _ => if ok {
                        Exit::Success
                    } else {
                        Exit::Failure(Failure::Branch(branch))
                    },
                };
                RunState::Terminal(exit)
            } else {
                self.state
            },
            (state, _) => state,
        };
        self.state = next;
        self.action()
    }
}

/// A run that is over stays over, with the same outcome, whatever is
/// reported afterwards; so no branch is polled again.
pub proof fn lemma_terminal_is_final(watch_browser: bool, exit: Exit, events: Seq<RunEvent>)
    ensures
        run_through(watch_browser, RunState::Terminal(exit), events) == RunState::Terminal(exit),
        run_action(run_through(watch_browser, RunState::Terminal(exit), events)) == RunAction::Exit(
            exit,
        ),
    decreases events.len(),
{
    if events.len() > 0 {
        lemma_terminal_is_final(watch_browser, exit, events.drop_last());
    }
}

/// The first branch to end wins the race: the run ends with that branch's
/// outcome, and whatever the other branches report later is ignored.
pub proof fn lemma_first_to_finish_wins(
    watch_browser: bool,
    branch: Branch,
    ok: bool,
    later: Seq<RunEvent>,
)
    requires
        takes_part(watch_browser, branch),
    ensures
        run_through(
            watch_browser,
            RunState::Racing,
            seq![RunEvent::BranchEnded(branch, ok)] + later,
        ) == RunState::Terminal(exit_of(branch, ok)),
    decreases later.len(),
{
    let first = seq![RunEvent::BranchEnded(branch, ok)];
    if later.len() == 0 {
        assert(first + later =~= first);
        assert(first.drop_last() =~= Seq::<RunEvent>::empty());
        assert(run_through(watch_browser, RunState::Racing, first.drop_last()) == RunState::Racing);
    } else {
        lemma_first_to_finish_wins(watch_browser, branch, ok, later.drop_last());
        assert((first + later).drop_last() =~= first + later.drop_last());
        assert((first + later).last() == later.last());
    }
}

/// A run fails only for want of an identity, for want of the browser, or
/// because a branch other than the browser's ended with an error; and the
/// process then ends with a status other than zero.
pub proof fn lemma_failure_causes(watch_browser: bool, state: RunState, event: RunEvent)
    requires
        !(state is Terminal),
        run_step(watch_browser, state, event) matches RunState::Terminal(exit) && exit
            is Failure,
    ensures
        event == RunEvent::IdentityFailed || event == RunEvent::BrowserLaunchFailed || (
        event matches RunEvent::BranchEnded(branch, ok) && !ok && branch != Branch::Browser),
        run_step(watch_browser, state, event) matches RunState::Terminal(exit) && exit_status(exit)
            != 0,
{
}

/// The path to the race: the identity comes first; the browser is launched
/// next where one is watched; then the branches are polled.
pub proof fn lemma_start_up(watch_browser: bool)
    ensures
        run_action(RunState::AwaitingIdentity) == RunAction::MakeIdentity,
        run_action(run_step(watch_browser, RunState::AwaitingIdentity, RunEvent::IdentityReady))
            == if watch_browser {
            RunAction::LaunchBrowser
        } else {
            RunAction::Race
        },
        run_action(run_step(watch_browser, RunState::AwaitingBrowser, RunEvent::BrowserLaunched))
            == RunAction::Race,
{
}

} // verus!
