use dualstream::orchestrator::{
    exit_code, Branch, Exit, Failure, Orchestrator, RunAction, RunEvent,
};

fn racing(watch_browser: bool) -> Orchestrator {
    let mut orchestrator = Orchestrator::new(watch_browser);
    assert_eq!(orchestrator.action(), RunAction::MakeIdentity);
    if watch_browser {
        assert_eq!(orchestrator.on_event(RunEvent::IdentityReady), RunAction::LaunchBrowser);
        assert_eq!(orchestrator.on_event(RunEvent::BrowserLaunched), RunAction::Race);
    } else {
        assert_eq!(orchestrator.on_event(RunEvent::IdentityReady), RunAction::Race);
    }
    orchestrator
}

const BRANCHES: [Branch; 4] =
    [Branch::Http, Branch::Multiplexed, Branch::FramedSocket, Branch::Browser];

#[test]
fn exit_codes() {
    assert_eq!(exit_code(Exit::Success), 0);
    assert_eq!(exit_code(Exit::Failure(Failure::Identity)), 1);
    assert_eq!(exit_code(Exit::Failure(Failure::BrowserLaunch)), 1);
    assert_eq!(exit_code(Exit::Failure(Failure::Branch(Branch::Http))), 1);
}

#[test]
fn no_identity_no_run() {
    let mut orchestrator = Orchestrator::new(true);
    let action = orchestrator.on_event(RunEvent::IdentityFailed);
    assert_eq!(action, RunAction::Exit(Exit::Failure(Failure::Identity)));
    assert_eq!(orchestrator.on_event(RunEvent::IdentityReady), action);
    assert_eq!(orchestrator.on_event(RunEvent::BrowserLaunched), action);
}

#[test]
fn browser_that_does_not_start_ends_the_run() {
    let mut orchestrator = Orchestrator::new(true);
    orchestrator.on_event(RunEvent::IdentityReady);
    assert_eq!(
        orchestrator.on_event(RunEvent::BrowserLaunchFailed),
        RunAction::Exit(Exit::Failure(Failure::BrowserLaunch))
    );
}

#[test]
fn nothing_races_before_the_identity_is_there() {
    let mut orchestrator = Orchestrator::new(true);
    for branch in BRANCHES {
        assert_eq!(
            orchestrator.on_event(RunEvent::BranchEnded(branch, false)),
            RunAction::MakeIdentity
        );
    }
    assert_eq!(orchestrator.on_event(RunEvent::BrowserLaunched), RunAction::MakeIdentity);
    orchestrator.on_event(RunEvent::IdentityReady);
    for branch in BRANCHES {
        assert_eq!(
            orchestrator.on_event(RunEvent::BranchEnded(branch, true)),
            RunAction::LaunchBrowser
        );
    }
}

#[test]
fn first_branch_to_end_well_ends_the_run_well() {
    for branch in BRANCHES {
        let mut orchestrator = racing(true);
        assert_eq!(
            orchestrator.on_event(RunEvent::BranchEnded(branch, true)),
            RunAction::Exit(Exit::Success)
        );
    }
}

#[test]
fn first_branch_to_fail_ends_the_run_with_its_error() {
    for branch in [Branch::Http, Branch::Multiplexed, Branch::FramedSocket] {
        let mut orchestrator = racing(true);
        assert_eq!(
            orchestrator.on_event(RunEvent::BranchEnded(branch, false)),
            RunAction::Exit(Exit::Failure(Failure::Branch(branch)))
        );
    }
}

#[test]
fn browser_exit_ends_the_run_well_whatever_its_status() {
    let mut orchestrator = racing(true);
    assert!(orchestrator.races(Branch::Browser));
    assert_eq!(
        orchestrator.on_event(RunEvent::BranchEnded(Branch::Browser, false)),
        RunAction::Exit(Exit::Success)
    );
}

#[test]
fn unwatched_browser_takes_no_part() {
    let mut orchestrator = racing(false);
    assert!(!orchestrator.races(Branch::Browser));
    assert!(orchestrator.races(Branch::Http));
    assert!(orchestrator.races(Branch::Multiplexed));
    assert!(orchestrator.races(Branch::FramedSocket));
    assert_eq!(
        orchestrator.on_event(RunEvent::BranchEnded(Branch::Browser, true)),
        RunAction::Race
    );
    assert_eq!(
        orchestrator.on_event(RunEvent::BranchEnded(Branch::Multiplexed, false)),
        RunAction::Exit(Exit::Failure(Failure::Branch(Branch::Multiplexed)))
    );
}

#[test]
fn race_of_four_ends_with_the_first_and_polls_no_more() {
    // One branch ends after a short delay; the others would run for long.
    let mut orchestrator = racing(true);
    let mut polls = 0;
    let mut action = orchestrator.action();
    let mut reports = vec![
        RunEvent::BranchEnded(Branch::FramedSocket, true),
        RunEvent::BranchEnded(Branch::Http, false),
        RunEvent::BranchEnded(Branch::Multiplexed, false),
        RunEvent::BranchEnded(Branch::Browser, true),
    ]
    .into_iter();
    while action == RunAction::Race {
        polls += 1;
        action = orchestrator.on_event(reports.next().unwrap());
    }
    assert_eq!(polls, 1);
    assert_eq!(action, RunAction::Exit(Exit::Success));
    // Whatever the branches that were dropped would still report is ignored.
    for late in reports {
        assert_eq!(orchestrator.on_event(late), RunAction::Exit(Exit::Success));
    }
    assert_eq!(orchestrator.action(), RunAction::Exit(Exit::Success));
}
