use nvim_dirs::confirm::PROMPT;
use nvim_dirs::error::ToolError;
use nvim_dirs::operation::Operation;
use nvim_dirs::plan::{Action, OperationPlan};
use nvim_dirs::session::{Command, Event, Phase, Session};

const PLAIN: [&str; 4] = [
    "/home/u/.config/nvim",
    "/home/u/.local/share/nvim",
    "/home/u/.local/state/nvim",
    "/home/u/.cache/nvim",
];

const MARKED_X: [&str; 4] = [
    "/home/u/.config/nvim.x",
    "/home/u/.local/share/nvim.x",
    "/home/u/.local/state/nvim.x",
    "/home/u/.cache/nvim.x",
];

/// Runs `plan` against a filesystem that holds the directories in `present`
/// and nothing else, with a user who types `answer`. Gives back the outcome
/// and the actions that were carried out or attempted.
fn run(
    plan: OperationPlan,
    answer: &str,
    present: &mut Vec<String>,
) -> (Result<(), ToolError>, Vec<Action>) {
    let mut session = Session::new(plan);
    let mut attempted = Vec::new();
    for _ in 0..100 {
        let event = match session.pending() {
            Command::Show(lines) => {
                assert!(!lines.is_empty());
                Event::Shown
            },
            Command::Ask(prompt) => {
                assert_eq!(prompt, PROMPT);
                Event::Answered(answer.to_string())
            },
            Command::Perform(action) => {
                attempted.push(action.clone());
                let done = match action {
                    Action::Rename { from, to } => match present.iter().position(|p| *p == from) {
                        Some(at) => {
                            present[at] = to;
                            true
                        },
                        None => false,
                    },
                    Action::CreateDir { path } => {
                        if present.contains(&path) {
                            false
                        } else {
                            present.push(path);
                            true
                        }
                    },
                    Action::RemoveDirAll { path } => {
                        match present.iter().position(|p| *p == path) {
                            Some(at) => {
                                present.remove(at);
                                true
                            },
                            None => false,
                        }
                    },
                };
                if done {
                    Event::ActionSucceeded
                } else {
                    Event::ActionFailed
                }
            },
            Command::Finish(outcome) => {
                assert!(session.is_finished());
                return (outcome, attempted);
            },
        };
        assert!(!session.is_finished());
        session.advance(&event);
    }
    panic!("the run does not end");
}

fn strings(paths: &[&str]) -> Vec<String> {
    paths.iter().map(|path| path.to_string()).collect()
}

#[test]
fn a_session_begins_by_showing_the_plan() {
    let plan = OperationPlan::new(Operation::Move, "/home/u", "x");
    let mut session = Session::new(plan.clone());
    assert_eq!(session.phase(), Phase::Planned);
    assert_eq!(session.plan(), &plan);
    assert_eq!(session.pending(), Command::Show(plan.announcement()));
    session.advance(&Event::Shown);
    assert_eq!(session.phase(), Phase::AwaitingConfirmation);
    assert_eq!(session.pending(), Command::Ask("Are you sure? [y/N] ".to_string()));
    assert!(!session.is_finished());
}

#[test]
fn create_with_x_confirmed_creates_the_four_marked_directories() {
    let plan = OperationPlan::new(Operation::Create, "/home/u", "x");
    let mut present = strings(&PLAIN);
    let (outcome, attempted) = run(plan, "y\n", &mut present);
    assert_eq!(outcome, Ok(()));
    assert_eq!(
        attempted,
        MARKED_X.iter().map(|path| Action::CreateDir { path: path.to_string() }).collect::<Vec<_>>()
    );
    let mut expected = strings(&PLAIN);
    expected.extend(strings(&MARKED_X));
    assert_eq!(present, expected);
}

#[test]
fn delete_with_x_confirmed_removes_the_four_marked_directories() {
    let plan = OperationPlan::new(Operation::Delete, "/home/u", "x");
    let mut present = strings(&PLAIN);
    present.extend(strings(&MARKED_X));
    let (outcome, attempted) = run(plan, "y\n", &mut present);
    assert_eq!(outcome, Ok(()));
    assert_eq!(attempted.len(), 4);
    assert_eq!(present, strings(&PLAIN));
}

#[test]
fn delete_stops_at_the_first_directory_that_is_missing() {
    let plan = OperationPlan::new(Operation::Delete, "/home/u", "x");
    let mut present = strings(&[MARKED_X[0], MARKED_X[2], MARKED_X[3]]);
    let (outcome, attempted) = run(plan, "y\n", &mut present);
    assert_eq!(outcome, Err(ToolError::FilesystemFailure { step: 1 }));
    assert_eq!(
        attempted,
        vec![
            Action::RemoveDirAll { path: MARKED_X[0].to_string() },
            Action::RemoveDirAll { path: MARKED_X[1].to_string() },
        ]
    );
    assert_eq!(present, strings(&[MARKED_X[2], MARKED_X[3]]));
}

#[test]
fn a_failure_at_any_step_ends_the_run_there() {
    for failing in 0..4 {
        let plan = OperationPlan::new(Operation::Create, "/home/u", "x");
        let mut present = strings(&[MARKED_X[failing]]);
        let (outcome, attempted) = run(plan, "y", &mut present);
        assert_eq!(outcome, Err(ToolError::FilesystemFailure { step: failing }));
        assert_eq!(attempted.len(), failing + 1);
        assert_eq!(present.len(), failing + 1);
    }
}

#[test]
fn any_answer_but_y_cancels_and_touches_nothing() {
    for answer in ["", "\n", "n\n", "N", "Y\n", "yes\n", "y y\n", "yy", "no"] {
        for operation in [Operation::Move, Operation::Restore, Operation::Create, Operation::Delete]
        {
            let plan = OperationPlan::new(operation, "/home/u", "x");
            let mut present = strings(&PLAIN);
            present.extend(strings(&MARKED_X));
            let before = present.clone();
            let (outcome, attempted) = run(plan, answer, &mut present);
            assert_eq!(outcome, Err(ToolError::OperationCancelled), "{answer:?}");
            assert_eq!(attempted, vec![]);
            assert_eq!(present, before);
        }
    }
}

#[test]
fn move_then_restore_brings_every_directory_back() {
    for extension in ["e", "bak", "", "a.b"] {
        let mut present = strings(&PLAIN);
        let moving = OperationPlan::new(Operation::Move, "/home/u", extension);
        let marked = moving.to.clone();
        let (outcome, attempted) = run(moving, "y\n", &mut present);
        assert_eq!(outcome, Ok(()));
        assert_eq!(attempted.len(), 4);
        assert_eq!(present, marked.to_vec());
        let restoring = OperationPlan::new(Operation::Restore, "/home/u", extension);
        let (outcome, attempted) = run(restoring, " y ", &mut present);
        assert_eq!(outcome, Ok(()));
        assert_eq!(attempted.len(), 4);
        assert_eq!(present, strings(&PLAIN));
    }
}

#[test]
fn actions_are_asked_for_one_by_one_in_order() {
    let plan = OperationPlan::new(Operation::Move, "/home/u", "x");
    let mut session = Session::new(plan.clone());
    session.advance(&Event::Shown);
    session.advance(&Event::Answered("y\n".to_string()));
    for step in 0..4 {
        assert_eq!(session.phase(), Phase::Executing { step });
        assert_eq!(session.pending(), Command::Perform(plan.action(step).unwrap()));
        assert_eq!(
            session.pending(),
            Command::Perform(Action::Rename {
                from: PLAIN[step].to_string(),
                to: MARKED_X[step].to_string()
            })
        );
        session.advance(&Event::ActionSucceeded);
    }
    assert_eq!(session.phase(), Phase::Done);
    assert_eq!(session.pending(), Command::Finish(Ok(())));
    assert!(session.is_finished());
}

#[test]
fn an_event_that_answers_nothing_changes_nothing() {
    let plan = OperationPlan::new(Operation::Move, "/home/u", "x");
    let mut session = Session::new(plan);
    for event in [Event::Answered("y".to_string()), Event::ActionSucceeded, Event::ActionFailed] {
        session.advance(&event);
        assert_eq!(session.phase(), Phase::Planned);
    }
    session.advance(&Event::Shown);
    for event in [Event::Shown, Event::ActionSucceeded, Event::ActionFailed] {
        session.advance(&event);
        assert_eq!(session.phase(), Phase::AwaitingConfirmation);
    }
    session.advance(&Event::Answered("y".to_string()));
    for event in [Event::Shown, Event::Answered("n".to_string())] {
        session.advance(&event);
        assert_eq!(session.phase(), Phase::Executing { step: 0 });
    }
}

#[test]
fn a_run_that_has_ended_stays_ended() {
    let every_event = [
        Event::Shown,
        Event::Answered("y".to_string()),
        Event::ActionSucceeded,
        Event::ActionFailed,
    ];

    let mut cancelled = Session::new(OperationPlan::new(Operation::Delete, "/home/u", "x"));
    cancelled.advance(&Event::Shown);
    cancelled.advance(&Event::Answered("n".to_string()));
    assert_eq!(cancelled.phase(), Phase::Cancelled);

    let mut failed = Session::new(OperationPlan::new(Operation::Delete, "/home/u", "x"));
    failed.advance(&Event::Shown);
    failed.advance(&Event::Answered("y".to_string()));
    failed.advance(&Event::ActionSucceeded);
    failed.advance(&Event::ActionSucceeded);
    failed.advance(&Event::ActionFailed);
    assert_eq!(failed.phase(), Phase::Failed { step: 2 });

    let mut done = Session::new(OperationPlan::new(Operation::Delete, "/home/u", "x"));
    done.advance(&Event::Shown);
    done.advance(&Event::Answered("y".to_string()));
    for _ in 0..4 {
        done.advance(&Event::ActionSucceeded);
    }
    assert_eq!(done.phase(), Phase::Done);

    for event in &every_event {
        cancelled.advance(event);
        failed.advance(event);
        done.advance(event);
        assert_eq!(cancelled.pending(), Command::Finish(Err(ToolError::OperationCancelled)));
        assert_eq!(
            failed.pending(),
            Command::Finish(Err(ToolError::FilesystemFailure { step: 2 }))
        );
        assert_eq!(done.pending(), Command::Finish(Ok(())));
        assert!(cancelled.is_finished() && failed.is_finished() && done.is_finished());
    }
}
