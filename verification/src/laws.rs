//! What holds of every plan and of every run.

use crate::confirm::is_affirmative;
use crate::error::ToolError;
use crate::operation::Operation;
use crate::paths::{all_targets, directories_below, joined, marked};
use crate::plan::{planned, resolved, ActionView, PlanView};
use crate::session::{begun, CommandView, EventView, Phase, SessionView};
use vstd::prelude::*;

verus! {

/// A plan made for a user is well formed: it pairs four sources with four
/// destinations.
pub proof fn lemma_planned_is_well_formed(
    operation: Operation,
    home: Seq<char>,
    extension: Seq<char>,
)
    ensures
        planned(operation, home, extension).well_formed(),
        planned(operation, home, extension).operation == operation,
{
}

/// `Move` takes every target from its directory, which is left as it is
/// named, to the same path marked with the extension: where there is an
/// extension, the source followed by a `.` and the extension.
pub proof fn lemma_move_marks_each_directory(home: Seq<char>, extension: Seq<char>, target: int)
    requires
        0 <= target < 4,
    ensures
        planned(Operation::Move, home, extension).sources[target] == directories_below(
            home,
        )[target],
        planned(Operation::Move, home, extension).destinations[target] == marked(
            planned(Operation::Move, home, extension).sources[target],
            extension,
        ),
        extension.len() > 0 ==> planned(Operation::Move, home, extension).destinations[target]
            == planned(Operation::Move, home, extension).sources[target] + seq!['.'] + extension,
        planned(Operation::Move, home, extension).action(target) == (ActionView::Rename {
            from: directories_below(home)[target],
            to: marked(directories_below(home)[target], extension),
        }),
{
}

/// `Restore` takes every target from its marked path to its directory.
pub proof fn lemma_restore_unmarks_each_directory(
    home: Seq<char>,
    extension: Seq<char>,
    target: int,
)
    requires
        0 <= target < 4,
    ensures
        planned(Operation::Restore, home, extension).destinations[target] == directories_below(
            home,
        )[target],
        planned(Operation::Restore, home, extension).sources[target] == marked(
            planned(Operation::Restore, home, extension).destinations[target],
            extension,
        ),
        extension.len() > 0 ==> planned(Operation::Restore, home, extension).sources[target]
            == planned(Operation::Restore, home, extension).destinations[target] + seq!['.']
            + extension,
        planned(Operation::Restore, home, extension).action(target) == (ActionView::Rename {
            from: marked(directories_below(home)[target], extension),
            to: directories_below(home)[target],
        }),
{
}

/// `Create` and `Delete` act on the marked path of every target and never on
/// the directory itself, unless the extension is empty and marks nothing.
pub proof fn lemma_create_and_delete_act_on_marked_paths(
    home: Seq<char>,
    extension: Seq<char>,
    target: int,
)
    requires
        0 <= target < 4,
    ensures
        planned(Operation::Create, home, extension).action(target) == (ActionView::CreateDir {
            path: marked(directories_below(home)[target], extension),
        }),
        planned(Operation::Delete, home, extension).action(target) == (ActionView::RemoveDirAll {
            path: marked(directories_below(home)[target], extension),
        }),
{
}

/// What `Restore` plans is what `Move` plans with every pair turned round.
pub proof fn lemma_restore_turns_move_round(home: Seq<char>, extension: Seq<char>)
    ensures
        planned(Operation::Restore, home, extension).sources == planned(
            Operation::Move,
            home,
            extension,
        ).destinations,
        planned(Operation::Restore, home, extension).destinations == planned(
            Operation::Move,
            home,
            extension,
        ).sources,
{
    assert(planned(Operation::Restore, home, extension).sources =~= planned(
        Operation::Move,
        home,
        extension,
    ).destinations);
    assert(planned(Operation::Restore, home, extension).destinations =~= planned(
        Operation::Move,
        home,
        extension,
    ).sources);
}

/// A word that requests none of the four operations gets no plan, whatever
/// the home directory and the extension are: with no plan there is no session,
/// so nothing is shown, asked or done.
pub proof fn lemma_unknown_operation_gets_no_plan(
    operation: Seq<char>,
    home: Option<Seq<char>>,
    extension: Seq<char>,
)
    requires
        operation != "move"@,
        operation != "restore"@,
        operation != "create"@,
        operation != "delete"@,
    ensures
        resolved(operation, home, extension) is Err,
        home is Some ==> resolved(operation, home, extension) == Err::<PlanView, ToolError>(
            ToolError::UnsupportedOperation,
        ),
{
}

/// The plan of a run never changes, whatever is reported.
pub proof fn lemma_plan_stays(session: SessionView, events: Seq<EventView>)
    ensures
        session.after_all(events).plan == session.plan,
    decreases events.len(),
{
    if events.len() > 0 {
        lemma_plan_stays(session, events.drop_last());
    }
}

/// A run that has ended stays as it is, whatever is reported to it.
pub proof fn lemma_finished_is_final(session: SessionView, events: Seq<EventView>)
    requires
        session.finished(),
    ensures
        session.after_all(events) == session,
    decreases events.len(),
{
    if events.len() > 0 {
        lemma_finished_is_final(session, events.drop_last());
    }
}

/// Whether no answer among `events` agrees.
pub open spec fn no_consent(events: Seq<EventView>) -> bool {
    forall|k: int|
        0 <= k < events.len() ==> (#[trigger] events[k] matches EventView::Answered(answer)
            ==> !is_affirmative(answer))
}

/// Without an answer that agrees, no filesystem action is ever asked for:
/// whatever else is reported, the run is still before the confirmation or
/// cancelled.
pub proof fn lemma_no_action_without_consent(plan: PlanView, events: Seq<EventView>)
    requires
        no_consent(events),
    ensures
        !(begun(plan).after_all(events).pending() is Perform),
        begun(plan).after_all(events).phase is Planned || begun(plan).after_all(
            events,
        ).phase is AwaitingConfirmation || begun(plan).after_all(events).phase is Cancelled,
    decreases events.len(),
{
    if events.len() > 0 {
        let before = events.drop_last();
        assert forall|k: int| 0 <= k < before.len() implies (#[trigger] before[k] matches EventView::Answered(
            answer,
        ) ==> !is_affirmative(answer)) by {
            assert(before[k] == events[k]);
        }
        lemma_no_action_without_consent(plan, before);
        assert(events.last() == events[events.len() - 1]);
    }
}

/// An answer that does not agree cancels the run for good: the session asks
/// the driver to stop with `OperationCancelled`, now and after anything that
/// is reported later.
pub proof fn lemma_refusal_cancels(
    session: SessionView,
    answer: Seq<char>,
    later: Seq<EventView>,
)
    requires
        session.phase is AwaitingConfirmation,
        !is_affirmative(answer),
    ensures
        session.after(EventView::Answered(answer)).after_all(later).pending() == CommandView::Finish(
            Err(ToolError::OperationCancelled),
        ),
{
    lemma_finished_is_final(session.after(EventView::Answered(answer)), later);
}

/// A failed action ends the run for good: the session asks the driver to
/// stop with the step that failed, now and after anything that is reported
/// later, so the actions after that step are never asked for.
pub proof fn lemma_failure_stops_the_run(session: SessionView, step: usize, later: Seq<EventView>)
    requires
        session.phase == (Phase::Executing { step }),
    ensures
        session.after(EventView::ActionFailed).after_all(later).pending() == CommandView::Finish(
            Err(ToolError::FilesystemFailure { step }),
        ),
{
    lemma_finished_is_final(session.after(EventView::ActionFailed), later);
}

/// The events of a run in which the user agrees with `answer` and the first
/// `succeeded` actions succeed.
pub open spec fn agreed_run(answer: Seq<char>, succeeded: nat) -> Seq<EventView> {
    seq![EventView::Shown, EventView::Answered(answer)] + Seq::new(
        succeeded,
        |k: int| EventView::ActionSucceeded,
    )
}

/// Once the user has agreed, the actions of the plan are asked for one by one
/// in their order, each after the one before it has succeeded, and after the
/// last one the run is done.
pub proof fn lemma_agreed_run_performs_the_plan(
    plan: PlanView,
    answer: Seq<char>,
    succeeded: nat,
)
    requires
        plan.well_formed(),
        is_affirmative(answer),
        succeeded <= 4,
    ensures
        succeeded < 4 ==> begun(plan).after_all(agreed_run(answer, succeeded)).phase
            == (Phase::Executing { step: succeeded as usize }),
        succeeded < 4 ==> begun(plan).after_all(agreed_run(answer, succeeded)).pending()
            == CommandView::Perform(plan.action(succeeded as int)),
        succeeded == 4 ==> begun(plan).after_all(agreed_run(answer, succeeded)).phase is Done,
        succeeded == 4 ==> begun(plan).after_all(agreed_run(answer, succeeded)).pending()
            == CommandView::Finish(Ok(())),
    decreases succeeded,
{
    let start = begun(plan);
    let events = agreed_run(answer, succeeded);
    if succeeded == 0 {
        let nothing = Seq::<EventView>::empty();
        let shown = seq![EventView::Shown];
        assert(start.after_all(nothing) == start);
        assert(shown.drop_last() =~= nothing);
        assert(shown.last() == EventView::Shown);
        assert(start.after_all(shown) == start.after(EventView::Shown));
        assert(events.drop_last() =~= shown);
        assert(events.last() == EventView::Answered(answer));
        assert(start.after_all(events) == start.after(EventView::Shown).after(
            EventView::Answered(answer),
        ));
    } else {
        let fewer = (succeeded - 1) as nat;
        lemma_agreed_run_performs_the_plan(plan, answer, fewer);
        lemma_plan_stays(start, agreed_run(answer, fewer));
        assert(events.drop_last() =~= agreed_run(answer, fewer));
        assert(events.last() == EventView::ActionSucceeded);
        assert(start.after_all(events) == start.after_all(agreed_run(answer, fewer)).after(
            EventView::ActionSucceeded,
        ));
    }
}

/// Where a directory that stands at `location` stands once `action` has
/// been carried out: a rename away from `location` takes it along, and every
/// other action leaves it where it is.
pub open spec fn moved_by(location: Seq<char>, action: ActionView) -> Seq<char> {
    match action {
        ActionView::Rename { from, to } => if location == from {
            to
        } else {
            location
        },
        _ => location,
    }
}

/// Where a directory that stands at `location` stands once `actions` have
/// been carried out one after another.
pub open spec fn moved_by_all(location: Seq<char>, actions: Seq<ActionView>) -> Seq<char>
    decreases actions.len(),
{
    if actions.len() == 0 {
        location
    } else {
        moved_by(moved_by_all(location, actions.drop_last()), actions.last())
    }
}

/// Whether `a` and `b` differ at a place that both have, so that neither is
/// the other one continued.
pub open spec fn diverge(a: Seq<char>, b: Seq<char>) -> bool {
    exists|at: int| 0 <= at < a.len() && at < b.len() && a[at] != b[at]
}

/// The relative paths of two different targets diverge.
proof fn lemma_relative_paths_diverge(one: int, other: int)
    requires
        0 <= one < 4,
        0 <= other < 4,
        one != other,
    ensures
        diverge(
            all_targets()[one].relative_path_spec(),
            all_targets()[other].relative_path_spec(),
        ),
{
    reveal_strlit(".config/nvim");
    reveal_strlit(".local/share/nvim");
    reveal_strlit(".local/state/nvim");
    reveal_strlit(".cache/nvim");
    let a = all_targets()[one].relative_path_spec();
    let b = all_targets()[other].relative_path_spec();
    let at: int = if one + other != 3 {
        1
    } else if one == 0 || one == 3 {
        2
    } else {
        8
    };
    assert(0 <= at < a.len() && at < b.len() && a[at] != b[at]);
}

/// Paths that diverge still diverge below the same directory.
proof fn lemma_joined_paths_diverge(base: Seq<char>, a: Seq<char>, b: Seq<char>)
    requires
        diverge(a, b),
    ensures
        diverge(joined(base, a), joined(base, b)),
{
    let at = choose|at: int| 0 <= at < a.len() && at < b.len() && a[at] != b[at];
    let shift = joined(base, a).len() - a.len();
    assert(joined(base, a)[shift + at] == a[at]);
    assert(joined(base, b)[shift + at] == b[at]);
}

/// Paths that diverge are different, marked or not.
proof fn lemma_diverging_paths_differ(
    a: Seq<char>,
    b: Seq<char>,
    extension: Seq<char>,
    other_extension: Seq<char>,
)
    requires
        diverge(a, b),
    ensures
        a != b,
        marked(a, extension) != b,
        a != marked(b, other_extension),
        marked(a, extension) != marked(b, other_extension),
{
    let at = choose|at: int| 0 <= at < a.len() && at < b.len() && a[at] != b[at];
    assert(marked(a, extension)[at] == a[at]);
    assert(marked(b, other_extension)[at] == b[at]);
}

/// The directories of two different targets are different paths, marked or
/// not, whatever the home directory is.
pub proof fn lemma_targets_do_not_collide(
    home: Seq<char>,
    extension: Seq<char>,
    one: int,
    other: int,
)
    requires
        0 <= one < 4,
        0 <= other < 4,
        one != other,
    ensures
        directories_below(home)[one] != directories_below(home)[other],
        marked(directories_below(home)[one], extension) != directories_below(home)[other],
        marked(directories_below(home)[one], extension) != marked(
            directories_below(home)[other],
            extension,
        ),
{
    lemma_relative_paths_diverge(one, other);
    lemma_joined_paths_diverge(
        home,
        all_targets()[one].relative_path_spec(),
        all_targets()[other].relative_path_spec(),
    );
    lemma_diverging_paths_differ(
        directories_below(home)[one],
        directories_below(home)[other],
        extension,
        extension,
    );
}

/// While `Move` is carried out, the directory of `target` stands at its own
/// path until its turn has come and at its marked path from then on.
proof fn lemma_move_in_progress(home: Seq<char>, extension: Seq<char>, target: int, done: int)
    requires
        0 <= target < 4,
        0 <= done <= 4,
    ensures
        moved_by_all(
            directories_below(home)[target],
            planned(Operation::Move, home, extension).actions().take(done),
        ) == if done > target {
            marked(directories_below(home)[target], extension)
        } else {
            directories_below(home)[target]
        },
    decreases done,
{
    let actions = planned(Operation::Move, home, extension).actions();
    if done > 0 {
        let turn = done - 1;
        lemma_move_in_progress(home, extension, target, turn);
        assert(actions.take(done).drop_last() =~= actions.take(turn));
        assert(actions.take(done).last() == actions[turn]);
        lemma_move_marks_each_directory(home, extension, turn);
        if turn != target {
            lemma_targets_do_not_collide(home, extension, target, turn);
        }
    }
}

/// While `Restore` is carried out, the directory of `target` stands at its
/// marked path until its turn has come and at its own path from then on.
proof fn lemma_restore_in_progress(home: Seq<char>, extension: Seq<char>, target: int, done: int)
    requires
        0 <= target < 4,
        0 <= done <= 4,
    ensures
        moved_by_all(
            marked(directories_below(home)[target], extension),
            planned(Operation::Restore, home, extension).actions().take(done),
        ) == if done > target {
            directories_below(home)[target]
        } else {
            marked(directories_below(home)[target], extension)
        },
    decreases done,
{
    let actions = planned(Operation::Restore, home, extension).actions();
    if done > 0 {
        let turn = done - 1;
        lemma_restore_in_progress(home, extension, target, turn);
        assert(actions.take(done).drop_last() =~= actions.take(turn));
        assert(actions.take(done).last() == actions[turn]);
        lemma_restore_unmarks_each_directory(home, extension, turn);
        if turn != target {
            lemma_targets_do_not_collide(home, extension, target, turn);
            lemma_targets_do_not_collide(home, extension, turn, target);
        }
    }
}

/// `Move` and then `Restore` with the same extension bring every directory
/// back to where it stood: `Move` takes the directory of each target to its
/// marked path, and `Restore` takes it from there to its own path again.
pub proof fn lemma_move_then_restore_is_a_round_trip(
    home: Seq<char>,
    extension: Seq<char>,
    target: int,
)
    requires
        0 <= target < 4,
    ensures
        moved_by_all(
            directories_below(home)[target],
            planned(Operation::Move, home, extension).actions(),
        ) == marked(directories_below(home)[target], extension),
        moved_by_all(
            moved_by_all(
                directories_below(home)[target],
                planned(Operation::Move, home, extension).actions(),
            ),
            planned(Operation::Restore, home, extension).actions(),
        ) == directories_below(home)[target],
{
    let moving = planned(Operation::Move, home, extension).actions();
    let restoring = planned(Operation::Restore, home, extension).actions();
    lemma_move_in_progress(home, extension, target, 4);
    lemma_restore_in_progress(home, extension, target, 4);
    assert(moving.take(4) =~= moving);
    assert(restoring.take(4) =~= restoring);
}

} // verus!
