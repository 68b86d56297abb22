//! The plan of a run: the path each target is taken from, the path it is
//! brought to, and the filesystem action that belongs to each pair.

use crate::error::ToolError;
use crate::home::{env_home_dir, found_text, require_home};
use crate::operation::Operation;
use crate::paths::{directories_below, marked, marked_path, texts, Target};
use vstd::prelude::*;
use vstd::string::StringExecFns;

verus! {

/// One call into the filesystem.
#[derive(Clone, Debug, PartialEq, Eq)]
pub enum Action {
    /// Rename the directory at `from` to `to`.
    Rename { from: String, to: String },
    /// Create an empty directory at `path`.
    CreateDir { path: String },
    /// Remove the directory at `path` with all that is in it.
    RemoveDirAll { path: String },
}

/// An `Action` with its paths as sequences of characters.
pub enum ActionView {
    Rename { from: Seq<char>, to: Seq<char> },
    CreateDir { path: Seq<char> },
    RemoveDirAll { path: Seq<char> },
}

impl View for Action {
    type V = ActionView;

    open spec fn view(&self) -> ActionView {
        match self {
            Action::Rename { from, to } => ActionView::Rename { from: from@, to: to@ },
            Action::CreateDir { path } => ActionView::CreateDir { path: path@ },
            Action::RemoveDirAll { path } => ActionView::RemoveDirAll { path: path@ },
        }
    }
}

/// One line of what the user is shown before being asked to agree.
#[derive(Clone, Debug, PartialEq, Eq)]
pub enum Line {
    /// Words, to be shown as they are.
    Text(String),
    /// A path, to be shown in quotes.
    Path(String),
}

/// A `Line` with its content as a sequence of characters.
pub enum LineView {
    Text(Seq<char>),
    Path(Seq<char>),
}

impl View for Line {
    type V = LineView;

    open spec fn view(&self) -> LineView {
        match self {
            Line::Text(words) => LineView::Text(words@),
            Line::Path(path) => LineView::Path(path@),
        }
    }
}

/// What each of `actions` stands for.
pub open spec fn action_views(actions: Seq<Action>) -> Seq<ActionView> {
    Seq::new(actions.len(), |i: int| actions[i]@)
}

/// What each of `lines` stands for.
pub open spec fn line_views(lines: Seq<Line>) -> Seq<LineView> {
    Seq::new(lines.len(), |i: int| lines[i]@)
}

/// The path that `operation` takes the directory from: the directory itself
/// for `Move`, its marked path for the other three.
pub open spec fn source_for(operation: Operation, directory: Seq<char>, extension: Seq<char>) -> Seq<
    char,
> {
    if operation is Move {
        directory
    } else {
        marked(directory, extension)
    }
}

/// The path that `operation` brings the directory to: its marked path for
/// `Move`, the directory itself for the other three.
pub open spec fn destination_for(
    operation: Operation,
    directory: Seq<char>,
    extension: Seq<char>,
) -> Seq<char> {
    if operation is Move {
        marked(directory, extension)
    } else {
        directory
    }
}

/// The filesystem action that `operation` asks for on one pair of paths.
/// `Create` and `Delete` act on the source and leave the destination alone.
pub open spec fn action_for(operation: Operation, source: Seq<char>, destination: Seq<char>) -> ActionView {
    match operation {
        Operation::Move | Operation::Restore => ActionView::Rename {
            from: source,
            to: destination,
        },
        Operation::Create => ActionView::CreateDir { path: source },
        Operation::Delete => ActionView::RemoveDirAll { path: source },
    }
}

/// The line above the sources in the announcement of `operation`.
pub open spec fn heading(operation: Operation) -> Seq<char> {
    "This operation will "@ + operation.name_spec() + " these directories:"@
}

/// Each of `paths` as a line of its own.
pub open spec fn path_lines(paths: Seq<Seq<char>>) -> Seq<LineView> {
    Seq::new(paths.len(), |i: int| LineView::Path(paths[i]))
}

/// A plan as the contracts see it.
pub struct PlanView {
    pub operation: Operation,
    pub sources: Seq<Seq<char>>,
    pub destinations: Seq<Seq<char>>,
}

impl PlanView {
    /// A plan pairs one source with one destination for each of the four
    /// targets.
    pub open spec fn well_formed(self) -> bool {
        self.sources.len() == 4 && self.destinations.len() == 4
    }

    /// The action of the plan at `step`, counted from zero.
    pub open spec fn action(self, step: int) -> ActionView {
        action_for(self.operation, self.sources[step], self.destinations[step])
    }

    /// The actions of the plan in the order in which they are carried out.
    pub open spec fn actions(self) -> Seq<ActionView> {
        Seq::new(self.sources.len(), |step: int| self.action(step))
    }

    /// What the user is shown: the heading and the sources, and for an
    /// operation that renames also the destinations under the words
    /// `to here:`.
    pub open spec fn announcement(self) -> Seq<LineView> {
        let sources = seq![LineView::Text(heading(self.operation))] + path_lines(self.sources);
        if self.operation.renames_spec() {
            sources + seq![LineView::Text("to here:"@)] + path_lines(self.destinations)
        } else {
            sources
        }
    }
}

/// The plan of `operation` with `extension` for the user whose home directory
/// is `home`.
pub open spec fn planned(operation: Operation, home: Seq<char>, extension: Seq<char>) -> PlanView {
    PlanView {
        operation,
        sources: Seq::new(4, |i: int| source_for(operation, directories_below(home)[i], extension)),
        destinations: Seq::new(
            4,
            |i: int| destination_for(operation, directories_below(home)[i], extension),
        ),
    }
}

/// What a request leads to: the error for a home directory that is not known,
/// else the error for a word that requests no operation, else the plan.
pub open spec fn resolved(operation: Seq<char>, home: Option<Seq<char>>, extension: Seq<char>) -> Result<
    PlanView,
    ToolError,
> {
    match home {
        None => Err(ToolError::HomeDirectoryNotFound),
        Some(home) => match Operation::named(operation) {
            None => Err(ToolError::UnsupportedOperation),
            Some(operation) => Ok(planned(operation, home, extension)),
        },
    }
}

/// One operation and, for each of the four targets in their order, the path
/// it is taken from and the path it is brought to. The two lists are paired
/// by position.
#[derive(Clone, Debug, PartialEq, Eq)]
pub struct OperationPlan {
    pub operation: Operation,
    pub from: [String; 4],
    pub to: [String; 4],
}

impl View for OperationPlan {
    type V = PlanView;

    open spec fn view(&self) -> PlanView {
        PlanView {
            operation: self.operation,
            sources: texts(self.from@),
            destinations: texts(self.to@),
        }
    }
}

impl OperationPlan {
    /// Plans `operation` with `extension` for the user whose home directory
    /// is `home`.
    pub fn new(operation: Operation, home: &str, extension: &str) -> (plan: OperationPlan)
        ensures
            plan@ == planned(operation, home@, extension@),
    {
        let config = Target::Config.directory(home);
        let data = Target::Data.directory(home);
        let state = Target::State.directory(home);
        let cache = Target::Cache.directory(home);
        let marked_config = marked_path(config.as_str(), extension);
        let marked_data = marked_path(data.as_str(), extension);
        let marked_state = marked_path(state.as_str(), extension);
        let marked_cache = marked_path(cache.as_str(), extension);
        let plain = [config, data, state, cache];
        let with_mark = [marked_config, marked_data, marked_state, marked_cache];
        let plan = match operation {
            Operation::Move => OperationPlan { operation, from: plain, to: with_mark },
            _ => OperationPlan { operation, from: with_mark, to: plain },
        };
        proof {
            let wanted = planned(operation, home@, extension@);
            assert(plan@.sources =~= wanted.sources);
            assert(plan@.destinations =~= wanted.destinations);
        }
        plan
    }

    /// The action of the plan at `step`, counted from zero.
    pub(crate) fn action_at(&self, step: usize) -> (action: Action)
        requires
            step < 4,
        ensures
            action@ == self@.action(step as int),
    {
        let source = self.from[step].clone();
        match self.operation {
            Operation::Move | Operation::Restore => Action::Rename {
                from: source,
                to: self.to[step].clone(),
            },
            Operation::Create => Action::CreateDir { path: source },
            Operation::Delete => Action::RemoveDirAll { path: source },
        }
    }

    /// The action of the plan at `step`, counted from zero, or nothing where
    /// the plan has no such step.
    pub fn action(&self, step: usize) -> (action: Option<Action>)
        ensures
            match action {
                Some(found) => step < 4 && found@ == self@.action(step as int),
                None => step >= 4,
            },
    {
        if step < 4 {
            Some(self.action_at(step))
        } else {
            None
        }
    }

    /// The actions of the plan in the order in which they are carried out.
    pub fn actions(&self) -> (actions: Vec<Action>)
        ensures
            action_views(actions@) == self@.actions(),
    {
        let mut actions: Vec<Action> = Vec::new();
        let mut step: usize = 0;
        while step < 4
            invariant
                step <= 4,
                actions@.len() == step,
                forall|k: int| 0 <= k < step ==> actions@[k]@ == self@.action(k),
            decreases 4 - step,
        {
            actions.push(self.action_at(step));
            step += 1;
        }
        assert(action_views(actions@) =~= self@.actions());
        actions
    }

    /// What the user is shown before being asked to agree.
    pub fn announcement(&self) -> (lines: Vec<Line>)
        ensures
            line_views(lines@) == self@.announcement(),
    {
        let mut words = String::from_str("This operation will ");
        words.append(self.operation.name());
        words.append(" these directories:");
        let mut lines: Vec<Line> = Vec::new();
        lines.push(Line::Text(words));
        let mut i: usize = 0;
        while i < 4
            invariant
                i <= 4,
                lines@.len() == 1 + i,
                lines@[0]@ == LineView::Text(heading(self.operation)),
                forall|k: int| 0 <= k < i ==> lines@[1 + k]@ == LineView::Path(self.from@[k]@),
            decreases 4 - i,
        {
            lines.push(Line::Path(self.from[i].clone()));
            i += 1;
        }
        if self.operation.renames() {
            lines.push(Line::Text(String::from_str("to here:")));
            let mut j: usize = 0;
            while j < 4
                invariant
                    j <= 4,
                    lines@.len() == 6 + j,
                    lines@[0]@ == LineView::Text(heading(self.operation)),
                    forall|k: int| 0 <= k < 4 ==> lines@[1 + k]@ == LineView::Path(self.from@[k]@),
                    lines@[5]@ == LineView::Text("to here:"@),
                    forall|k: int| 0 <= k < j ==> lines@[6 + k]@ == LineView::Path(self.to@[k]@),
                decreases 4 - j,
            {
                lines.push(Line::Path(self.to[j].clone()));
                j += 1;
            }
        }
        assert(line_views(lines@) =~= self@.announcement());
        lines
    }
}

/// Every plan pairs four sources with four destinations.
pub proof fn lemma_plan_is_well_formed(plan: OperationPlan)
    ensures
        plan@.well_formed(),
{
    assert(plan.from@.len() == 4);
    assert(plan.to@.len() == 4);
}

/// Answers a request: reads the operation that the word `operation` names
/// and plans it with `extension` below `home`, the home directory as a lookup
/// found it. A home directory that was not found is reported first, then a word
/// that requests no operation; no plan is made in either case.
pub fn resolve(operation: &str, home: Option<String>, extension: &str) -> (plan: Result<
    OperationPlan,
    ToolError,
>)
    ensures
        match resolved(operation@, found_text(home), extension@) {
            Ok(wanted) => plan matches Ok(made) && made@ == wanted,
            Err(error) => plan == Err::<OperationPlan, ToolError>(error),
        },
{
    let home = require_home(home)?;
    let operation = Operation::from_name(operation)?;
    Ok(OperationPlan::new(operation, home.as_str(), extension))
}

/// Answers a request for the current user: looks the home directory up and
/// resolves the request below it. Which directory the lookup finds is not
/// known here, so the result is what `resolve` gives for some outcome of the
/// lookup; a home directory that was found has a name.
pub fn resolve_for_current_user(operation: &str, extension: &str) -> (plan: Result<
    OperationPlan,
    ToolError,
>)
    ensures
        exists|home: Option<Seq<char>>|
            {
                &&& home matches Some(path) ==> path.len() > 0
                &&& match #[trigger] resolved(operation@, home, extension@) {
                    Ok(wanted) => plan matches Ok(made) && made@ == wanted,
                    Err(error) => plan == Err::<OperationPlan, ToolError>(error),
                }
            },
{
    let found = env_home_dir();
    let ghost home = found_text(found);
    let plan = resolve(operation, found, extension);
    assert(match resolved(operation@, home, extension@) {
        Ok(wanted) => plan matches Ok(made) && made@ == wanted,
        Err(error) => plan == Err::<OperationPlan, ToolError>(error),
    });
    plan
}

} // verus!
