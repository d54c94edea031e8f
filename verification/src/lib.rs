//! Authorization and bulk-transfer core of a Spotify library export/import tool.
//!
//! The crate holds the decisions of the tool: how an access token is obtained,
//! how a cursor-paginated collection is walked, how identifiers are batched for
//! mutation, and how library records become export rows. Network, console and
//! file access stay with the caller, which performs the actions the state
//! machines here ask for and reports back what happened.

use vstd::prelude::*;
use crate::model::value_view;

pub mod access_token;
pub mod bulk;
pub mod error;
pub mod export;
pub mod http;
pub mod import;
pub mod listener;
pub mod model;
pub mod purge;
pub mod text;
pub mod types;
pub mod utils;

verus! {

/// Permissions asked for when exporting.
pub const SCOPE_EXPORT: &'static str = "user-library-read playlist-read-private";

/// Permissions asked for when importing.
pub const SCOPE_IMPORT: &'static str =
    "user-library-modify playlist-modify-public playlist-modify-private";

/// Permissions asked for when purging.
pub const SCOPE_PURGE: &'static str =
    "user-library-read user-library-modify playlist-read-private playlist-modify-public playlist-modify-private";

/// The operation the user asked for. Without `force` an operation only
/// reports what it would do.
#[derive(Clone, Copy, Debug, PartialEq, Eq, Structural)]
pub enum Commands {
    Export { force: bool },
    Import { force: bool },
    Purge { force: bool },
}

/// The parsed command line.
#[derive(Clone, Copy, Debug)]
pub struct Cli {
    pub command: Option<Commands>,
}

impl Commands {
    /// The permissions this operation needs, as a space-separated list.
    pub open spec fn spec_scope(self) -> Seq<char> {
        match self {
            Commands::Export { .. } => SCOPE_EXPORT@,
            Commands::Import { .. } => SCOPE_IMPORT@,
            Commands::Purge { .. } => SCOPE_PURGE@,
        }
    }

    /// Whether the operation is to change anything.
    pub open spec fn spec_force(self) -> bool {
        match self {
            Commands::Export { force } => force,
            Commands::Import { force } => force,
            Commands::Purge { force } => force,
        }
    }

    /// The permissions this operation needs, as a space-separated list.
    pub fn scope(&self) -> (scope: &'static str)
        ensures
            scope@ == self.spec_scope(),
    {
        match self {
            Commands::Export { .. } => SCOPE_EXPORT,
            Commands::Import { .. } => SCOPE_IMPORT,
            Commands::Purge { .. } => SCOPE_PURGE,
        }
    }

    /// Whether the operation is to change anything, or is a dry run.
    pub fn force(&self) -> (force: bool)
        ensures
            force == self.spec_force(),
    {
        match self {
            Commands::Export { force } => *force,
            Commands::Import { force } => *force,
            Commands::Purge { force } => *force,
        }
    }
}

/// One of the things a run does for the user, each against the provider's
/// API with the access token of the run.
#[derive(Clone, Copy, Debug, PartialEq, Eq, Structural)]
pub enum Operation {
    ExportSavedTracks,
    ExportPlaylists,
    FetchUserId,
    ImportSavedTracks,
    ImportPlaylists,
    PurgeSavedTracks,
    PurgePlaylists,
}

/// What a run comes to: the command whose scope the access token is asked
/// for, whether anything is to be changed, and the operations in the order
/// they are carried out. The first one that fails ends the run.
pub struct RunPlan {
    pub command: Commands,
    pub force: bool,
    pub operations: Vec<Operation>,
}

impl Commands {
    /// The operations this command stands for, in the order they run.
    pub open spec fn spec_operations(self) -> Seq<Operation> {
        match self {
            Commands::Export { .. } => seq![
                Operation::ExportSavedTracks,
                Operation::ExportPlaylists,
            ],
            Commands::Import { .. } => seq![
                Operation::FetchUserId,
                Operation::ImportSavedTracks,
                Operation::ImportPlaylists,
            ],
            Commands::Purge { .. } => seq![
                Operation::PurgeSavedTracks,
                Operation::PurgePlaylists,
            ],
        }
    }
}

/// Plans a run from the parsed command line. Without a command there is
/// nothing to do, and no access token is asked for.
pub fn run(cli: &Cli) -> (plan: Option<RunPlan>)
    ensures
        cli.command is None <==> plan is None,
        plan is Some ==> {
            &&& plan->0.command == cli.command->0
            &&& plan->0.force == cli.command->0.spec_force()
            &&& plan->0.operations@ == cli.command->0.spec_operations()
        },
{
    match cli.command {
        None => None,
        Some(command) => {
            let mut operations: Vec<Operation> = Vec::new();
            match command {
                Commands::Export { .. } => {
                    operations.push(Operation::ExportSavedTracks);
                    operations.push(Operation::ExportPlaylists);
                },
                Commands::Import { .. } => {
                    operations.push(Operation::FetchUserId);
                    operations.push(Operation::ImportSavedTracks);
                    operations.push(Operation::ImportPlaylists);
                },
                Commands::Purge { .. } => {
                    operations.push(Operation::PurgeSavedTracks);
                    operations.push(Operation::PurgePlaylists);
                },
            }
            assert(operations@ =~= command.spec_operations());
            Some(RunPlan { command, force: command.force(), operations })
        },
    }
}

/// A run in progress: the access token it works with, and the operations
/// that are still to be carried out, in order.
pub struct Run {
    pub access_token: String,
    pub force: bool,
    pub remaining: Vec<Operation>,
}

/// How a run goes on. `E` is whatever the caller reports failures as.
pub enum RunStep<E> {
    /// Carry out `operation` with the token of `rest`, and report to `rest`
    /// how it ended.
    Do { operation: Operation, rest: Run },
    /// Every operation has been carried out.
    Done,
    /// The run is over: no access token could be had, or an operation
    /// failed. Nothing more is started.
    Failed(E),
}

/// The model of a [`Run`].
pub struct RunView {
    pub access_token: Seq<char>,
    pub force: bool,
    pub remaining: Seq<Operation>,
}

/// The model of a [`RunStep`].
pub enum RunStepView<E> {
    Do { operation: Operation, rest: RunView },
    Done,
    Failed(E),
}

impl DeepView for Run {
    type V = RunView;

    open spec fn deep_view(&self) -> RunView {
        RunView {
            access_token: self.access_token@,
            force: self.force,
            remaining: self.remaining@,
        }
    }
}

impl<E> RunStep<E> {
    /// The step with its run modelled and its failure as it is.
    pub open spec fn shallow_view(self) -> RunStepView<E> {
        match self {
            RunStep::Do { operation, rest } => RunStepView::Do {
                operation,
                rest: rest.deep_view(),
            },
            RunStep::Done => RunStepView::Done,
            RunStep::Failed(error) => RunStepView::Failed(error),
        }
    }
}

/// What is due in a run: its first remaining operation, or nothing more.
pub open spec fn spec_run_next<E>(run: RunView) -> RunStepView<E> {
    if run.remaining.len() == 0 {
        RunStepView::Done
    } else {
        RunStepView::Do {
            operation: run.remaining[0],
            rest: RunView { remaining: run.remaining.drop_first(), ..run },
        }
    }
}

/// How a run goes on after an operation has ended as `outcome`: a failure
/// ends the run with that failure, and nothing more is started; otherwise
/// the next operation is due.
pub open spec fn spec_run_step<E>(run: RunView, outcome: Result<(), E>) -> RunStepView<E> {
    match outcome {
        Ok(_) => spec_run_next(run),
        Err(error) => RunStepView::Failed(error),
    }
}

/// How a planned run starts once the acquisition of the access token has
/// ended: without a token the run fails with the failure of the
/// acquisition and starts no operation; with one, the first operation is
/// due.
pub open spec fn spec_run_start<E>(
    force: bool,
    operations: Seq<Operation>,
    token: Result<Seq<char>, E>,
) -> RunStepView<E> {
    match token {
        Ok(access_token) => spec_run_next(
            RunView { access_token, force, remaining: operations },
        ),
        Err(error) => RunStepView::Failed(error),
    }
}

/// The operations that are started, in order, when a run with `remaining`
/// operations is told `outcomes` in turn (`true` for success). The first is
/// started unasked; each further one only after a success.
pub open spec fn spec_started(remaining: Seq<Operation>, outcomes: Seq<bool>) -> Seq<Operation>
    decreases remaining.len(),
{
    if remaining.len() == 0 {
        Seq::empty()
    } else if outcomes.len() > 0 && outcomes[0] {
        seq![remaining[0]] + spec_started(remaining.drop_first(), outcomes.drop_first())
    } else {
        seq![remaining[0]]
    }
}

/// The first operation that fails is the last one started: if the first
/// `j` operations succeed and the one after them fails, the operations up
/// to and including position `j` are started and none after it.
pub proof fn lemma_failure_ends_the_run(remaining: Seq<Operation>, outcomes: Seq<bool>, j: int)
    requires
        0 <= j < remaining.len(),
        j < outcomes.len(),
        forall|i: int| 0 <= i < j ==> #[trigger] outcomes[i],
        !outcomes[j],
    ensures
        spec_started(remaining, outcomes) == remaining.take(j + 1),
    decreases j,
{
    if j > 0 {
        let rest = remaining.drop_first();
        let later = outcomes.drop_first();
        assert forall|i: int| 0 <= i < j - 1 implies #[trigger] later[i] by {
            assert(later[i] == outcomes[i + 1]);
        }
        assert(later[j - 1] == outcomes[j]);
        lemma_failure_ends_the_run(rest, later, j - 1);
        assert(spec_started(remaining, outcomes) =~= remaining.take(j + 1));
    } else {
        assert(spec_started(remaining, outcomes) =~= remaining.take(1));
    }
}

impl Run {
    fn next<E>(self) -> (out: RunStep<E>)
        ensures
            out.shallow_view() == spec_run_next::<E>(self.deep_view()),
    {
        let Run { access_token, force, remaining } = self;
        let mut remaining = remaining;
        if remaining.len() == 0 {
            RunStep::Done
        } else {
            let ghost before = remaining@;
            let operation = remaining.remove(0);
            assert(remaining@ =~= before.drop_first());
            RunStep::Do { operation, rest: Run { access_token, force, remaining } }
        }
    }

    /// Takes the run one step further, given how the operation started last
    /// has ended. The first operation that fails ends the run.
    pub fn step<E>(self, outcome: Result<(), E>) -> (out: RunStep<E>)
        ensures
            out.shallow_view() == spec_run_step(self.deep_view(), outcome),
            outcome is Err ==> out is Failed,
    {
        match outcome {
            Ok(_) => self.next(),
            Err(error) => RunStep::Failed(error),
        }
    }
}

impl RunPlan {
    /// Starts the run, given how the acquisition of the access token has
    /// ended. A failed acquisition ends the run before any operation.
    pub fn start<E>(self, token: Result<String, E>) -> (out: RunStep<E>)
        ensures
            out.shallow_view() == spec_run_start(self.force, self.operations@, value_view(token)),
            token is Err ==> out is Failed,
    {
        match token {
            Ok(access_token) => Run {
                access_token,
                force: self.force,
                remaining: self.operations,
            }.next(),
            Err(error) => RunStep::Failed(error),
        }
    }
}

} // verus!
