//! What holds of every run of the agent.
//!
//! A run is the agent's answer to a sequence of inputs, each an event
//! together with the pause that its step may use. The laws speak of one
//! cycle: the steps from a state up to the one that puts the agent to sleep.

use crate::agent::{next, ActionKind, ActionView, AgentView, Event, Phase, Stage, StepView};
use crate::error::AgentErrorView;
use crate::task::{Command, PollResponse, Upload};
use crate::transport::poll_result;
use vstd::prelude::*;

verus! {

/// The steps that the agent takes from `s` on the inputs, up to the end of
/// the cycle: it takes none once it is asleep.
pub open spec fn cycle(s: AgentView, inputs: Seq<(Event, u64)>) -> Seq<StepView>
    decreases inputs.len(),
{
    if inputs.len() == 0 || s.stage == Stage::Sleeping {
        Seq::empty()
    } else {
        let (t, step) = next(s, inputs[0].0, inputs[0].1);
        seq![step] + cycle(t, inputs.drop_first())
    }
}

/// The state in which the steps of [`cycle`] leave the agent.
pub open spec fn cycle_end(s: AgentView, inputs: Seq<(Event, u64)>) -> AgentView
    decreases inputs.len(),
{
    if inputs.len() == 0 || s.stage == Stage::Sleeping {
        s
    } else {
        cycle_end(next(s, inputs[0].0, inputs[0].1).0, inputs.drop_first())
    }
}

/// The number of steps whose action is of the given kind.
pub open spec fn count(steps: Seq<StepView>, kind: ActionKind) -> nat
    decreases steps.len(),
{
    if steps.len() == 0 {
        0
    } else {
        count(steps.drop_first(), kind) + if steps[0].action.kind() == kind {
            1nat
        } else {
            0nat
        }
    }
}

/// Whether the event brings what the local work of the stage was to yield:
/// the content of the file, or the output of the command.
pub open spec fn work_done(stage: Stage, event: Event) -> bool {
    match stage {
        Stage::ReadingFile => event matches Event::FileLoaded(Some(_)),
        Stage::Executing => event matches Event::Executed(Some(_)),
        _ => true,
    }
}

/// Whether, in the cycle from `s` on the inputs, every file could be read
/// and every command could be launched.
pub open spec fn all_work_done(s: AgentView, inputs: Seq<(Event, u64)>) -> bool
    decreases inputs.len(),
{
    if inputs.len() == 0 || s.stage == Stage::Sleeping {
        true
    } else {
        work_done(s.stage, inputs[0].0) && all_work_done(
            next(s, inputs[0].0, inputs[0].1).0,
            inputs.drop_first(),
        )
    }
}

/// The number of actions of the given kind that a cycle still owes in the
/// state `s`, once the tasks are known. For the two kinds of submissions
/// this is the number owed where all local work succeeds.
spec fn due(s: AgentView, kind: ActionKind) -> int {
    let uploads = s.uploads.len() as int;
    let commands = s.commands.len() as int;
    let cursor = s.cursor as int;
    match (kind, s.stage) {
        (ActionKind::ReadFile, Stage::ReadingFile) => uploads - cursor - 1,
        (ActionKind::ReadFile, Stage::Uploading) => uploads - cursor - 1,
        (ActionKind::Upload, Stage::ReadingFile) => uploads - cursor,
        (ActionKind::Upload, Stage::Uploading) => uploads - cursor - 1,
        (ActionKind::Execute, Stage::ReadingFile) => commands,
        (ActionKind::Execute, Stage::Uploading) => commands,
        (ActionKind::Execute, Stage::Executing) => commands - cursor - 1,
        (ActionKind::Execute, Stage::Reporting) => commands - cursor - 1,
        (ActionKind::Report, Stage::ReadingFile) => commands,
        (ActionKind::Report, Stage::Uploading) => commands,
        (ActionKind::Report, Stage::Executing) => commands - cursor,
        (ActionKind::Report, Stage::Reporting) => commands - cursor - 1,
        _ => 0,
    }
}

/// Whether the kind is one that belongs to a task.
spec fn task_kind(kind: ActionKind) -> bool {
    kind == ActionKind::ReadFile || kind == ActionKind::Upload || kind == ActionKind::Execute
        || kind == ActionKind::Report
}

/// The largest number of steps that a cycle can still take in the state `s`,
/// once the tasks are known.
spec fn steps_left(s: AgentView) -> int {
    let uploads = s.uploads.len() as int;
    let commands = s.commands.len() as int;
    let cursor = s.cursor as int;
    match s.stage {
        Stage::ReadingFile => 2 * (uploads - cursor) + 2 * commands,
        Stage::Uploading => 2 * (uploads - cursor) - 1 + 2 * commands,
        Stage::Executing => 2 * (commands - cursor),
        Stage::Reporting => 2 * (commands - cursor) - 1,
        _ => 0,
    }
}

proof fn lemma_count_first(step: StepView, steps: Seq<StepView>, kind: ActionKind)
    ensures
        count(seq![step] + steps, kind) == count(steps, kind) + if step.action.kind() == kind {
            1nat
        } else {
            0nat
        },
{
    let all = seq![step] + steps;
    assert(all.drop_first() =~= steps);
    assert(all[0] == step);
}

/// Every state that the agent reaches is well formed: the state of a new
/// agent is, and a step keeps it so.
pub proof fn steps_keep_well_formed(s: AgentView, event: Event, pause: u64)
    requires
        s.well_formed(),
    ensures
        next(s, event, pause).0.well_formed(),
{
}

/// One step of the dispatch: it leads to another task or to sleep, takes the
/// cycle nearer to its end, and pays one of what is due where its action is
/// of the kind.
proof fn lemma_dispatch_step(s: AgentView, event: Event, pause: u64, kind: ActionKind)
    requires
        s.well_formed(),
        s.stage.phase() == Phase::Dispatching,
        task_kind(kind),
        kind == ActionKind::Upload || kind == ActionKind::Report ==> work_done(s.stage, event),
    ensures
        ({
            let (t, step) = next(s, event, pause);
            &&& t.well_formed()
            &&& t.stage.phase() != Phase::Polling
            &&& t.uploads == s.uploads
            &&& t.commands == s.commands
            &&& steps_left(t) < steps_left(s)
            &&& steps_left(t) >= 0
            &&& due(t, kind) >= 0
            &&& due(s, kind) == due(t, kind) + if step.action.kind() == kind {
                1int
            } else {
                0int
            }
        }),
{
}

proof fn lemma_dispatch_count(s: AgentView, inputs: Seq<(Event, u64)>, kind: ActionKind)
    requires
        s.well_formed(),
        s.stage.phase() != Phase::Polling,
        task_kind(kind),
        kind == ActionKind::Upload || kind == ActionKind::Report ==> all_work_done(s, inputs),
    ensures
        count(cycle(s, inputs), kind) + due(cycle_end(s, inputs), kind) == due(s, kind),
    decreases inputs.len(),
{
    if inputs.len() == 0 || s.stage == Stage::Sleeping {
    } else {
        let (t, step) = next(s, inputs[0].0, inputs[0].1);
        lemma_dispatch_step(s, inputs[0].0, inputs[0].1, kind);
        lemma_dispatch_count(t, inputs.drop_first(), kind);
        lemma_count_first(step, cycle(t, inputs.drop_first()), kind);
    }
}

proof fn lemma_dispatch_ends(s: AgentView, inputs: Seq<(Event, u64)>)
    requires
        s.well_formed(),
        s.stage.phase() != Phase::Polling,
        inputs.len() >= steps_left(s),
    ensures
        cycle_end(s, inputs).stage == Stage::Sleeping,
    decreases inputs.len(),
{
    if inputs.len() == 0 || s.stage == Stage::Sleeping {
    } else {
        let (t, step) = next(s, inputs[0].0, inputs[0].1);
        lemma_dispatch_step(s, inputs[0].0, inputs[0].1, ActionKind::ReadFile);
        lemma_dispatch_ends(t, inputs.drop_first());
    }
}

/// Every task of a poll response is taken up, whatever becomes of the
/// others: in a cycle that is run to its end, the agent asks for as many
/// files as the response holds uploads and runs as many commands as it holds
/// commands. No event of the cycle, be it an unreadable file, a command that
/// cannot be launched, a rejection or a missing answer, changes these
/// numbers.
pub proof fn every_task_is_taken_up(s: AgentView, inputs: Seq<(Event, u64)>, tasks: PollResponse)
    requires
        s.stage == Stage::Polling,
        inputs.len() > 0,
        poll_result(inputs[0].0.reply()) == Ok::<PollResponse, AgentErrorView>(tasks),
        cycle_end(s, inputs).stage == Stage::Sleeping,
    ensures
        count(cycle(s, inputs), ActionKind::ReadFile) == tasks.pending_uploads@.len(),
        count(cycle(s, inputs), ActionKind::Execute) == tasks.pending_commands@.len(),
{
    let (t, step) = next(s, inputs[0].0, inputs[0].1);
    let rest = inputs.drop_first();
    lemma_dispatch_count(t, rest, ActionKind::ReadFile);
    lemma_dispatch_count(t, rest, ActionKind::Execute);
    lemma_count_first(step, cycle(t, rest), ActionKind::ReadFile);
    lemma_count_first(step, cycle(t, rest), ActionKind::Execute);
}

/// Every result is submitted, whatever the server answers: in a cycle that
/// is run to its end, and in which every file could be read and every
/// command could be launched, the agent sends as many uploads as the poll
/// response holds uploads and as many command results as it holds commands.
/// A rejection or a missing answer changes neither number.
pub proof fn every_result_is_submitted(
    s: AgentView,
    inputs: Seq<(Event, u64)>,
    tasks: PollResponse,
)
    requires
        s.stage == Stage::Polling,
        inputs.len() > 0,
        poll_result(inputs[0].0.reply()) == Ok::<PollResponse, AgentErrorView>(tasks),
        cycle_end(s, inputs).stage == Stage::Sleeping,
        all_work_done(s, inputs),
    ensures
        count(cycle(s, inputs), ActionKind::Upload) == tasks.pending_uploads@.len(),
        count(cycle(s, inputs), ActionKind::Report) == tasks.pending_commands@.len(),
{
    let (t, step) = next(s, inputs[0].0, inputs[0].1);
    let rest = inputs.drop_first();
    lemma_dispatch_count(t, rest, ActionKind::Upload);
    lemma_dispatch_count(t, rest, ActionKind::Report);
    lemma_count_first(step, cycle(t, rest), ActionKind::Upload);
    lemma_count_first(step, cycle(t, rest), ActionKind::Report);
}

/// A cycle ends: after a poll response with `n` uploads and `m` commands the
/// agent is asleep again within `1 + 2 * (n + m)` steps, whatever the events.
pub proof fn every_cycle_ends(s: AgentView, inputs: Seq<(Event, u64)>, tasks: PollResponse)
    requires
        s.stage == Stage::Polling,
        inputs.len() > 0,
        poll_result(inputs[0].0.reply()) == Ok::<PollResponse, AgentErrorView>(tasks),
        inputs.len() >= 1 + 2 * (tasks.pending_uploads@.len() + tasks.pending_commands@.len()),
    ensures
        cycle_end(s, inputs).stage == Stage::Sleeping,
{
    let (t, step) = next(s, inputs[0].0, inputs[0].1);
    lemma_dispatch_ends(t, inputs.drop_first());
}

/// What the server answers to an upload has no part in what the agent does
/// next: after any answer, and after none, it is in the same state and asks
/// for the same action. Where another upload is left it asks for that one's
/// file.
pub proof fn upload_answer_changes_nothing(s: AgentView, first: Event, second: Event, pause: u64)
    requires
        s.stage == Stage::Uploading,
    ensures
        next(s, first, pause).0 == next(s, second, pause).0,
        next(s, first, pause).1.action == next(s, second, pause).1.action,
        s.cursor + 1 < s.uploads.len() ==> next(s, first, pause).1.action
            == ActionView::ReadFile(s.uploads[s.cursor as int + 1].src_file@),
{
}

/// What the server answers to a command result has no part in what the agent
/// does next. Where another command is left it runs that one.
pub proof fn report_answer_changes_nothing(s: AgentView, first: Event, second: Event, pause: u64)
    requires
        s.stage == Stage::Reporting,
    ensures
        next(s, first, pause).0 == next(s, second, pause).0,
        next(s, first, pause).1.action == next(s, second, pause).1.action,
        s.cursor + 1 < s.commands.len() ==> next(s, first, pause).1.action
            == ActionView::Execute(s.commands[s.cursor as int + 1].query@),
{
}

/// Whether the event brings a persisted credential.
pub open spec fn credential_present(event: Event) -> bool {
    event matches Event::CredentialLoaded(Some(_))
}

proof fn lemma_count_of_prefix(steps: Seq<StepView>, k: int, kind: ActionKind)
    requires
        0 <= k <= steps.len(),
    ensures
        count(steps.take(k), kind) <= count(steps, kind),
        k > 0 && steps[0].action.kind() == kind ==> count(steps.take(k), kind) >= 1,
    decreases k,
{
    if k > 0 {
        lemma_count_of_prefix(steps.drop_first(), k - 1, kind);
        assert(steps.take(k).drop_first() =~= steps.drop_first().take(k - 1));
        assert(steps.take(k)[0] == steps[0]);
    }
}

proof fn lemma_no_registration_later(s: AgentView, inputs: Seq<(Event, u64)>)
    requires
        s.stage != Stage::LoadingCredential,
    ensures
        count(cycle(s, inputs), ActionKind::Register) == 0,
    decreases inputs.len(),
{
    if inputs.len() == 0 || s.stage == Stage::Sleeping {
    } else {
        let (t, step) = next(s, inputs[0].0, inputs[0].1);
        lemma_no_registration_later(t, inputs.drop_first());
        lemma_count_first(step, cycle(t, inputs.drop_first()), ActionKind::Register);
    }
}

/// A cycle registers only where no credential is persisted, and then once,
/// before it polls. From the state in which the agent waits for the
/// persisted credential: where one is there, the first request is the poll
/// and the cycle holds no registration; where none is there, the first
/// request is the registration, the cycle holds no other, and so exactly one
/// has been sent before any poll.
pub proof fn registration_only_without_credential(s: AgentView, inputs: Seq<(Event, u64)>)
    requires
        s.stage == Stage::LoadingCredential,
        inputs.len() > 0,
    ensures
        cycle(s, inputs).len() > 0,
        cycle(s, inputs)[0].action.kind() == if credential_present(inputs[0].0) {
            ActionKind::Poll
        } else {
            ActionKind::Register
        },
        count(cycle(s, inputs), ActionKind::Register) == if credential_present(inputs[0].0) {
            0nat
        } else {
            1nat
        },
        forall|k: int|
            0 <= k < cycle(s, inputs).len() && (#[trigger] cycle(s, inputs)[k]).action.kind()
                == ActionKind::Poll ==> count(cycle(s, inputs).take(k), ActionKind::Register)
                == if credential_present(inputs[0].0) {
                0nat
            } else {
                1nat
            },
{
    let (t, step) = next(s, inputs[0].0, inputs[0].1);
    let steps = cycle(s, inputs);
    lemma_no_registration_later(t, inputs.drop_first());
    lemma_count_first(step, cycle(t, inputs.drop_first()), ActionKind::Register);
    assert(steps[0] == step);
    assert forall|k: int|
        0 <= k < steps.len() && (#[trigger] steps[k]).action.kind()
            == ActionKind::Poll implies count(steps.take(k), ActionKind::Register)
        == if credential_present(inputs[0].0) {
        0nat
    } else {
        1nat
    } by {
        lemma_count_of_prefix(steps, k, ActionKind::Register);
    }
}

/// Every request carries the pre-shared key, and every request but the
/// registration carries the credential of the cycle.
pub proof fn every_request_is_authenticated(s: AgentView, event: Event, pause: u64)
    ensures
        next(s, event, pause).1.action matches ActionView::Send(request) ==> {
            &&& request.server_key == s.config.server_key
            &&& request.bearer == if request.payload is Registration {
                None
            } else {
                Some(next(s, event, pause).0.token)
            }
        },
{
}

/// The paths of the uploads, in their order.
pub open spec fn paths(uploads: Seq<Upload>) -> Seq<Seq<char>> {
    Seq::new(uploads.len(), |i: int| uploads[i].src_file@)
}

/// The command lines of the commands, in their order.
pub open spec fn queries(commands: Seq<Command>) -> Seq<Seq<char>> {
    Seq::new(commands.len(), |i: int| commands[i].query@)
}

/// The path that the step asks to be read, if it asks for one.
pub open spec fn file_read(step: StepView) -> Seq<Seq<char>> {
    match step.action {
        ActionView::ReadFile(path) => seq![path],
        _ => Seq::empty(),
    }
}

/// The command line that the step asks to be run, if it asks for one.
pub open spec fn command_run(step: StepView) -> Seq<Seq<char>> {
    match step.action {
        ActionView::Execute(query) => seq![query],
        _ => Seq::empty(),
    }
}

/// The paths that the steps ask to be read, in the order of the steps.
pub open spec fn files_read(steps: Seq<StepView>) -> Seq<Seq<char>>
    decreases steps.len(),
{
    if steps.len() == 0 {
        Seq::empty()
    } else {
        file_read(steps[0]) + files_read(steps.drop_first())
    }
}

/// The command lines that the steps ask to be run, in the order of the
/// steps.
pub open spec fn commands_run(steps: Seq<StepView>) -> Seq<Seq<char>>
    decreases steps.len(),
{
    if steps.len() == 0 {
        Seq::empty()
    } else {
        command_run(steps[0]) + commands_run(steps.drop_first())
    }
}

spec fn files_due(s: AgentView) -> Seq<Seq<char>> {
    match s.stage {
        Stage::ReadingFile | Stage::Uploading => paths(s.uploads).skip(s.cursor as int + 1),
        _ => Seq::empty(),
    }
}

spec fn commands_due(s: AgentView) -> Seq<Seq<char>> {
    match s.stage {
        Stage::ReadingFile | Stage::Uploading => queries(s.commands),
        Stage::Executing | Stage::Reporting => queries(s.commands).skip(s.cursor as int + 1),
        _ => Seq::empty(),
    }
}

proof fn lemma_order_step(s: AgentView, event: Event, pause: u64)
    requires
        s.well_formed(),
        s.stage.phase() == Phase::Dispatching,
    ensures
        ({
            let (t, step) = next(s, event, pause);
            &&& files_due(s) == file_read(step) + files_due(t)
            &&& commands_due(s) == command_run(step) + commands_due(t)
        }),
{
    let (t, step) = next(s, event, pause);
    assert(files_due(s) =~= file_read(step) + files_due(t));
    assert(commands_due(s) =~= command_run(step) + commands_due(t));
}

proof fn lemma_order(s: AgentView, inputs: Seq<(Event, u64)>)
    requires
        s.well_formed(),
        s.stage.phase() != Phase::Polling,
    ensures
        files_read(cycle(s, inputs)) + files_due(cycle_end(s, inputs)) == files_due(s),
        commands_run(cycle(s, inputs)) + commands_due(cycle_end(s, inputs)) == commands_due(s),
    decreases inputs.len(),
{
    if inputs.len() == 0 || s.stage == Stage::Sleeping {
        assert(files_read(cycle(s, inputs)) + files_due(s) =~= files_due(s));
        assert(commands_run(cycle(s, inputs)) + commands_due(s) =~= commands_due(s));
    } else {
        let (t, step) = next(s, inputs[0].0, inputs[0].1);
        let rest = inputs.drop_first();
        let end = cycle_end(s, inputs);
        lemma_dispatch_step(s, inputs[0].0, inputs[0].1, ActionKind::ReadFile);
        lemma_order_step(s, inputs[0].0, inputs[0].1);
        lemma_order(t, rest);
        let steps = seq![step] + cycle(t, rest);
        assert(steps.drop_first() =~= cycle(t, rest));
        assert(files_read(steps) + files_due(end) =~= file_read(step) + (files_read(cycle(t, rest))
            + files_due(end)));
        assert(commands_run(steps) + commands_due(end) =~= command_run(step) + (commands_run(
            cycle(t, rest),
        ) + commands_due(end)));
    }
}

/// The tasks of a poll response are taken up in its order, each once: in a
/// cycle that is run to its end, the files that the agent asks for are those
/// of the uploads, one after the other, and the commands that it runs are
/// those of the commands, one after the other, whatever the events.
pub proof fn tasks_are_taken_up_in_order(
    s: AgentView,
    inputs: Seq<(Event, u64)>,
    tasks: PollResponse,
)
    requires
        s.stage == Stage::Polling,
        inputs.len() > 0,
        poll_result(inputs[0].0.reply()) == Ok::<PollResponse, AgentErrorView>(tasks),
        cycle_end(s, inputs).stage == Stage::Sleeping,
    ensures
        files_read(cycle(s, inputs)) == paths(tasks.pending_uploads@),
        commands_run(cycle(s, inputs)) == queries(tasks.pending_commands@),
{
    let (t, step) = next(s, inputs[0].0, inputs[0].1);
    let rest = inputs.drop_first();
    let end = cycle_end(s, inputs);
    lemma_order(t, rest);
    let steps = seq![step] + cycle(t, rest);
    assert(steps.drop_first() =~= cycle(t, rest));
    assert(files_read(cycle(t, rest)) =~= files_read(cycle(t, rest)) + files_due(end));
    assert(commands_run(cycle(t, rest)) =~= commands_run(cycle(t, rest)) + commands_due(end));
    assert(files_read(steps) =~= paths(tasks.pending_uploads@));
    assert(commands_run(steps) =~= queries(tasks.pending_commands@));
}

} // verus!
