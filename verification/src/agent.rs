//! The control loop, as a state machine.
//!
//! One cycle obtains the credential, polls, works through the uploads and
//! then the commands of the answer, and pauses. The agent does none of the
//! outside work itself. Each step names one [`Action`]; the caller performs
//! it and hands the outcome back as an [`Event`], on which the agent decides
//! the next action:
//!
//! | action | event that answers it |
//! |---|---|
//! | [`Action::Sleep`] | [`Event::Wake`] |
//! | [`Action::LoadCredential`] | [`Event::CredentialLoaded`] |
//! | [`Action::StoreCredential`] | [`Event::CredentialStored`] |
//! | [`Action::Send`] | [`Event::Replied`] |
//! | [`Action::ReadFile`] | [`Event::FileLoaded`] |
//! | [`Action::Execute`] | [`Event::Executed`] |
//!
//! An event that does not answer the action that is awaited counts as that
//! action having failed. No failure stops the agent: a failure before the
//! tasks are known ends the cycle, a failure of one task ends that task, and
//! the next one is taken up.

use crate::config::{Config, ConfigView};
use crate::error::{AgentError, AgentErrorView};
use crate::executor::{reported_text, result_text, ExecOutput};
use crate::pacing::{sleep_seconds, MAX_SLEEP_SECS, MIN_SLEEP_SECS};
use crate::task::{Command, Upload};
use crate::transport::{
    command_result_failure, command_result_outcome, command_result_request, execute_command,
    ping, poll_outcome, poll_request, poll_result, register, register_request,
    registration_outcome, registration_result, upload_failure, upload_file, upload_outcome,
    upload_request, Payload, PayloadView, Reply, Request, RequestView,
};
use vstd::prelude::*;

verus! {

/// The three phases of a cycle.
#[derive(Clone, Copy, Debug, PartialEq, Eq)]
pub enum Phase {
    Polling,
    Dispatching,
    Sleeping,
}

/// What the agent is waiting for.
#[derive(Clone, Copy, Debug, PartialEq, Eq)]
pub enum Stage {
    /// Between two cycles: waiting to be woken.
    Sleeping,
    /// Waiting for the persisted credential.
    LoadingCredential,
    /// Waiting for the answer to the registration.
    Registering,
    /// Waiting for the fresh credential to be persisted.
    StoringCredential,
    /// Waiting for the answer to the poll.
    Polling,
    /// Waiting for the content of the file of the current upload.
    ReadingFile,
    /// Waiting for the answer to the current upload.
    Uploading,
    /// Waiting for the current command to run.
    Executing,
    /// Waiting for the answer to the result of the current command.
    Reporting,
}

impl Stage {
    /// The phase that the stage belongs to.
    pub open spec fn phase(self) -> Phase {
        match self {
            Stage::Sleeping => Phase::Sleeping,
            Stage::LoadingCredential
            | Stage::Registering
            | Stage::StoringCredential
            | Stage::Polling => Phase::Polling,
            Stage::ReadingFile
            | Stage::Uploading
            | Stage::Executing
            | Stage::Reporting => Phase::Dispatching,
        }
    }
}

/// The outcome of the action that the agent asked for.
#[derive(Clone, Debug, PartialEq, Eq)]
pub enum Event {
    /// The pause is over, or the agent has just been started.
    Wake,
    /// The persisted credential, or `None` where there is none to be read.
    CredentialLoaded(Option<String>),
    /// Whether the credential was persisted.
    CredentialStored(bool),
    /// How the exchange ended.
    Replied(Reply),
    /// The content of the file, or `None` where it could not be read.
    FileLoaded(Option<Vec<u8>>),
    /// What the command left, or `None` where it could not be launched.
    Executed(Option<ExecOutput>),
}

impl Event {
    /// The reply that the event brings. An event of another kind brings
    /// none, which is how an exchange without an answer ends.
    pub open spec fn reply(self) -> Reply {
        match self {
            Event::Replied(reply) => reply,
            _ => Reply::NoAnswer,
        }
    }

    /// The reply that the event brings.
    pub fn into_reply(self) -> (reply: Reply)
        ensures
            reply == self.reply(),
    {
        match self {
            Event::Replied(reply) => reply,
            _ => Reply::NoAnswer,
        }
    }
}

/// What the caller is to do next.
#[derive(Clone, Debug, PartialEq, Eq)]
pub enum Action {
    /// Read the persisted credential.
    LoadCredential,
    /// Persist this credential.
    StoreCredential(String),
    /// Send this request and wait for the answer.
    Send(Request),
    /// Read the file at this path.
    ReadFile(String),
    /// Run this command line as one shell command and wait for it.
    Execute(String),
    /// Pause for this many seconds.
    Sleep(u64),
}

/// An [`Action`] with its texts as sequences.
pub enum ActionView {
    LoadCredential,
    StoreCredential(Seq<char>),
    Send(RequestView),
    ReadFile(Seq<char>),
    Execute(Seq<char>),
    Sleep(u64),
}

impl View for Action {
    type V = ActionView;

    open spec fn view(&self) -> ActionView {
        match *self {
            Action::LoadCredential => ActionView::LoadCredential,
            Action::StoreCredential(token) => ActionView::StoreCredential(token@),
            Action::Send(request) => ActionView::Send(request@),
            Action::ReadFile(path) => ActionView::ReadFile(path@),
            Action::Execute(query) => ActionView::Execute(query@),
            Action::Sleep(seconds) => ActionView::Sleep(seconds),
        }
    }
}

/// What an action is for.
#[derive(Clone, Copy, Debug, PartialEq, Eq)]
pub enum ActionKind {
    LoadCredential,
    StoreCredential,
    /// Sending the registration.
    Register,
    /// Sending the poll.
    Poll,
    /// Sending the content of a file.
    Upload,
    /// Sending the result of a command.
    Report,
    ReadFile,
    Execute,
    Sleep,
}

impl ActionView {
    /// What the action is for. A request is told by its body.
    pub open spec fn kind(self) -> ActionKind {
        match self {
            ActionView::LoadCredential => ActionKind::LoadCredential,
            ActionView::StoreCredential(_) => ActionKind::StoreCredential,
            ActionView::Send(request) => match request.payload {
                PayloadView::Registration { .. } => ActionKind::Register,
                PayloadView::Empty => ActionKind::Poll,
                PayloadView::File { .. } => ActionKind::Upload,
                PayloadView::CommandResult { .. } => ActionKind::Report,
            },
            ActionView::ReadFile(_) => ActionKind::ReadFile,
            ActionView::Execute(_) => ActionKind::Execute,
            ActionView::Sleep(_) => ActionKind::Sleep,
        }
    }
}

impl Action {
    /// What the action is for.
    pub fn kind(&self) -> (kind: ActionKind)
        ensures
            kind == self@.kind(),
    {
        match self {
            Action::LoadCredential => ActionKind::LoadCredential,
            Action::StoreCredential(_) => ActionKind::StoreCredential,
            Action::Send(request) => match request.payload {
                Payload::Registration { .. } => ActionKind::Register,
                Payload::Empty => ActionKind::Poll,
                Payload::File { .. } => ActionKind::Upload,
                Payload::CommandResult { .. } => ActionKind::Report,
            },
            Action::ReadFile(_) => ActionKind::ReadFile,
            Action::Execute(_) => ActionKind::Execute,
            Action::Sleep(_) => ActionKind::Sleep,
        }
    }
}

/// What one step of the agent yields.
#[derive(Clone, Debug, PartialEq, Eq)]
pub struct Step {
    /// Why the action that the event answers failed, if it did. It is for
    /// the caller's diagnostics; the agent has already acted on it.
    pub failure: Option<AgentError>,
    pub action: Action,
}

/// A [`Step`] with its texts as sequences.
pub struct StepView {
    pub failure: Option<AgentErrorView>,
    pub action: ActionView,
}

/// An optional error with its text as a sequence.
pub open spec fn failure_view(failure: Option<AgentError>) -> Option<AgentErrorView> {
    match failure {
        Some(error) => Some(error@),
        None => None,
    }
}

impl View for Step {
    type V = StepView;

    open spec fn view(&self) -> StepView {
        StepView { failure: failure_view(self.failure), action: self.action@ }
    }
}

/// The agent.
pub struct Agent {
    config: Config,
    stage: Stage,
    token: String,
    uploads: Vec<Upload>,
    commands: Vec<Command>,
    cursor: usize,
}

/// The state of an agent.
pub struct AgentView {
    pub config: ConfigView,
    pub stage: Stage,
    /// The credential of the current cycle.
    pub token: Seq<char>,
    /// The uploads of the current cycle, in the order of the poll response.
    pub uploads: Seq<Upload>,
    /// The commands of the current cycle, in the order of the poll response.
    pub commands: Seq<Command>,
    /// Index of the current task in its list, while one is worked on.
    pub cursor: nat,
}

impl AgentView {
    /// While a task is worked on, the cursor points at it.
    pub open spec fn well_formed(self) -> bool {
        match self.stage {
            Stage::ReadingFile | Stage::Uploading => self.cursor < self.uploads.len(),
            Stage::Executing | Stage::Reporting => self.cursor < self.commands.len(),
            _ => true,
        }
    }
}

impl View for Agent {
    type V = AgentView;

    closed spec fn view(&self) -> AgentView {
        AgentView {
            config: self.config@,
            stage: self.stage,
            token: self.token@,
            uploads: self.uploads@,
            commands: self.commands@,
            cursor: self.cursor as nat,
        }
    }
}

/// The state of an agent that has just been made: between cycles, with no
/// credential and no task.
pub open spec fn initial(config: ConfigView) -> AgentView {
    AgentView {
        config,
        stage: Stage::Sleeping,
        token: Seq::empty(),
        uploads: Seq::empty(),
        commands: Seq::empty(),
        cursor: 0,
    }
}

/// Ends the cycle.
pub open spec fn rest(s: AgentView, failure: Option<AgentErrorView>, pause: u64) -> (
    AgentView,
    StepView,
) {
    (AgentView { stage: Stage::Sleeping, ..s }, StepView { failure, action: ActionView::Sleep(pause) })
}

/// Takes up the command at `index`, or ends the cycle where there is none.
pub open spec fn begin_command(
    s: AgentView,
    index: nat,
    failure: Option<AgentErrorView>,
    pause: u64,
) -> (AgentView, StepView) {
    if index < s.commands.len() {
        (
            AgentView { stage: Stage::Executing, cursor: index, ..s },
            StepView { failure, action: ActionView::Execute(s.commands[index as int].query@) },
        )
    } else {
        rest(s, failure, pause)
    }
}

/// Takes up the upload at `index`, or the first command where there is none.
pub open spec fn begin_upload(
    s: AgentView,
    index: nat,
    failure: Option<AgentErrorView>,
    pause: u64,
) -> (AgentView, StepView) {
    if index < s.uploads.len() {
        (
            AgentView { stage: Stage::ReadingFile, cursor: index, ..s },
            StepView { failure, action: ActionView::ReadFile(s.uploads[index as int].src_file@) },
        )
    } else {
        begin_command(s, 0, failure, pause)
    }
}

/// The transition of the agent: the state and the step that follow from the
/// state `s` on `event`. `pause` is the length of the pause, should the step
/// end the cycle.
pub open spec fn next(s: AgentView, event: Event, pause: u64) -> (AgentView, StepView) {
    match s.stage {
        Stage::Sleeping => match event {
            Event::Wake => (
                AgentView { stage: Stage::LoadingCredential, ..initial(s.config) },
                StepView { failure: None, action: ActionView::LoadCredential },
            ),
            _ => rest(s, None, pause),
        },
        Stage::LoadingCredential => match event {
            Event::CredentialLoaded(Some(token)) => (
                AgentView { stage: Stage::Polling, token: token@, ..s },
                StepView {
                    failure: None,
                    action: ActionView::Send(poll_request(s.config, token@)),
                },
            ),
            _ => (
                AgentView { stage: Stage::Registering, ..s },
                StepView { failure: None, action: ActionView::Send(register_request(s.config)) },
            ),
        },
        Stage::Registering => match registration_result(event.reply()) {
            Ok(token) => (
                AgentView { stage: Stage::StoringCredential, token, ..s },
                StepView { failure: None, action: ActionView::StoreCredential(token) },
            ),
            Err(error) => rest(s, Some(error), pause),
        },
        Stage::StoringCredential => match event {
            Event::CredentialStored(true) => (
                AgentView { stage: Stage::Polling, ..s },
                StepView {
                    failure: None,
                    action: ActionView::Send(poll_request(s.config, s.token)),
                },
            ),
            _ => rest(s, Some(AgentErrorView::Storage), pause),
        },
        Stage::Polling => match poll_result(event.reply()) {
            Ok(tasks) => begin_upload(
                AgentView { uploads: tasks.pending_uploads@, commands: tasks.pending_commands@, ..s },
                0,
                None,
                pause,
            ),
            Err(error) => rest(s, Some(error), pause),
        },
        Stage::ReadingFile => match event {
            Event::FileLoaded(Some(content)) if s.cursor < s.uploads.len() => (
                AgentView { stage: Stage::Uploading, ..s },
                StepView {
                    failure: None,
                    action: ActionView::Send(
                        upload_request(
                            s.config,
                            s.token,
                            s.uploads[s.cursor as int].id,
                            s.uploads[s.cursor as int].src_file@,
                            content@,
                        ),
                    ),
                },
            ),
            _ => begin_upload(s, s.cursor + 1, Some(AgentErrorView::SourceUnreadable), pause),
        },
        Stage::Uploading => begin_upload(s, s.cursor + 1, upload_failure(event.reply()), pause),
        Stage::Executing => match event {
            Event::Executed(Some(output)) if s.cursor < s.commands.len() => (
                AgentView { stage: Stage::Reporting, ..s },
                StepView {
                    failure: None,
                    action: ActionView::Send(
                        command_result_request(
                            s.config,
                            s.token,
                            s.commands[s.cursor as int].id,
                            reported_text(output),
                        ),
                    ),
                },
            ),
            _ => begin_command(s, s.cursor + 1, Some(AgentErrorView::Execution), pause),
        },
        Stage::Reporting => begin_command(
            s,
            s.cursor + 1,
            command_result_failure(event.reply()),
            pause,
        ),
    }
}

impl Agent {
    /// An agent for the server that `config` names. It is between cycles:
    /// [`Event::Wake`] starts the first one.
    pub fn new(config: Config) -> (agent: Agent)
        ensures
            agent@ == initial(config@),
    {
        Agent {
            config,
            stage: Stage::Sleeping,
            token: String::new(),
            uploads: Vec::new(),
            commands: Vec::new(),
            cursor: 0,
        }
    }

    /// What the agent is waiting for.
    pub fn stage(&self) -> (stage: Stage)
        ensures
            stage == self@.stage,
    {
        self.stage
    }

    /// The phase of the cycle that the agent is in.
    pub fn phase(&self) -> (phase: Phase)
        ensures
            phase == self@.stage.phase(),
    {
        match self.stage {
            Stage::Sleeping => Phase::Sleeping,
            Stage::LoadingCredential => Phase::Polling,
            Stage::Registering => Phase::Polling,
            Stage::StoringCredential => Phase::Polling,
            Stage::Polling => Phase::Polling,
            Stage::ReadingFile => Phase::Dispatching,
            Stage::Uploading => Phase::Dispatching,
            Stage::Executing => Phase::Dispatching,
            Stage::Reporting => Phase::Dispatching,
        }
    }

    fn rest(&mut self, failure: Option<AgentError>, pause: u64) -> (step: Step)
        ensures
            (final(self)@, step@) == rest(old(self)@, failure_view(failure), pause),
    {
        self.stage = Stage::Sleeping;
        Step { failure, action: Action::Sleep(pause) }
    }

    fn begin_command(&mut self, index: usize, failure: Option<AgentError>, pause: u64) -> (step:
        Step)
        ensures
            (final(self)@, step@) == begin_command(
                old(self)@,
                index as nat,
                failure_view(failure),
                pause,
            ),
    {
        if index < self.commands.len() {
            let query = self.commands[index].query.clone();
            self.stage = Stage::Executing;
            self.cursor = index;
            Step { failure, action: Action::Execute(query) }
        } else {
            self.rest(failure, pause)
        }
    }

    fn begin_upload(&mut self, index: usize, failure: Option<AgentError>, pause: u64) -> (step:
        Step)
        ensures
            (final(self)@, step@) == begin_upload(
                old(self)@,
                index as nat,
                failure_view(failure),
                pause,
            ),
    {
        if index < self.uploads.len() {
            let path = self.uploads[index].src_file.clone();
            self.stage = Stage::ReadingFile;
            self.cursor = index;
            Step { failure, action: Action::ReadFile(path) }
        } else {
            self.begin_command(0, failure, pause)
        }
    }

    /// Takes up the upload after the current one.
    fn following_upload(&mut self, failure: Option<AgentError>, pause: u64) -> (step: Step)
        ensures
            (final(self)@, step@) == begin_upload(
                old(self)@,
                old(self)@.cursor + 1,
                failure_view(failure),
                pause,
            ),
    {
        if self.cursor < self.uploads.len() {
            let index = self.cursor + 1;
            self.begin_upload(index, failure, pause)
        } else {
            self.begin_command(0, failure, pause)
        }
    }

    /// Takes up the command after the current one.
    fn following_command(&mut self, failure: Option<AgentError>, pause: u64) -> (step: Step)
        ensures
            (final(self)@, step@) == begin_command(
                old(self)@,
                old(self)@.cursor + 1,
                failure_view(failure),
                pause,
            ),
    {
        if self.cursor < self.commands.len() {
            let index = self.cursor + 1;
            self.begin_command(index, failure, pause)
        } else {
            self.rest(failure, pause)
        }
    }

    /// Takes one step: the agent moves on as [`next`] says and names the
    /// action that the caller is to perform. `pause` is the length of the
    /// pause, should this step end the cycle.
    pub fn advance(&mut self, event: Event, pause: u64) -> (step: Step)
        ensures
            (final(self)@, step@) == next(old(self)@, event, pause),
    {
        match self.stage {
            Stage::Sleeping => match event {
                Event::Wake => {
                    self.stage = Stage::LoadingCredential;
                    self.token = String::new();
                    self.uploads = Vec::new();
                    self.commands = Vec::new();
                    self.cursor = 0;
                    Step { failure: None, action: Action::LoadCredential }
                },
                _ => self.rest(None, pause),
            },
            Stage::LoadingCredential => match event {
                Event::CredentialLoaded(Some(token)) => {
                    let request = ping(&self.config, token.as_str());
                    self.stage = Stage::Polling;
                    self.token = token;
                    Step { failure: None, action: Action::Send(request) }
                },
                _ => {
                    let request = register(&self.config);
                    self.stage = Stage::Registering;
                    Step { failure: None, action: Action::Send(request) }
                },
            },
            Stage::Registering => match registration_outcome(event.into_reply()) {
                Ok(token) => {
                    let kept = token.clone();
                    self.stage = Stage::StoringCredential;
                    self.token = kept;
                    Step { failure: None, action: Action::StoreCredential(token) }
                },
                Err(error) => self.rest(Some(error), pause),
            },
            Stage::StoringCredential => match event {
                Event::CredentialStored(true) => {
                    let request = ping(&self.config, self.token.as_str());
                    self.stage = Stage::Polling;
                    Step { failure: None, action: Action::Send(request) }
                },
                _ => self.rest(Some(AgentError::Storage), pause),
            },
            Stage::Polling => match poll_outcome(event.into_reply()) {
                Ok(tasks) => {
                    self.uploads = tasks.pending_uploads;
                    self.commands = tasks.pending_commands;
                    self.begin_upload(0, None, pause)
                },
                Err(error) => self.rest(Some(error), pause),
            },
            Stage::ReadingFile => match event {
                Event::FileLoaded(Some(content)) if self.cursor < self.uploads.len() => {
                    let upload = &self.uploads[self.cursor];
                    let request = upload_file(
                        &self.config,
                        self.token.as_str(),
                        upload.id,
                        upload.src_file.as_str(),
                        content,
                    );
                    self.stage = Stage::Uploading;
                    Step { failure: None, action: Action::Send(request) }
                },
                _ => self.following_upload(Some(AgentError::SourceUnreadable), pause),
            },
            Stage::Uploading => {
                let failure = match upload_outcome(event.into_reply()) {
                    Ok(_) => None,
                    Err(error) => Some(error),
                };
                self.following_upload(failure, pause)
            },
            Stage::Executing => match event {
                Event::Executed(Some(output)) if self.cursor < self.commands.len() => {
                    let text = result_text(&output);
                    let request = execute_command(
                        &self.config,
                        self.token.as_str(),
                        self.commands[self.cursor].id,
                        text.as_str(),
                    );
                    self.stage = Stage::Reporting;
                    Step { failure: None, action: Action::Send(request) }
                },
                _ => self.following_command(Some(AgentError::Execution), pause),
            },
            Stage::Reporting => {
                let failure = match command_result_outcome(event.into_reply()) {
                    Ok(_) => None,
                    Err(error) => Some(error),
                };
                self.following_command(failure, pause)
            },
        }
    }

    /// Takes one step with a pause of a length drawn at random: the agent
    /// moves on as [`next`] says for some pause between
    /// [`MIN_SLEEP_SECS`] and [`MAX_SLEEP_SECS`] seconds.
    pub fn step(&mut self, event: Event) -> (step: Step)
        ensures
            step.action matches Action::Sleep(seconds) ==> MIN_SLEEP_SECS <= seconds
                <= MAX_SLEEP_SECS,
            exists|pause: u64|
                MIN_SLEEP_SECS <= pause <= MAX_SLEEP_SECS && (final(self)@, step@) == #[trigger] next(
                    old(self)@,
                    event,
                    pause,
                ),
    {
        let pause = sleep_seconds();
        self.advance(event, pause)
    }
}

} // verus!
