//! What can go wrong, and how severe it is.
//!
//! Only a configuration error stops the agent, and only at startup. Every
//! other error ends the operation that produced it: it is handed to the
//! caller for its diagnostics and the cycle goes on.

use vstd::prelude::*;

verus! {

/// A setting that the agent cannot run without.
#[derive(Clone, Copy, Debug, PartialEq, Eq)]
pub enum Setting {
    /// Base address of the coordinating server.
    ServerUrl,
    /// Pre-shared key, sent with every request.
    ServerKey,
}

/// The five classes of errors.
#[derive(Clone, Copy, Debug, PartialEq, Eq)]
pub enum ErrorClass {
    /// A required setting is missing.
    Config,
    /// A local file could not be read or written.
    Storage,
    /// The server could not be reached, or its answer could not be read.
    Transport,
    /// The server answered and declined the exchange.
    RemoteRejection,
    /// A command could not be launched at all.
    Execution,
}

/// An error of the agent. A rejection carries the text of the server's
/// answer, which is kept for diagnostics and never parsed.
#[derive(Clone, Debug, PartialEq, Eq)]
pub enum AgentError {
    ConfigMissing(Setting),
    /// The credential could not be persisted.
    Storage,
    /// The file of an upload task could not be read.
    SourceUnreadable,
    Transport,
    /// The command of a command task could not be launched. This is not a
    /// command that ran and failed: that one has an output to report.
    Execution,
    RegistrationRejected(String),
    PollRejected(String),
    UploadRejected(String),
    CommandReportRejected(String),
}

/// An [`AgentError`] with its text as a sequence of characters.
pub enum AgentErrorView {
    ConfigMissing(Setting),
    Storage,
    SourceUnreadable,
    Transport,
    Execution,
    RegistrationRejected(Seq<char>),
    PollRejected(Seq<char>),
    UploadRejected(Seq<char>),
    CommandReportRejected(Seq<char>),
}

impl View for AgentError {
    type V = AgentErrorView;

    open spec fn view(&self) -> AgentErrorView {
        match *self {
            AgentError::ConfigMissing(setting) => AgentErrorView::ConfigMissing(setting),
            AgentError::Storage => AgentErrorView::Storage,
            AgentError::SourceUnreadable => AgentErrorView::SourceUnreadable,
            AgentError::Transport => AgentErrorView::Transport,
            AgentError::Execution => AgentErrorView::Execution,
            AgentError::RegistrationRejected(text) => AgentErrorView::RegistrationRejected(text@),
            AgentError::PollRejected(text) => AgentErrorView::PollRejected(text@),
            AgentError::UploadRejected(text) => AgentErrorView::UploadRejected(text@),
            AgentError::CommandReportRejected(text) => AgentErrorView::CommandReportRejected(
                text@,
            ),
        }
    }
}

impl AgentErrorView {
    /// The class that the error belongs to.
    pub open spec fn class(self) -> ErrorClass {
        match self {
            AgentErrorView::ConfigMissing(_) => ErrorClass::Config,
            AgentErrorView::Storage | AgentErrorView::SourceUnreadable => ErrorClass::Storage,
            AgentErrorView::Transport => ErrorClass::Transport,
            AgentErrorView::Execution => ErrorClass::Execution,
            AgentErrorView::RegistrationRejected(_)
            | AgentErrorView::PollRejected(_)
            | AgentErrorView::UploadRejected(_)
            | AgentErrorView::CommandReportRejected(_) => ErrorClass::RemoteRejection,
        }
    }

    /// Whether the agent must stop on this error. Everything but a
    /// configuration error leaves it running.
    pub open spec fn fatal(self) -> bool {
        self.class() == ErrorClass::Config
    }
}

impl AgentError {
    /// The class that the error belongs to.
    pub fn class(&self) -> (class: ErrorClass)
        ensures
            class == self@.class(),
    {
        match self {
            AgentError::ConfigMissing(_) => ErrorClass::Config,
            AgentError::Storage => ErrorClass::Storage,
            AgentError::SourceUnreadable => ErrorClass::Storage,
            AgentError::Transport => ErrorClass::Transport,
            AgentError::Execution => ErrorClass::Execution,
            AgentError::RegistrationRejected(_) => ErrorClass::RemoteRejection,
            AgentError::PollRejected(_) => ErrorClass::RemoteRejection,
            AgentError::UploadRejected(_) => ErrorClass::RemoteRejection,
            AgentError::CommandReportRejected(_) => ErrorClass::RemoteRejection,
        }
    }

    /// Whether the agent must stop on this error.
    pub fn is_fatal(&self) -> (fatal: bool)
        ensures
            fatal == self@.fatal(),
    {
        match self {
            AgentError::ConfigMissing(_) => true,
            _ => false,
        }
    }
}

} // verus!
