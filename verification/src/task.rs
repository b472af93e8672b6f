//! The work items that the server assigns to an agent.
//!
//! The server owns every task. The agent sees a task in a poll response and
//! moves it on only by submitting a result; it keeps no task state between
//! cycles.

use vstd::prelude::*;

verus! {

/// A twelve-byte object identifier. The agent uses it as a correlation key
/// and reads no order or priority from it.
#[derive(Clone, Copy, Debug, PartialEq, Eq, Hash)]
pub struct ObjectId {
    pub bytes: [u8; 12],
}

impl ObjectId {
    /// The identifier with the given raw bytes.
    pub fn from_bytes(bytes: [u8; 12]) -> (id: ObjectId)
        ensures
            id.bytes == bytes,
    {
        ObjectId { bytes }
    }

    /// The raw bytes of the identifier.
    pub fn bytes(&self) -> (bytes: [u8; 12])
        ensures
            bytes == self.bytes,
    {
        self.bytes
    }
}

/// A point in time, in milliseconds since the Unix epoch.
#[derive(Clone, Copy, Debug, PartialEq, Eq, Hash)]
pub struct DateTime {
    pub millis: i64,
}

impl DateTime {
    /// The time that lies `millis` milliseconds after the Unix epoch.
    pub fn from_millis(millis: i64) -> (t: DateTime)
        ensures
            t.millis == millis,
    {
        DateTime { millis }
    }

    /// Milliseconds since the Unix epoch.
    pub fn timestamp_millis(&self) -> (millis: i64)
        ensures
            millis == self.millis,
    {
        self.millis
    }
}

/// Where a file transfer stands.
#[derive(Clone, Copy, Debug, PartialEq, Eq, Hash)]
pub enum Status {
    Pending,
    Uploaded,
    Cancelled,
    Uploading,
}

/// Where a shell invocation stands.
#[derive(Clone, Copy, Debug, PartialEq, Eq, Hash)]
pub enum CommandStatus {
    Pending,
    Completed,
    Error,
    Canceled,
}

/// A file that the agent is asked to read locally and send to the server.
#[derive(Clone, Debug, PartialEq, Eq)]
pub struct Upload {
    pub id: ObjectId,
    pub client: ObjectId,
    pub assigned_by: ObjectId,
    /// Local path of the file to send.
    pub src_file: String,
    /// Name under which the server keeps the file, once it has one.
    pub download_file: Option<String>,
    pub status: Status,
    pub registered_at: DateTime,
    pub uploaded_at: Option<DateTime>,
}

/// A command line that the agent is asked to run.
#[derive(Clone, Debug, PartialEq, Eq)]
pub struct Command {
    pub id: ObjectId,
    pub client: ObjectId,
    pub assigned_by: ObjectId,
    /// The command line, run as one shell command.
    pub query: String,
    pub result: Option<String>,
    pub status: CommandStatus,
    pub registered_at: DateTime,
    pub resulted_at: Option<DateTime>,
}

/// What one poll returns: the uploads and the commands that are pending for
/// this agent, each list in the server's order. Either may be empty.
#[derive(Clone, Debug, PartialEq, Eq)]
pub struct PollResponse {
    pub pending_uploads: Vec<Upload>,
    pub pending_commands: Vec<Command>,
}

} // verus!
