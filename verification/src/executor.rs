//! What is reported for a command that has run.
//!
//! The caller runs the command line as one shell command, waits for it and
//! hands over what it captured. A command that ran and failed has an output
//! like any other; one that could not be launched has none, and nothing is
//! reported for it.

use vstd::prelude::*;
use vstd::utf8::{encode_utf8, valid_utf8};

verus! {

/// What was captured of a command that ran to its end.
#[derive(Clone, Debug, PartialEq, Eq)]
pub struct ExecOutput {
    /// Whether the process exited successfully.
    pub success: bool,
    pub stdout: Vec<u8>,
    pub stderr: Vec<u8>,
}

/// The text that `String::from_utf8_lossy` makes of the bytes.
pub uninterp spec fn lossy_text(bytes: Seq<u8>) -> Seq<char>;

/// The stream that is reported: standard output of a command that exited
/// successfully, standard error of any other. The other stream is dropped,
/// never put in its place or appended.
pub open spec fn reported_stream(output: ExecOutput) -> Seq<u8> {
    if output.success {
        output.stdout@
    } else {
        output.stderr@
    }
}

/// The text that is reported.
pub open spec fn reported_text(output: ExecOutput) -> Seq<char> {
    lossy_text(reported_stream(output))
}

/// Calls `String::from_utf8_lossy` and takes the result as a `String`. The
/// text depends on the bytes alone. Bytes that are valid UTF-8 are kept as
/// they are, so that the text encodes to them again; of other bytes the
/// contract says only that they are replaced as that function replaces them.
#[verifier::external_body]
fn utf8_lossy(bytes: &Vec<u8>) -> (text: String)
    ensures
        text@ == lossy_text(bytes@),
        valid_utf8(bytes@) ==> encode_utf8(text@) == bytes@,
{
    String::from_utf8_lossy(bytes).into_owned()
}

/// Picks the stream that is reported.
pub fn select_stream(output: &ExecOutput) -> (bytes: &Vec<u8>)
    ensures
        bytes@ == reported_stream(*output),
{
    if output.success {
        &output.stdout
    } else {
        &output.stderr
    }
}

/// The text that is reported for a command: the content of the stream that
/// [`select_stream`] picks, read as UTF-8 with every invalid sequence
/// replaced.
pub fn result_text(output: &ExecOutput) -> (text: String)
    ensures
        text@ == reported_text(*output),
        valid_utf8(reported_stream(*output)) ==> encode_utf8(text@) == reported_stream(*output),
{
    utf8_lossy(select_stream(output))
}

} // verus!
