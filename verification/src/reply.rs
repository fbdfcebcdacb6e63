//! What a finished run of the tool means.
//!
//! The host starts the process and reports what happened: either the process
//! could not be started, or it ran to its end and left an exit status and two
//! streams. The functions here turn that report into the answer for the user
//! interface.

use crate::records::{LoginStatus, LoginStatusView};
use crate::text::{lossy_text, read_lossy};
use vstd::prelude::*;

verus! {

/// What a process left behind when it ended.
#[derive(Debug, Clone, PartialEq, Eq)]
pub struct ProcessOutput {
    /// Whether the exit status was zero.
    pub success: bool,
    pub stdout: Vec<u8>,
    pub stderr: Vec<u8>,
}

/// A [`ProcessOutput`] with its streams as sequences of bytes.
pub struct ProcessOutputView {
    pub success: bool,
    pub stdout: Seq<u8>,
    pub stderr: Seq<u8>,
}

impl View for ProcessOutput {
    type V = ProcessOutputView;

    open spec fn view(&self) -> ProcessOutputView {
        ProcessOutputView { success: self.success, stdout: self.stdout@, stderr: self.stderr@ }
    }
}

/// The report of one run: the output of a process that ended, or the
/// operating system's description of why none was started.
pub open spec fn report_view(report: Result<ProcessOutput, String>) -> Result<
    ProcessOutputView,
    Seq<char>,
> {
    match report {
        Ok(output) => Ok(output@),
        Err(cause) => Err(cause@),
    }
}

/// An answer in text, with both its sides as sequences of characters.
pub open spec fn text_view(answer: Result<String, String>) -> Result<Seq<char>, Seq<char>> {
    match answer {
        Ok(text) => Ok(text@),
        Err(message) => Err(message@),
    }
}

/// An answer about the login, with its texts as sequences of characters.
pub open spec fn login_view(answer: Result<LoginStatus, String>) -> Result<
    LoginStatusView,
    Seq<char>,
> {
    match answer {
        Ok(status) => Ok(status@),
        Err(message) => Err(message@),
    }
}

/// The answer in text to a report: the text of standard output after a zero
/// exit status, and as the error the text of standard error after any other,
/// or the cause where no process was started.
pub open spec fn text_answer(report: Result<ProcessOutputView, Seq<char>>) -> Result<
    Seq<char>,
    Seq<char>,
> {
    match report {
        Ok(output) => if output.success {
            Ok(lossy_text(output.stdout))
        } else {
            Err(lossy_text(output.stderr))
        },
        Err(cause) => Err(cause),
    }
}

/// The answer about the login to a report, which is a status whatever the
/// run did: successful exactly when a process ended with a zero exit status,
/// with the text of standard output as its message if so, that of standard
/// error after any other exit status, and the cause where no process was
/// started.
pub open spec fn login_answer(report: Result<ProcessOutputView, Seq<char>>) -> Result<
    LoginStatusView,
    Seq<char>,
> {
    match report {
        Ok(output) => Ok(
            LoginStatusView {
                success: output.success,
                message: Some(
                    if output.success {
                        lossy_text(output.stdout)
                    } else {
                        lossy_text(output.stderr)
                    },
                ),
            },
        ),
        Err(cause) => Ok(LoginStatusView { success: false, message: Some(cause) }),
    }
}

/// Reads a stream of a process as text.
fn stream_text(bytes: &Vec<u8>) -> (text: String)
    ensures
        text@ == lossy_text(bytes@),
{
    read_lossy(bytes)
}

/// Answers a request whose result is what the tool printed.
///
/// This serves every request but the login check: for the two listings the
/// text is the JSON document that the host then decodes.
pub fn text(report: Result<ProcessOutput, String>) -> (answer: Result<String, String>)
    ensures
        text_view(answer) == text_answer(report_view(report)),
{
    match report {
        Ok(output) => {
            if output.success {
                Ok(stream_text(&output.stdout))
            } else {
                Err(stream_text(&output.stderr))
            }
        },
        Err(cause) => Err(cause),
    }
}

/// Answers the login check. A run that failed is an answer here, never an
/// error: it says that nobody is logged in, and why. That holds of a process
/// that ended with a failure and of one that could not be started alike.
pub fn login_status(report: Result<ProcessOutput, String>) -> (answer: Result<
    LoginStatus,
    String,
>)
    ensures
        answer is Ok,
        login_view(answer) == login_answer(report_view(report)),
{
    match report {
        Ok(output) => {
            let message = if output.success {
                stream_text(&output.stdout)
            } else {
                stream_text(&output.stderr)
            };
            Ok(LoginStatus { success: output.success, message: Some(message) })
        },
        Err(cause) => Ok(LoginStatus { success: false, message: Some(cause) }),
    }
}

/// After a zero exit status every answer is read from standard output
/// alone: two reports that agree on it get the same answer, whatever
/// standard error holds.
pub proof fn lemma_success_reads_stdout_alone(first: ProcessOutputView, second: ProcessOutputView)
    requires
        first.success,
        second.success,
        first.stdout == second.stdout,
    ensures
        text_answer(Ok(first)) == text_answer(Ok(second)),
        login_answer(Ok(first)) == login_answer(Ok(second)),
        text_answer(Ok(first)) == Ok::<Seq<char>, Seq<char>>(lossy_text(first.stdout)),
{
}

/// After a non-zero exit status the answer in text is an error, and that
/// error is the text of standard error.
pub proof fn lemma_failure_reports_stderr(output: ProcessOutputView)
    requires
        !output.success,
    ensures
        text_answer(Ok(output)) == Err::<Seq<char>, Seq<char>>(lossy_text(output.stderr)),
{
}

/// Where no process could be started, the answer in text is an error that
/// holds the cause as it was reported.
pub proof fn lemma_launch_failure_reports_cause(cause: Seq<char>)
    ensures
        text_answer(Err(cause)) == Err::<Seq<char>, Seq<char>>(cause),
{
}

/// The login check answers every report with a status and never with an
/// error. The status is successful exactly when a process ended with a zero
/// exit status; after a failed check it is unsuccessful and its message is
/// the text of standard error, or the cause where no process was started.
pub proof fn lemma_login_check_always_answers(report: Result<ProcessOutputView, Seq<char>>)
    ensures
        login_answer(report) is Ok,
        login_answer(report)->Ok_0.success == (report is Ok && report->Ok_0.success),
        login_answer(report)->Ok_0.message is Some,
        (report is Ok && !report->Ok_0.success) ==> login_answer(report)->Ok_0.message == Some(
            lossy_text(report->Ok_0.stderr),
        ),
        report is Err ==> login_answer(report)->Ok_0.message == Some(report->Err_0),
{
}

/// A stream of well-formed UTF-8 is read as exactly the characters it
/// encodes, so a tool that prints text gets it across unchanged.
pub proof fn lemma_well_formed_output_is_kept(characters: Seq<char>, stderr: Seq<u8>)
    ensures
        text_answer(
            Ok(
                ProcessOutputView {
                    success: true,
                    stdout: vstd::utf8::encode_utf8(characters),
                    stderr,
                },
            ),
        ) == Ok::<Seq<char>, Seq<char>>(characters),
{
    vstd::utf8::encode_utf8_valid_utf8(characters);
    vstd::utf8::encode_utf8_decode_utf8(characters);
}

} // verus!
