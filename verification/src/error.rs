//! The two ways a run can fail, and how a failure is told to the user.

use vstd::prelude::*;
use vstd::string::*;

verus! {

/// A positional argument of the command line.
#[derive(Debug, Clone, Copy, PartialEq, Eq, Structural)]
pub enum Argument {
    /// The text to look for: the first positional argument.
    Query,
    /// The file to read: the second positional argument.
    Path,
}

/// Why a run failed.
#[derive(Debug, Clone, PartialEq, Eq)]
pub enum GrepError {
    /// A required positional argument was not given.
    MissingArgument(Argument),
    /// The file could not be opened, or a line of it could not be read. The
    /// text is the description of the underlying cause.
    IoError(String),
}

/// The mathematical value of a [`GrepError`].
pub enum Failure {
    /// A required positional argument was not given.
    MissingArgument(Argument),
    /// The file could not be opened or read; the text describes the cause.
    IoError(Seq<char>),
}

impl View for GrepError {
    type V = Failure;

    open spec fn view(&self) -> Failure {
        match *self {
            GrepError::MissingArgument(which) => Failure::MissingArgument(which),
            GrepError::IoError(cause) => Failure::IoError(cause@),
        }
    }
}

impl Failure {
    /// The message that the failure carries.
    pub open spec fn message(self) -> Seq<char> {
        match self {
            Failure::MissingArgument(Argument::Query) => "Didn't get a query string"@,
            Failure::MissingArgument(Argument::Path) => "Didn't get a file name"@,
            Failure::IoError(cause) => cause,
        }
    }

    /// What introduces the message on standard error.
    pub open spec fn heading(self) -> Seq<char> {
        match self {
            Failure::MissingArgument(_) => "Problem parsing arguments: "@,
            Failure::IoError(_) => "Application error: "@,
        }
    }

    /// The line written to standard error for the failure.
    pub open spec fn report(self) -> Seq<char> {
        self.heading() + self.message()
    }
}

/// The exit status of the process: 0 after a completed scan, whether or not
/// any line matched, and 1 after any failure.
pub open spec fn exit_status<T, E>(result: Result<T, E>) -> int {
    if result is Ok {
        0
    } else {
        1
    }
}

impl GrepError {
    /// The message that the error carries.
    pub fn message(&self) -> (text: String)
        ensures
            text@ == self@.message(),
    {
        match self {
            GrepError::MissingArgument(Argument::Query) => String::from_str(
                "Didn't get a query string",
            ),
            GrepError::MissingArgument(Argument::Path) => String::from_str(
                "Didn't get a file name",
            ),
            GrepError::IoError(cause) => cause.clone(),
        }
    }

    /// The line to write to standard error for the error.
    pub fn report(&self) -> (text: String)
        ensures
            text@ == self@.report(),
    {
        let heading = match self {
            GrepError::MissingArgument(_) => "Problem parsing arguments: ",
            GrepError::IoError(_) => "Application error: ",
        };
        let mut text = String::from_str(heading);
        let message = self.message();
        text.append(message.as_str());
        text
    }
}

/// The exit status of the process for the result of a run.
pub fn exit_code<T>(result: &Result<T, GrepError>) -> (code: i32)
    ensures
        code == exit_status(*result),
{
    match result {
        Ok(_) => 0,
        Err(_) => 1,
    }
}

/// Every failure to open or read the file ends the process with status 1,
/// and is reported as an application error followed by the cause.
pub proof fn lemma_io_failure_reported(cause: Seq<char>)
    ensures
        exit_status::<(), Failure>(Err(Failure::IoError(cause))) == 1,
        Failure::IoError(cause).report() == "Application error: "@ + cause,
{
}

} // verus!
