//! Ops are command-line callables.

use vstd::prelude::*;

verus! {

broadcast use vstd::string::group_string_axioms;

/// Non-zero exit status from an op.
#[derive(Debug)]
pub struct ExitError {
    /// Exit code of the process, above zero.
    exitcode: i32,
    /// Final dying words.
    message: String,
}

/// Final result from a CLI operation.
pub type OpResult = Result<Option<String>, ExitError>;

impl ExitError {
    /// An error always carries an exit code above zero.
    #[verifier::type_invariant]
    spec fn exit_code_is_failure(self) -> bool {
        self.exitcode > 0
    }

    /// The exit code the error ends the process with.
    pub closed spec fn code(self) -> i32 {
        self.exitcode
    }

    /// The message printed before exiting.
    pub closed spec fn text(self) -> Seq<char> {
        self.message@
    }

    /// Exit 1 with an exit message.
    pub fn errmsg(message: &str) -> (r: OpResult)
        ensures
            r matches Err(e) && e.code() == 1 && e.text() == message@,
    {
        ExitError::err(1, message)
    }

    /// Helper to create exit results. The exit code must be above zero.
    pub fn err(exitcode: i32, message: &str) -> (r: OpResult)
        requires
            exitcode > 0,
        ensures
            r matches Err(e) && e.code() == exitcode && e.text() == message@,
    {
        Err(ExitError { exitcode, message: message.to_string() })
    }

    /// Exit code of the failure message, guaranteed to be above zero.
    pub fn exitcode(&self) -> (r: i32)
        ensures
            r == self.code(),
            r > 0,
    {
        proof {
            use_type_invariant(self);
        }
        self.exitcode
    }

    /// Exit message to be displayed to the user on stderr.
    pub fn message(&self) -> (r: &str)
        ensures
            r@ == self.text(),
    {
        self.message.as_str()
    }
}

/// Return an `OpResult` with a final message to print before exit 0.
/// The final message is possibly intended to be consumed by automated tests.
pub fn ok_msg(message: &str) -> (r: OpResult)
    ensures
        r matches Ok(Some(m)) && m@ == message@,
{
    Ok(Some(message.to_string()))
}

/// Return an `OpResult` with no message to be printed, producing
/// a silent exit 0.
pub fn ok() -> (r: OpResult)
    ensures
        r matches Ok(m) && m is None,
{
    Ok(None)
}

} // verus!
