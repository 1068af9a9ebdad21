//! The command line: its flags that contradict each other, and how it ends.
use vstd::prelude::*;

verus! {

/// Exit code of a command that did what it was asked for.
pub const EXIT_SUCCESS: i32 = 0;

/// Exit code of a command that failed.
pub const EXIT_FAILURE: i32 = 1;

/// Exit code of a command whose peer did not appear in time.
pub const EXIT_TIMED_OUT: i32 = 124;

/// How a command ends.
#[derive(Debug)]
pub enum Exit<T> {
    /// It did what it was asked for.
    Success,
    /// It says why not and leaves with a code.
    Complaint {
        /// The exit code.
        code: i32,
        /// What is printed.
        text: T,
    },
    /// It fails with an error, which may have a cause.
    Error {
        /// What failed.
        headline: T,
        /// What the system said.
        cause: Option<T>,
    },
}

impl View for Exit<String> {
    type V = Exit<Seq<char>>;

    open spec fn view(&self) -> Exit<Seq<char>> {
        match *self {
            Exit::Success => Exit::Success,
            Exit::Complaint { code, text } => Exit::Complaint { code, text: text@ },
            Exit::Error { headline, cause } => Exit::Error {
                headline: headline@,
                cause: match cause {
                    Some(reason) => Some(reason@),
                    None => None,
                },
            },
        }
    }
}

impl<T> Exit<T> {
    /// The exit code.
    pub open spec fn code_of(self) -> i32 {
        match self {
            Exit::Success => EXIT_SUCCESS,
            Exit::Complaint { code, .. } => code,
            Exit::Error { .. } => EXIT_FAILURE,
        }
    }

    /// The exit code that the command leaves with.
    pub fn code(&self) -> (code: i32)
        ensures
            code == self.code_of(),
    {
        match self {
            Exit::Success => EXIT_SUCCESS,
            Exit::Complaint { code, .. } => *code,
            Exit::Error { .. } => EXIT_FAILURE,
        }
    }
}

/// The flags of the read command that say whether it goes on after the first message.
#[derive(Debug, Clone, Copy)]
pub enum LingerFlag {
    /// `-l`, `--linger`: keep reading.
    Linger,
    /// `-L`, `--oneshot`: stop after the first message.
    Oneshot,
}

/// Whether a read command lingers, given its flags in the order in which they stand: the
/// last one counts, and without any it lingers.
pub fn lingers(flags: &Vec<LingerFlag>) -> (linger: bool)
    ensures
        linger == (flags@.len() == 0 || flags@.last() is Linger),
{
    let n = flags.len();
    if n == 0 {
        true
    } else {
        match flags[n - 1] {
            LingerFlag::Linger => true,
            LingerFlag::Oneshot => false,
        }
    }
}

/// A command leaves with 0 where it did what it was asked for, with 1 where it fails with an
/// error, and otherwise with the code that it complains with; 124 is kept for timeouts.
pub proof fn exit_codes_are_as_documented<T>(code: i32, text: T, cause: Option<T>)
    ensures
        Exit::<T>::Success.code_of() == 0,
        (Exit::Complaint { code, text }).code_of() == code,
        (Exit::Error { headline: text, cause }).code_of() == 1,
        EXIT_SUCCESS == 0 && EXIT_FAILURE == 1 && EXIT_TIMED_OUT == 124,
{
}

/// How a command leaves is taken as it stands.
pub proof fn exits_are_taken_as_they_are(code: i32, text: String, cause: String)
    ensures
        Exit::<String>::Success@ is Success,
        (Exit::Complaint { code, text })@ == (Exit::Complaint { code, text: text@ }),
        (Exit::Error { headline: text, cause: Some(cause) })@ == (Exit::Error {
            headline: text@,
            cause: Some(cause@),
        }),
        (Exit::Error { headline: text, cause: None })@ == (Exit::Error {
            headline: text@,
            cause: None,
        }),
{
}

} // verus!
