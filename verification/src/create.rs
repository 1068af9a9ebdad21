//! Creating the FIFO that a reader listens on.
//!
//! A FIFO that is there already belongs to another listener, so creation never takes over
//! what exists: it makes a new FIFO or is refused.
use crate::text::join3;
use vstd::prelude::*;

verus! {

/// What became of `mkfifo`.
#[derive(Debug)]
pub enum Mkfifo<T> {
    /// The FIFO was made.
    Created,
    /// The path holds a nul byte, so the call could not be made.
    NulByte(T),
    /// There is a file at the path already.
    AlreadyExists,
    /// The call failed for another reason.
    Failed(T),
}

/// What is at a path that is taken.
#[derive(Debug)]
pub enum Stat<T> {
    /// A FIFO.
    Fifo,
    /// Something else.
    NotFifo,
    /// It could not be told.
    Failed(T),
}

/// Why a FIFO was not created.
#[derive(Debug)]
pub enum CreateError<T> {
    /// The path holds a nul byte.
    NulByte(T),
    /// Another listener may own the channel.
    ExistsAsFifo,
    /// The path is taken by something else.
    ExistsNotFifo,
    /// The path is taken, and what is there could not be told.
    CannotStat(T),
    /// The system refused.
    Failed(T),
}

/// What follows `mkfifo`.
#[derive(Debug)]
pub enum CreateStep<T> {
    /// The FIFO is there and is ours.
    Ready,
    /// See what is at the path.
    Stat,
    /// There is nothing to listen on.
    Refused(CreateError<T>),
}

/// What follows each outcome of `mkfifo`: only a FIFO that was made is ready.
pub open spec fn after_mkfifo<T>(outcome: Mkfifo<T>) -> CreateStep<T> {
    match outcome {
        Mkfifo::Created => CreateStep::Ready,
        Mkfifo::AlreadyExists => CreateStep::Stat,
        Mkfifo::NulByte(reason) => CreateStep::Refused(CreateError::NulByte(reason)),
        Mkfifo::Failed(reason) => CreateStep::Refused(CreateError::Failed(reason)),
    }
}

/// Why a path that is taken is refused.
pub open spec fn why_taken<T>(found: Stat<T>) -> CreateError<T> {
    match found {
        Stat::Fifo => CreateError::ExistsAsFifo,
        Stat::NotFifo => CreateError::ExistsNotFifo,
        Stat::Failed(reason) => CreateError::CannotStat(reason),
    }
}

/// Decides what follows `mkfifo`.
pub fn create_fifo<T>(outcome: Mkfifo<T>) -> (step: CreateStep<T>)
    ensures
        step == after_mkfifo(outcome),
{
    match outcome {
        Mkfifo::Created => CreateStep::Ready,
        Mkfifo::AlreadyExists => CreateStep::Stat,
        Mkfifo::NulByte(reason) => CreateStep::Refused(CreateError::NulByte(reason)),
        Mkfifo::Failed(reason) => CreateStep::Refused(CreateError::Failed(reason)),
    }
}

/// Says why a path that is taken is refused.
pub fn refuse_taken<T>(found: Stat<T>) -> (error: CreateError<T>)
    ensures
        error == why_taken(found),
{
    match found {
        Stat::Fifo => CreateError::ExistsAsFifo,
        Stat::NotFifo => CreateError::ExistsNotFifo,
        Stat::Failed(reason) => CreateError::CannotStat(reason),
    }
}

impl View for CreateError<String> {
    type V = CreateError<Seq<char>>;

    open spec fn view(&self) -> CreateError<Seq<char>> {
        match self {
            CreateError::NulByte(reason) => CreateError::NulByte(reason@),
            CreateError::ExistsAsFifo => CreateError::ExistsAsFifo,
            CreateError::ExistsNotFifo => CreateError::ExistsNotFifo,
            CreateError::CannotStat(reason) => CreateError::CannotStat(reason@),
            CreateError::Failed(reason) => CreateError::Failed(reason@),
        }
    }
}

/// The answer of a tool to a creation that was refused.
pub open spec fn refusal_text(error: CreateError<Seq<char>>, path: Seq<char>) -> Seq<char> {
    match error {
        CreateError::NulByte(reason) => "path contains null byte: "@ + reason,
        CreateError::ExistsAsFifo => taken_by_fifo_text(path),
        CreateError::ExistsNotFifo => taken_text(path),
        CreateError::CannotStat(reason) => "cannot stat '"@ + path + "': "@ + reason,
        CreateError::Failed(reason) => "failed to create FIFO at '"@ + path + "': "@ + reason,
    }
}

/// What the command line says of a creation that was refused, before the cause.
pub open spec fn refusal_headline(error: CreateError<Seq<char>>, path: Seq<char>) -> Seq<char> {
    match error {
        CreateError::NulByte(_) => "path contains a null byte"@,
        CreateError::ExistsAsFifo => taken_by_fifo_text(path),
        CreateError::ExistsNotFifo => taken_text(path),
        CreateError::CannotStat(_) => "cannot stat '"@ + path + "'"@,
        CreateError::Failed(_) => "failed to create FIFO at '"@ + path + "'"@,
    }
}

/// A FIFO is there already.
pub open spec fn taken_by_fifo_text(path: Seq<char>) -> Seq<char> {
    "'"@ + path + "' already exists as a FIFO — another listener may own this channel"@
}

/// Something else is there already.
pub open spec fn taken_text(path: Seq<char>) -> Seq<char> {
    "'"@ + path + "' already exists but is not a FIFO"@
}

impl CreateError<String> {
    /// The refusal as a tool answers it.
    pub fn message(&self, path: &str) -> (text: String)
        ensures
            text@ == refusal_text(self@, path@),
    {
        match self {
            CreateError::NulByte(reason) => {
                let mut text = "path contains null byte: ".to_string();
                text.append(reason.as_str());
                text
            },
            CreateError::ExistsAsFifo => join3(
                "'",
                path,
                "' already exists as a FIFO — another listener may own this channel",
            ),
            CreateError::ExistsNotFifo => join3("'", path, "' already exists but is not a FIFO"),
            CreateError::CannotStat(reason) => {
                let mut text = join3("cannot stat '", path, "': ");
                text.append(reason.as_str());
                text
            },
            CreateError::Failed(reason) => {
                let mut text = join3("failed to create FIFO at '", path, "': ");
                text.append(reason.as_str());
                text
            },
        }
    }

    /// The refusal as the command line states it, without the cause.
    pub fn headline(&self, path: &str) -> (text: String)
        ensures
            text@ == refusal_headline(self@, path@),
    {
        match self {
            CreateError::NulByte(_) => "path contains a null byte".to_string(),
            CreateError::ExistsAsFifo => join3(
                "'",
                path,
                "' already exists as a FIFO — another listener may own this channel",
            ),
            CreateError::ExistsNotFifo => join3("'", path, "' already exists but is not a FIFO"),
            CreateError::CannotStat(_) => join3("cannot stat '", path, "'"),
            CreateError::Failed(_) => join3("failed to create FIFO at '", path, "'"),
        }
    }
}

impl<T> CreateError<T> {
    /// What the system said, where it said something.
    pub open spec fn reason(self) -> Option<T> {
        match self {
            CreateError::NulByte(reason) => Some(reason),
            CreateError::CannotStat(reason) => Some(reason),
            CreateError::Failed(reason) => Some(reason),
            _ => None,
        }
    }

    /// Takes what the system said, where it said something.
    pub fn into_reason(self) -> (reason: Option<T>)
        ensures
            reason == self.reason(),
    {
        match self {
            CreateError::NulByte(reason) => Some(reason),
            CreateError::CannotStat(reason) => Some(reason),
            CreateError::Failed(reason) => Some(reason),
            _ => None,
        }
    }
}

/// A path that is taken is never listened on, whatever is there.
pub proof fn a_taken_path_is_refused<T>(outcome: Mkfifo<T>)
    ensures
        after_mkfifo(outcome) is Ready <==> outcome is Created,
        after_mkfifo(outcome) is Stat <==> outcome is AlreadyExists,
{
}

/// A refusal keeps what the system said, and says what stands in the way.
pub proof fn a_refusal_says_why<T>(reason: T)
    ensures
        after_mkfifo(Mkfifo::NulByte(reason)) == CreateStep::Refused(CreateError::NulByte(reason)),
        after_mkfifo(Mkfifo::Failed(reason)) == CreateStep::Refused(CreateError::Failed(reason)),
        why_taken(Stat::<T>::Fifo) is ExistsAsFifo,
        why_taken(Stat::<T>::NotFifo) is ExistsNotFifo,
        why_taken(Stat::Failed(reason)) == CreateError::CannotStat(reason),
        CreateError::NulByte(reason).reason() == Some(reason),
        CreateError::CannotStat(reason).reason() == Some(reason),
        CreateError::Failed(reason).reason() == Some(reason),
        CreateError::<T>::ExistsAsFifo.reason() is None,
        CreateError::<T>::ExistsNotFifo.reason() is None,
{
}

/// A refusal is put into words with the path, whole and in quotes, and with what the system
/// said: by a tool in one text, by a command in a headline that leaves the cause out.
pub proof fn a_refusal_names_the_path(path: Seq<char>, reason: Seq<char>)
    ensures
        refusal_text(CreateError::NulByte(reason), path) == "path contains null byte: "@ + reason,
        refusal_text(CreateError::ExistsAsFifo, path) == "'"@ + path
            + "' already exists as a FIFO — another listener may own this channel"@,
        refusal_text(CreateError::ExistsNotFifo, path) == "'"@ + path
            + "' already exists but is not a FIFO"@,
        refusal_text(CreateError::CannotStat(reason), path) == "cannot stat '"@ + path + "': "@
            + reason,
        refusal_text(CreateError::Failed(reason), path) == "failed to create FIFO at '"@ + path
            + "': "@ + reason,
        refusal_headline(CreateError::NulByte(reason), path) == "path contains a null byte"@,
        refusal_headline(CreateError::ExistsAsFifo, path) == refusal_text(
            CreateError::ExistsAsFifo,
            path,
        ),
        refusal_headline(CreateError::ExistsNotFifo, path) == refusal_text(
            CreateError::ExistsNotFifo,
            path,
        ),
        refusal_headline(CreateError::CannotStat(reason), path) == "cannot stat '"@ + path + "'"@,
        refusal_headline(CreateError::Failed(reason), path) == "failed to create FIFO at '"@ + path
            + "'"@,
{
}

/// A refusal is taken as it stands.
pub proof fn refusals_are_taken_as_they_are(reason: String)
    ensures
        CreateError::NulByte(reason)@ == CreateError::NulByte(reason@),
        CreateError::CannotStat(reason)@ == CreateError::CannotStat(reason@),
        CreateError::Failed(reason)@ == CreateError::Failed(reason@),
        CreateError::<String>::ExistsAsFifo@ is ExistsAsFifo,
        CreateError::<String>::ExistsNotFifo@ is ExistsNotFifo,
{
}

} // verus!
