//! Bot commands as they arrive in messages.

use vstd::prelude::*;
use vstd::string::StringExecFns;

verus! {

/// A command, or a set of commands, that can be read from the text of a
/// message.
pub trait BotCommand: Sized {
    fn parse(message: &str) -> Result<Self, Error>;
}

/// Why a message could not be read as a command.
#[derive(Debug)]
pub enum Error {
    TooFewArgs,
    TooManyArgs,
    WrongBotName,
    UnknownCmd,
    ParseError(String),
}

impl Error {
    /// What the error says.
    pub open spec fn message(self) -> Seq<char> {
        match self {
            Error::TooFewArgs => "Too few args"@,
            Error::TooManyArgs => "Too many args"@,
            Error::WrongBotName => "Wrong bot name"@,
            Error::UnknownCmd => "Unknown command"@,
            Error::ParseError(reason) => "Parse error: "@ + reason@,
        }
    }

    /// What the error says.
    pub fn to_string(&self) -> (message: String)
        ensures
            message@ == self.message(),
    {
        match self {
            Error::TooFewArgs => "Too few args".to_owned(),
            Error::TooManyArgs => "Too many args".to_owned(),
            Error::WrongBotName => "Wrong bot name".to_owned(),
            Error::UnknownCmd => "Unknown command".to_owned(),
            Error::ParseError(reason) => "Parse error: ".to_owned().concat(reason.as_str()),
        }
    }
}

/// The next argument of a command, from what reading the next word of
/// the message gave: nothing where the words have run out, else the
/// value that the word stands for, or the reason why it stands for none.
pub fn next_arg<T>(word: Option<Result<T, String>>) -> (arg: Result<T, Error>)
    ensures
        arg == match word {
            None => Err::<T, Error>(Error::TooFewArgs),
            Some(Ok(value)) => Ok(value),
            Some(Err(reason)) => Err(Error::ParseError(reason)),
        },
{
    match word {
        None => Err(Error::TooFewArgs),
        Some(Ok(value)) => Ok(value),
        Some(Err(reason)) => Err(Error::ParseError(reason)),
    }
}

} // verus!
