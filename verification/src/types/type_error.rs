//! The errors that a command can fail with.

use vstd::prelude::*;

verus! {

/// What can go wrong with a command. No error changes the registry.
#[derive(Debug, PartialEq, Eq, Clone, Copy, Structural)]
pub enum Error {
    /// A malformed command: a wrong number of arguments, a token that names
    /// no type, an unknown command word, or a call whose arguments do not
    /// match the parameters.
    TypeError,
    /// A call of a name that no function was declared under.
    UndeclaredFunction,
    /// A name that is neither declared nor, in a call, the name of a type.
    UndeclaredVariable,
}

impl Error {
    /// The text under which the error is shown to the user.
    pub open spec fn message(self) -> Seq<char> {
        match self {
            Error::TypeError => "Type Error"@,
            Error::UndeclaredFunction => "Undeclared Function"@,
            Error::UndeclaredVariable => "Undeclared Variable"@,
        }
    }

    /// The text under which the error is shown to the user.
    pub fn to_string(&self) -> (s: String)
        ensures
            s@ == self.message(),
    {
        match self {
            Error::TypeError => "Type Error".to_owned(),
            Error::UndeclaredFunction => "Undeclared Function".to_owned(),
            Error::UndeclaredVariable => "Undeclared Variable".to_owned(),
        }
    }
}

} // verus!
