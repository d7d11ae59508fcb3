//! The primitive types and their written forms.

use crate::text::{is_token, is_whitespace, str_eq};
use std::str::FromStr;
use vstd::prelude::*;

verus! {

/// A primitive kind. The set is closed: there is no subtyping and no
/// coercion, so two types agree only where they are the same variant.
#[derive(Debug, PartialEq, Eq, Clone, Copy, Structural)]
pub enum Type {
    Int,
    Float,
    Bool,
}

impl Type {
    /// The written form of the type.
    pub open spec fn name(self) -> Seq<char> {
        match self {
            Type::Int => "Int"@,
            Type::Float => "Float"@,
            Type::Bool => "Bool"@,
        }
    }

    /// The type that a token denotes: the one whose written form the token
    /// is, character for character.
    pub open spec fn parse(token: Seq<char>) -> Option<Type> {
        if token == Type::Int.name() {
            Some(Type::Int)
        } else if token == Type::Float.name() {
            Some(Type::Float)
        } else if token == Type::Bool.name() {
            Some(Type::Bool)
        } else {
            None
        }
    }

    /// The written form of the type, as it is shown to the user.
    pub fn as_str(&self) -> (s: &'static str)
        ensures
            s@ == self.name(),
    {
        match self {
            Type::Int => "Int",
            Type::Float => "Float",
            Type::Bool => "Bool",
        }
    }

    /// Each written form is one token, and is read back as the type it
    /// was written for.
    pub proof fn lemma_name_parses(self)
        ensures
            is_token(self.name()),
            Type::parse(self.name()) == Some(self),
    {
        reveal_strlit("Int");
        reveal_strlit("Float");
        reveal_strlit("Bool");
        assert(Type::Int.name()[0] == 'I');
        assert(Type::Float.name()[0] == 'F');
        assert(Type::Bool.name()[0] == 'B');
        assert forall|i: int| 0 <= i < self.name().len() implies !is_whitespace(
            #[trigger] self.name()[i],
        ) by {}
    }
}

impl FromStr for Type {
    type Err = ();

    /// Resolves a token to the type it names. The match is exact: case
    /// counts, and nothing is trimmed.
    fn from_str(s: &str) -> (r: Result<Type, ()>)
        ensures
            r == (match Type::parse(s@) {
                Some(t) => Ok::<Type, ()>(t),
                None => Err(()),
            }),
    {
        if str_eq(s, "Int") {
            Ok(Type::Int)
        } else if str_eq(s, "Float") {
            Ok(Type::Float)
        } else if str_eq(s, "Bool") {
            Ok(Type::Bool)
        } else {
            Err(())
        }
    }
}

} // verus!
