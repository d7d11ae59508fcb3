//! The command language as a mathematical function from a registry and a
//! line to the registry that the line leaves and the answer it gives.

use crate::environment::{Entry, Registry, Signature};
use crate::render::{call_line, function_line, variable_line};
use crate::text::tokens;
use crate::types::type_enum::Type;
use crate::types::type_error::Error;
use vstd::prelude::*;

verus! {

/// What one command does: the registry it leaves, and the line it answers
/// with or the error it fails with.
pub struct Outcome {
    pub env: Registry,
    pub result: Result<Seq<char>, Error>,
}

/// An answer as a mathematical value.
pub open spec fn answer(r: Result<String, Error>) -> Result<Seq<char>, Error> {
    match r {
        Ok(line) => Ok(line@),
        Err(e) => Err(e),
    }
}

/// A command that fails leaves the registry as it was.
pub open spec fn fail(env: Registry, e: Error) -> Outcome {
    Outcome { env, result: Err(e) }
}

/// `declare_var <name> <Type>`: exactly two arguments, the second of which
/// names a type.
pub open spec fn declare_var(env: Registry, args: Seq<Seq<char>>) -> Outcome {
    if args.len() != 2 {
        fail(env, Error::TypeError)
    } else {
        match Type::parse(args[1]) {
            Some(var_type) => Outcome {
                env: env.declare_variable(args[0], var_type),
                result: Ok(variable_line(args[0], var_type)),
            },
            None => fail(env, Error::TypeError),
        }
    }
}

/// `declare_func <name> <InputType> <OutputType>`: exactly three arguments,
/// the last two of which name types.
pub open spec fn declare_func(env: Registry, args: Seq<Seq<char>>) -> Outcome {
    if args.len() != 3 {
        fail(env, Error::TypeError)
    } else {
        match (Type::parse(args[1]), Type::parse(args[2])) {
            (Some(input_type), Some(output_type)) => Outcome {
                env: env.declare_function(args[0], input_type, output_type),
                result: Ok(function_line(args[0], Signature::unary(input_type, output_type))),
            },
            _ => fail(env, Error::TypeError),
        }
    }
}

/// The type that an argument of a call stands for: the type that the token
/// names, else the type of the variable of that name.
pub open spec fn resolve(env: Registry, token: Seq<char>) -> Option<Type> {
    match Type::parse(token) {
        Some(named) => Some(named),
        None => if env.variables.contains_key(token) {
            Some(env.variables[token])
        } else {
            None
        },
    }
}

/// `call <name> <arg>...`: every argument is resolved, then the call is
/// checked against the signature of `name`.
pub open spec fn call(env: Registry, args: Seq<Seq<char>>) -> Outcome {
    if args.len() < 1 {
        fail(env, Error::TypeError)
    } else {
        let resolved = args.drop_first().map_values(|token: Seq<char>| resolve(env, token));
        if resolved.contains(None) {
            fail(env, Error::UndeclaredVariable)
        } else {
            let arg_types = resolved.map_values(|found: Option<Type>| found->0);
            match env.call_function(args[0], arg_types) {
                Ok(return_type) => Outcome { env, result: Ok(call_line(args[0], return_type)) },
                Err(e) => fail(env, e),
            }
        }
    }
}

/// `show <name>`: exactly one argument, which is looked up.
pub open spec fn show(env: Registry, args: Seq<Seq<char>>) -> Outcome {
    if args.len() != 1 {
        fail(env, Error::TypeError)
    } else {
        match env.lookup(args[0]) {
            Ok(Entry::Variable(var_type)) => Outcome {
                env,
                result: Ok(variable_line(args[0], var_type)),
            },
            Ok(Entry::Function(signature)) => Outcome {
                env,
                result: Ok(function_line(args[0], signature)),
            },
            Err(e) => fail(env, e),
        }
    }
}

/// What a tokenized line does. No token: nothing, with an empty answer.
/// Else the first token selects the command and the rest are its arguments.
pub open spec fn run(env: Registry, words: Seq<Seq<char>>) -> Outcome {
    if words.len() == 0 {
        Outcome { env, result: Ok(Seq::empty()) }
    } else if words[0] == "declare_var"@ {
        declare_var(env, words.drop_first())
    } else if words[0] == "declare_func"@ {
        declare_func(env, words.drop_first())
    } else if words[0] == "call"@ {
        call(env, words.drop_first())
    } else if words[0] == "show"@ {
        show(env, words.drop_first())
    } else {
        fail(env, Error::TypeError)
    }
}

/// What one line of input does.
pub open spec fn process(env: Registry, line: Seq<char>) -> Outcome {
    run(env, tokens(line))
}

} // verus!
