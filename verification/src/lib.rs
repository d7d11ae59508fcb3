//! A small type-checking environment: typed variables and typed functions
//! of one parameter are declared, and calls are checked against what was
//! declared.
//!
//! [`Environment`] is the registry. [`process_input`] runs one line of the
//! command language against it:
//!
//! ```text
//! declare_var  <name> <Int|Float|Bool>
//! declare_func <name> <Int|Float|Bool> <Int|Float|Bool>
//! call         <name> [<argument>...]
//! show         <name>
//! ```
//!
//! What a line does is defined once, as a mathematical function, in
//! [`protocol`]; the executable functions here are proved to compute it.
//! [`laws`] holds what follows for whole sessions, and [`session`] what a
//! program that reads lines from a user does with each of them.

pub mod environment;
pub mod laws;
pub mod protocol;
pub mod render;
pub mod session;
pub mod text;
pub mod types;

pub use environment::Environment;

use crate::environment::Declaration;
use crate::render::{show_call, show_function, show_variable};
use crate::text::{str_eq, texts, tokenize};
use crate::types::type_enum::Type;
use crate::types::type_error::Error;
use std::str::FromStr;
use vstd::prelude::*;
use vstd::slice::slice_subrange;

verus! {

/// Runs `call` on its arguments: the name of a function, then what it is
/// called on. An argument is the name of a type, which stands for a value of
/// that type, or else the name of a variable.
pub fn call_function(input: &[&str], env: &mut Environment) -> (r: Result<String, Error>)
    ensures
        final(env)@ == protocol::call(old(env)@, texts(input@)).env,
        protocol::answer(r) == protocol::call(old(env)@, texts(input@)).result,
{
    if input.len() < 1 {
        return Err(Error::TypeError);
    }
    let func_name = input[0];
    let ghost args = texts(input@);
    let ghost resolved = args.drop_first().map_values(
        |token: Seq<char>| protocol::resolve(env@, token),
    );
    let mut converted_args: Vec<Type> = Vec::new();
    let mut i: usize = 1;
    while i < input.len()
        invariant
            1 <= i <= input@.len(),
            args == texts(input@),
            resolved == args.drop_first().map_values(
                |token: Seq<char>| protocol::resolve(env@, token),
            ),
            converted_args@.len() == i - 1,
            forall|j: int| 0 <= j < i - 1 ==> resolved[j] == Some(#[trigger] converted_args@[j]),
        decreases input@.len() - i,
    {
        let arg = input[i];
        assert(resolved[i - 1] == protocol::resolve(env@, arg@));
        match Type::from_str(arg) {
            Ok(var_type) => {
                converted_args.push(var_type);
            },
            Err(_) => match env.variables.get(arg) {
                Some(var_type) => {
                    converted_args.push(*var_type);
                },
                None => {
                    return Err(Error::UndeclaredVariable);
                },
            },
        }
        i = i + 1;
    }
    proof {
        let arg_types = resolved.map_values(|found: Option<Type>| found->0);
        assert forall|j: int| 0 <= j < resolved.len() implies resolved[j] is Some by {
            assert(resolved[j] == Some(converted_args@[j]));
        }
        assert(converted_args@ =~= arg_types);
    }
    match env.call_function(func_name, converted_args.as_slice()) {
        Ok(return_type) => Ok(show_call(func_name, return_type)),
        Err(err) => Err(err),
    }
}

/// Runs `declare_var` on its arguments: a name and the name of a type.
pub fn declare_variable(input: &[&str], env: &mut Environment) -> (r: Result<String, Error>)
    ensures
        final(env)@ == protocol::declare_var(old(env)@, texts(input@)).env,
        protocol::answer(r) == protocol::declare_var(old(env)@, texts(input@)).result,
{
    if input.len() != 2 {
        return Err(Error::TypeError);
    }
    let var_name = input[0];
    let var_type = match Type::from_str(input[1]) {
        Ok(var_type) => var_type,
        Err(_) => {
            return Err(Error::TypeError);
        },
    };
    env.declare_variable(var_name, var_type);
    Ok(show_variable(var_name, var_type))
}

/// Runs `declare_func` on its arguments: a name, then the names of the type
/// that the function takes and of the type that it returns.
pub fn declare_function(input: &[&str], env: &mut Environment) -> (r: Result<String, Error>)
    ensures
        final(env)@ == protocol::declare_func(old(env)@, texts(input@)).env,
        protocol::answer(r) == protocol::declare_func(old(env)@, texts(input@)).result,
{
    if input.len() != 3 {
        return Err(Error::TypeError);
    }
    let func_name = input[0];
    let input_type = match Type::from_str(input[1]) {
        Ok(input_type) => input_type,
        Err(_) => {
            return Err(Error::TypeError);
        },
    };
    let output_type = match Type::from_str(input[2]) {
        Ok(output_type) => output_type,
        Err(_) => {
            return Err(Error::TypeError);
        },
    };
    env.declare_function(func_name, input_type, output_type);
    let parameter_types = [input_type];
    Ok(show_function(func_name, output_type, &parameter_types))
}

/// Runs `show` on its argument, a name: renders the variable of that name,
/// or else the function.
pub fn show_declaration(input: &[&str], env: &Environment) -> (r: Result<String, Error>)
    ensures
        protocol::answer(r) == protocol::show(env@, texts(input@)).result,
{
    if input.len() != 1 {
        return Err(Error::TypeError);
    }
    let name = input[0];
    match env.lookup(name) {
        Ok(Declaration::Variable(var_type)) => Ok(show_variable(name, var_type)),
        Ok(Declaration::Function(return_type, parameter_types)) => Ok(
            show_function(name, return_type, parameter_types.as_slice()),
        ),
        Err(err) => Err(err),
    }
}

/// Runs a tokenized line: the first token selects the command, and the rest
/// are its arguments. No token: nothing is done, and the answer is empty.
pub fn run(words: &[&str], env: &mut Environment) -> (r: Result<String, Error>)
    ensures
        final(env)@ == protocol::run(old(env)@, texts(words@)).env,
        protocol::answer(r) == protocol::run(old(env)@, texts(words@)).result,
{
    if words.len() == 0 {
        return Ok(String::new());
    }
    let command = words[0];
    let args = slice_subrange(words, 1, words.len());
    assert(texts(args@) =~= texts(words@).drop_first());
    if str_eq(command, "declare_var") {
        declare_variable(args, env)
    } else if str_eq(command, "declare_func") {
        declare_function(args, env)
    } else if str_eq(command, "call") {
        call_function(args, env)
    } else if str_eq(command, "show") {
        show_declaration(args, &*env)
    } else {
        Err(Error::TypeError)
    }
}

/// Runs one line of input against the registry, and gives the line to
/// answer with, which is empty where the input holds no token.
pub fn process_input(input: &str, env: &mut Environment) -> (r: Result<String, Error>)
    ensures
        final(env)@ == protocol::process(old(env)@, input@).env,
        protocol::answer(r) == protocol::process(old(env)@, input@).result,
{
    let tokens = tokenize(input);
    run(tokens.as_slice(), env)
}

} // verus!
