//! What holds of every session, proved from the definition of the command
//! language.

use crate::environment::{lemma_builtins, Registry, Signature};
use crate::protocol::{call, process, resolve, Outcome};
use crate::render::{call_line, function_line, variable_line};
use crate::text::{
    is_blank, is_token, lemma_tokens_are_tokens, lemma_tokens_blank, lemma_tokens_unwords, tokens,
    unwords,
};
use crate::types::type_enum::Type;
use crate::types::type_error::Error;
use vstd::prelude::*;

verus! {

/// The four command words are tokens, and no two of them are the same.
pub proof fn lemma_command_words()
    ensures
        is_token("declare_var"@),
        is_token("declare_func"@),
        is_token("call"@),
        is_token("show"@),
        "declare_var"@ != "declare_func"@,
        "declare_var"@ != "call"@,
        "declare_var"@ != "show"@,
        "declare_func"@ != "call"@,
        "declare_func"@ != "show"@,
        "call"@ != "show"@,
{
    reveal_strlit("declare_var");
    reveal_strlit("declare_func");
    reveal_strlit("call");
    reveal_strlit("show");
    assert("call"@[0] == 'c' && "show"@[0] == 's');
}

/// A line that holds no token does nothing: the answer is empty and the
/// registry is as it was.
pub proof fn law_blank_line_does_nothing(env: Registry, line: Seq<char>)
    requires
        is_blank(line),
    ensures
        process(env, line) == (Outcome { env, result: Ok(Seq::empty()) }),
{
    lemma_tokens_blank(line);
}

/// A command that fails changes nothing.
pub proof fn law_failure_changes_nothing(env: Registry, line: Seq<char>)
    ensures
        process(env, line).result is Err ==> process(env, line).env == env,
{
}

/// Only a declaration that succeeds changes the registry: `call` and `show`
/// read it, and every other line leaves it alone.
pub proof fn law_only_declarations_change_the_registry(env: Registry, line: Seq<char>)
    ensures
        process(env, line).env != env ==> ({
            &&& tokens(line).len() > 0
            &&& (tokens(line)[0] == "declare_var"@ || tokens(line)[0] == "declare_func"@)
            &&& process(env, line).result is Ok
        }),
{
}

/// What holds of every registry that a session reaches: each declared name
/// is a token, and each function takes exactly one parameter.
pub open spec fn session_invariant(env: Registry) -> bool {
    &&& forall|name: Seq<char>| #[trigger] env.variables.contains_key(name) ==> is_token(name)
    &&& forall|name: Seq<char>| #[trigger]
        env.functions.contains_key(name) ==> {
            &&& is_token(name)
            &&& env.functions[name].parameter_types.len() == 1
        }
}

/// The session invariant holds of the registry that a session starts with,
/// and no line breaks it.
pub proof fn law_session_invariant(env: Registry, line: Seq<char>)
    ensures
        session_invariant(Registry::initial()),
        session_invariant(env) ==> session_invariant(process(env, line).env),
{
    lemma_builtins();
    reveal_strlit("add");
    reveal_strlit("sub");
    reveal_strlit("mul");
    reveal_strlit("div");
    reveal_strlit("and");
    lemma_tokens_are_tokens(line);
}

/// A variable that was just declared is shown under its name with the type
/// it was declared with, whatever the registry held before.
pub proof fn law_declared_variable_is_shown(env: Registry, name: Seq<char>, var_type: Type)
    requires
        is_token(name),
    ensures
        ({
            let declared = process(env, unwords(seq!["declare_var"@, name, var_type.name()]));
            let shown = process(declared.env, unwords(seq!["show"@, name]));
            &&& declared.env == env.declare_variable(name, var_type)
            &&& declared.result == Ok::<Seq<char>, Error>(variable_line(name, var_type))
            &&& shown.env == declared.env
            &&& shown.result == declared.result
        }),
{
    lemma_command_words();
    var_type.lemma_name_parses();
    lemma_tokens_unwords(seq!["declare_var"@, name, var_type.name()]);
    lemma_tokens_unwords(seq!["show"@, name]);
}

/// A function that was just declared can be called on an argument of the
/// type it takes, and the call returns the type it was declared to return,
/// whatever was declared under the name before.
pub proof fn law_declared_function_is_callable(
    env: Registry,
    name: Seq<char>,
    input_type: Type,
    output_type: Type,
)
    requires
        is_token(name),
    ensures
        ({
            let declared = process(
                env,
                unwords(seq!["declare_func"@, name, input_type.name(), output_type.name()]),
            );
            let called = process(declared.env, unwords(seq!["call"@, name, input_type.name()]));
            &&& declared.env == env.declare_function(name, input_type, output_type)
            &&& declared.result == Ok::<Seq<char>, Error>(
                function_line(name, Signature::unary(input_type, output_type)),
            )
            &&& called.env == declared.env
            &&& called.result == Ok::<Seq<char>, Error>(call_line(name, output_type))
        }),
{
    lemma_command_words();
    input_type.lemma_name_parses();
    output_type.lemma_name_parses();
    let declare = seq!["declare_func"@, name, input_type.name(), output_type.name()];
    let invoke = seq!["call"@, name, input_type.name()];
    lemma_tokens_unwords(declare);
    lemma_tokens_unwords(invoke);
    assert(invoke.drop_first() =~= seq![name, input_type.name()]);
    lemma_call_on_type_names(
        env.declare_function(name, input_type, output_type),
        name,
        input_type,
    );
}

/// A function that was just declared rejects an argument of any type but
/// the one it takes.
pub proof fn law_declared_function_rejects_other_types(
    env: Registry,
    name: Seq<char>,
    input_type: Type,
    output_type: Type,
    other_type: Type,
)
    requires
        is_token(name),
        other_type != input_type,
    ensures
        ({
            let declared = process(
                env,
                unwords(seq!["declare_func"@, name, input_type.name(), output_type.name()]),
            );
            let called = process(declared.env, unwords(seq!["call"@, name, other_type.name()]));
            &&& called.env == declared.env
            &&& called.result == Err::<Seq<char>, Error>(Error::TypeError)
        }),
{
    lemma_command_words();
    input_type.lemma_name_parses();
    output_type.lemma_name_parses();
    other_type.lemma_name_parses();
    let declare = seq!["declare_func"@, name, input_type.name(), output_type.name()];
    let invoke = seq!["call"@, name, other_type.name()];
    lemma_tokens_unwords(declare);
    lemma_tokens_unwords(invoke);
}

/// A call whose one argument is the name of a type is checked on that type.
proof fn lemma_call_on_type_names(env: Registry, name: Seq<char>, arg_type: Type)
    ensures
        call(env, seq![name, arg_type.name()]).env == env,
        call(env, seq![name, arg_type.name()]).result == (match env.call_function(
            name,
            seq![arg_type],
        ) {
            Ok(return_type) => Ok::<Seq<char>, Error>(call_line(name, return_type)),
            Err(e) => Err(e),
        }),
{
    arg_type.lemma_name_parses();
    let args = seq![name, arg_type.name()];
    let resolved = args.drop_first().map_values(|token: Seq<char>| resolve(env, token));
    assert(resolved.map_values(|found: Option<Type>| found->0) =~= seq![arg_type]);
}

} // verus!
