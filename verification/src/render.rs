//! The lines that commands answer with.

use crate::environment::Signature;
use crate::types::type_enum::Type;
use vstd::prelude::*;
use vstd::string::StringExecFns;

verus! {

/// How a variable is shown: the name, ` :: `, and the type.
pub open spec fn variable_line(name: Seq<char>, var_type: Type) -> Seq<char> {
    name + " :: "@ + var_type.name()
}

/// The written forms of `types`, in order, with ` -> ` between neighbours.
pub open spec fn arrows(types: Seq<Type>) -> Seq<char>
    decreases types.len(),
{
    if types.len() == 0 {
        Seq::empty()
    } else if types.len() == 1 {
        types[0].name()
    } else {
        arrows(types.drop_last()) + " -> "@ + types.last().name()
    }
}

/// How a function is shown: the name, ` :: `, the parameter types joined by
/// ` -> `, then ` -> ` and the return type.
pub open spec fn function_line(name: Seq<char>, signature: Signature) -> Seq<char> {
    name + " :: "@ + arrows(signature.parameter_types) + " -> "@ + signature.return_type.name()
}

/// What a well-typed call reports: the function and the type it returns.
pub open spec fn call_line(name: Seq<char>, return_type: Type) -> Seq<char> {
    "Called function "@ + name + " with return type "@ + return_type.name()
}

/// Renders a variable and its type.
pub fn show_variable(name: &str, var_type: Type) -> (line: String)
    ensures
        line@ == variable_line(name@, var_type),
{
    let mut line = name.to_owned();
    line.append(" :: ");
    line.append(var_type.as_str());
    line
}

/// Renders a function and its signature.
pub fn show_function(name: &str, return_type: Type, parameter_types: &[Type]) -> (line: String)
    ensures
        line@ == function_line(
            name@,
            Signature { return_type, parameter_types: parameter_types@ },
        ),
{
    let mut line = name.to_owned();
    line.append(" :: ");
    let ghost head = line@;
    let mut i: usize = 0;
    while i < parameter_types.len()
        invariant
            i <= parameter_types@.len(),
            line@ == head + arrows(parameter_types@.take(i as int)),
        decreases parameter_types@.len() - i,
    {
        let ghost before = parameter_types@.take(i as int);
        let ghost after = parameter_types@.take(i + 1);
        assert(after.drop_last() =~= before);
        if i > 0 {
            line.append(" -> ");
        }
        line.append(parameter_types[i].as_str());
        i = i + 1;
    }
    assert(parameter_types@.take(i as int) =~= parameter_types@);
    line.append(" -> ");
    line.append(return_type.as_str());
    line
}

/// Renders the report of a well-typed call.
pub fn show_call(name: &str, return_type: Type) -> (line: String)
    ensures
        line@ == call_line(name@, return_type),
{
    let mut line = "Called function ".to_owned();
    line.append(name);
    line.append(" with return type ");
    line.append(return_type.as_str());
    line
}

} // verus!
