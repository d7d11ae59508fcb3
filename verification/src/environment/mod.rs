//! The registry of declared variables and functions, as a mathematical
//! value and as the executable structure that stands for it.

use crate::types::type_enum::Type;
use crate::types::type_error::Error;
use vstd::hash_map::StringHashMap;
use vstd::prelude::*;
use vstd::slice::slice_to_vec;

verus! {

/// What is recorded of a function: the type it returns and the types of
/// its parameters, in order.
pub struct Signature {
    pub return_type: Type,
    pub parameter_types: Seq<Type>,
}

/// What a name stands for.
pub enum Entry {
    Variable(Type),
    Function(Signature),
}

/// The registry as a mathematical value: two maps from names to what was
/// declared under them. A name may be in both.
pub struct Registry {
    pub variables: Map<Seq<char>, Type>,
    pub functions: Map<Seq<char>, Signature>,
}

impl Signature {
    /// The signature of a function of one parameter.
    pub open spec fn unary(input_type: Type, output_type: Type) -> Signature {
        Signature { return_type: output_type, parameter_types: seq![input_type] }
    }

    /// The signature that a stored pair stands for.
    pub open spec fn of(stored: (Type, Vec<Type>)) -> Signature {
        Signature { return_type: stored.0, parameter_types: stored.1@ }
    }
}

impl Registry {
    /// The functions that every registry starts with.
    pub open spec fn builtins() -> Map<Seq<char>, Signature> {
        Map::empty()
            .insert("add"@, Signature::unary(Type::Int, Type::Int))
            .insert("sub"@, Signature::unary(Type::Int, Type::Int))
            .insert("mul"@, Signature::unary(Type::Int, Type::Int))
            .insert("div"@, Signature::unary(Type::Int, Type::Float))
            .insert("and"@, Signature::unary(Type::Bool, Type::Bool))
    }

    /// The registry before any declaration: no variable, and the built-in
    /// functions.
    pub open spec fn initial() -> Registry {
        Registry { variables: Map::empty(), functions: Registry::builtins() }
    }

    /// Records `var_type` under `name`, in place of what was there.
    pub open spec fn declare_variable(self, name: Seq<char>, var_type: Type) -> Registry {
        Registry { variables: self.variables.insert(name, var_type), functions: self.functions }
    }

    /// Records a function of one parameter under `name`, in place of what
    /// was there, a built-in too.
    pub open spec fn declare_function(
        self,
        name: Seq<char>,
        input_type: Type,
        output_type: Type,
    ) -> Registry {
        Registry {
            variables: self.variables,
            functions: self.functions.insert(name, Signature::unary(input_type, output_type)),
        }
    }

    /// The type that a call of `name` on arguments of the types `args`
    /// returns. The call is well typed where the arguments are as many as
    /// the parameters and agree with them type for type, in order.
    pub open spec fn call_function(self, name: Seq<char>, args: Seq<Type>) -> Result<Type, Error> {
        if !self.functions.contains_key(name) {
            Err(Error::UndeclaredFunction)
        } else if args != self.functions[name].parameter_types {
            Err(Error::TypeError)
        } else {
            Ok(self.functions[name].return_type)
        }
    }

    /// What `name` stands for: the variable where there is one, else the
    /// function.
    pub open spec fn lookup(self, name: Seq<char>) -> Result<Entry, Error> {
        if self.variables.contains_key(name) {
            Ok(Entry::Variable(self.variables[name]))
        } else if self.functions.contains_key(name) {
            Ok(Entry::Function(self.functions[name]))
        } else {
            Err(Error::UndeclaredVariable)
        }
    }
}

/// The built-in table, name by name: five names, no two of them the same,
/// each with the signature it starts with.
pub proof fn lemma_builtins()
    ensures
        Registry::builtins().dom() =~= set!["add"@, "sub"@, "mul"@, "div"@, "and"@],
        Registry::builtins()["add"@] == Signature::unary(Type::Int, Type::Int),
        Registry::builtins()["sub"@] == Signature::unary(Type::Int, Type::Int),
        Registry::builtins()["mul"@] == Signature::unary(Type::Int, Type::Int),
        Registry::builtins()["div"@] == Signature::unary(Type::Int, Type::Float),
        Registry::builtins()["and"@] == Signature::unary(Type::Bool, Type::Bool),
{
    reveal_strlit("add");
    reveal_strlit("sub");
    reveal_strlit("mul");
    reveal_strlit("div");
    reveal_strlit("and");
    assert("add"@[0] == 'a' && "add"@[1] == 'd');
    assert("sub"@[0] == 's');
    assert("mul"@[0] == 'm');
    assert("div"@[0] == 'd');
    assert("and"@[0] == 'a' && "and"@[1] == 'n');
}

/// What `lookup` finds under a name.
#[derive(Debug, PartialEq, Eq)]
pub enum Declaration {
    /// A variable and its type.
    Variable(Type),
    /// A function: the type it returns, then the types of its parameters.
    Function(Type, Vec<Type>),
}

impl View for Declaration {
    type V = Entry;

    open spec fn view(&self) -> Entry {
        match *self {
            Declaration::Variable(var_type) => Entry::Variable(var_type),
            Declaration::Function(return_type, parameter_types) => Entry::Function(
                Signature { return_type, parameter_types: parameter_types@ },
            ),
        }
    }
}

/// The registry of declared variables and functions.
pub struct Environment {
    /// The type of each declared variable.
    pub variables: StringHashMap<Type>,
    /// For each declared function, the type it returns and the types of its
    /// parameters.
    pub functions: StringHashMap<(Type, Vec<Type>)>,
}

impl View for Environment {
    type V = Registry;

    open spec fn view(&self) -> Registry {
        Registry {
            variables: self.variables@,
            functions: self.functions@.map_values(|stored: (Type, Vec<Type>)| Signature::of(stored)),
        }
    }
}

impl Environment {
    /// A registry with no variable and the built-in functions.
    pub fn new() -> (env: Environment)
        ensures
            env@ == Registry::initial(),
    {
        let mut env = Environment { variables: StringHashMap::new(), functions: StringHashMap::new() };
        assert(env@.functions =~= Map::empty());
        env.declare_function("add", Type::Int, Type::Int);
        env.declare_function("sub", Type::Int, Type::Int);
        env.declare_function("mul", Type::Int, Type::Int);
        env.declare_function("div", Type::Int, Type::Float);
        env.declare_function("and", Type::Bool, Type::Bool);
        env
    }

    /// Declares a variable. A name that is already declared takes the new
    /// type.
    pub fn declare_variable(&mut self, name: &str, var_type: Type)
        ensures
            final(self)@ == old(self)@.declare_variable(name@, var_type),
    {
        self.variables.insert(name.to_owned(), var_type);
    }

    /// Checks a call of `name` on arguments of the types `args`, and gives
    /// the type that the call returns.
    pub fn call_function(&self, name: &str, args: &[Type]) -> (r: Result<Type, Error>)
        ensures
            r == self@.call_function(name@, args@),
    {
        match self.functions.get(name) {
            Some(stored) => {
                let input_types = &stored.1;
                if input_types.len() != args.len() {
                    return Err(Error::TypeError);
                }
                let mut i: usize = 0;
                while i < args.len()
                    invariant
                        i <= args@.len(),
                        args@.len() == input_types@.len(),
                        args@.take(i as int) == input_types@.take(i as int),
                        self@.functions.contains_key(name@),
                        self@.functions[name@].parameter_types == input_types@,
                    decreases args@.len() - i,
                {
                    if args[i] != input_types[i] {
                        return Err(Error::TypeError);
                    }
                    i = i + 1;
                }
                assert(args@ == args@.take(i as int));
                assert(input_types@ == input_types@.take(i as int));
                Ok(stored.0)
            },
            None => Err(Error::UndeclaredFunction),
        }
    }

    /// Declares a function of one parameter. A name that is already
    /// declared, a built-in too, takes the new signature.
    pub fn declare_function(&mut self, name: &str, input_type: Type, output_type: Type)
        ensures
            final(self)@ == old(self)@.declare_function(name@, input_type, output_type),
    {
        let parameter_types = vec![input_type];
        assert(parameter_types@ =~= seq![input_type]);
        self.functions.insert(name.to_owned(), (output_type, parameter_types));
        assert(self@.functions =~= old(self)@.functions.insert(
            name@,
            Signature::unary(input_type, output_type),
        ));
    }

    /// Finds what `name` stands for. A variable hides a function of the
    /// same name.
    pub fn lookup(&self, name: &str) -> (r: Result<Declaration, Error>)
        ensures
            self@.lookup(name@) == (match r {
                Ok(found) => Ok::<Entry, Error>(found@),
                Err(e) => Err(e),
            }),
    {
        match self.variables.get(name) {
            Some(var_type) => Ok(Declaration::Variable(*var_type)),
            None => match self.functions.get(name) {
                Some(stored) => Ok(
                    Declaration::Function(stored.0, slice_to_vec(stored.1.as_slice())),
                ),
                None => Err(Error::UndeclaredVariable),
            },
        }
    }
}

} // verus!
