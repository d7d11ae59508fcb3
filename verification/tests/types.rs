use std::str::FromStr;
use type_env::render::{show_call, show_function, show_variable};
use type_env::types::type_enum::Type;
use type_env::types::type_error::Error;

#[test]
fn type_names_are_exact() {
    assert_eq!(Type::from_str("Int"), Ok(Type::Int));
    assert_eq!(Type::from_str("Float"), Ok(Type::Float));
    assert_eq!(Type::from_str("Bool"), Ok(Type::Bool));
    assert_eq!("Bool".parse::<Type>(), Ok(Type::Bool));
    for token in ["int", "INT", "Int ", " Int", "", "Integer", "In", "float", "Boolean", "bool"] {
        assert_eq!(Type::from_str(token), Err(()), "{:?}", token);
    }
}

#[test]
fn type_is_written_as_it_is_read() {
    for var_type in [Type::Int, Type::Float, Type::Bool] {
        assert_eq!(Type::from_str(var_type.as_str()), Ok(var_type));
        assert_eq!(var_type.as_str(), format!("{:?}", var_type));
    }
    assert_eq!(Type::Int.as_str(), "Int");
    assert_eq!(Type::Float.as_str(), "Float");
    assert_eq!(Type::Bool.as_str(), "Bool");
}

#[test]
fn types_agree_only_with_themselves() {
    assert_eq!(Type::Int, Type::Int);
    assert_ne!(Type::Int, Type::Float);
    assert_ne!(Type::Float, Type::Bool);
    assert_ne!(Type::Bool, Type::Int);
}

#[test]
fn error_messages() {
    assert_eq!(Error::TypeError.to_string(), "Type Error");
    assert_eq!(Error::UndeclaredFunction.to_string(), "Undeclared Function");
    assert_eq!(Error::UndeclaredVariable.to_string(), "Undeclared Variable");
}

#[test]
fn lines_are_rendered_exactly() {
    assert_eq!(show_variable("x", Type::Int), "x :: Int");
    assert_eq!(show_variable("", Type::Bool), " :: Bool");
    assert_eq!(show_call("add", Type::Float), "Called function add with return type Float");
    assert_eq!(show_function("f", Type::Bool, &[Type::Int]), "f :: Int -> Bool");
    assert_eq!(show_function("f", Type::Bool, &[Type::Int, Type::Float]), "f :: Int -> Float -> Bool");
    assert_eq!(show_function("f", Type::Bool, &[]), "f ::  -> Bool");
}
