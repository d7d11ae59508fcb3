use type_env::session::{respond, Reply};
use type_env::types::type_enum::Type;
use type_env::Environment;

fn print(line: &str) -> Reply {
    Reply::Print(line.to_string())
}

#[test]
fn quit_and_exit_end_the_session() {
    let mut env = Environment::new();
    for line in ["quit", "exit", " quit", "exit\n", "\t quit \r\n", "\u{a0}exit\u{3000}"] {
        assert_eq!(respond(line, &mut env), Reply::Quit);
    }
    assert_eq!(env.variables.len(), 0);
    assert_eq!(env.functions.len(), 5);
}

#[test]
fn only_the_bare_word_ends_the_session() {
    let mut env = Environment::new();
    for line in ["quit now", "exit 0", "Quit", "EXIT", "quit quit", "q", "exit!", "show quit"] {
        assert_ne!(respond(line, &mut env), Reply::Quit, "{:?}", line);
    }
    assert_eq!(respond("quit now", &mut env), print("Error: Type Error"));
    assert_eq!(respond("show quit", &mut env), print("Error: Undeclared Variable"));
}

#[test]
fn blank_line_prints_nothing() {
    let mut env = Environment::new();
    for line in ["", "\n", "   \r\n", "\t"] {
        assert_eq!(respond(line, &mut env), Reply::Silent);
    }
}

#[test]
fn answers_are_printed_as_they_are() {
    let mut env = Environment::new();
    assert_eq!(respond("declare_var x Int\n", &mut env), print("x :: Int"));
    assert_eq!(env.variables.get("x"), Some(&Type::Int));
    assert_eq!(respond("show x\n", &mut env), print("x :: Int"));
    assert_eq!(respond("declare_func neg Int Int\n", &mut env), print("neg :: Int -> Int"));
    assert_eq!(respond("call neg x\n", &mut env), print("Called function neg with return type Int"));
    assert_eq!(respond("declare_var quit Bool\n", &mut env), print("quit :: Bool"));
    assert_eq!(respond("quit\n", &mut env), Reply::Quit);
}

#[test]
fn errors_are_printed_with_their_message() {
    let mut env = Environment::new();
    assert_eq!(respond("call add Float\n", &mut env), print("Error: Type Error"));
    assert_eq!(respond("call ghost Int\n", &mut env), print("Error: Undeclared Function"));
    assert_eq!(respond("show ghost\n", &mut env), print("Error: Undeclared Variable"));
    assert_eq!(respond("call add y\n", &mut env), print("Error: Undeclared Variable"));
    assert_eq!(respond("nonsense_command x y\n", &mut env), print("Error: Type Error"));
    assert_eq!(env.variables.len(), 0);
    assert_eq!(env.functions.len(), 5);
}
