//! One turn of an interactive session: what the program that reads the
//! lines is to do with each of them.

use crate::environment::{Environment, Registry};
use crate::protocol;
use crate::run;
use crate::text::{str_eq, texts, tokenize, tokens};
use vstd::prelude::*;
use vstd::string::StringExecFns;

verus! {

/// What is to be done after a line, as a mathematical value.
pub enum Response {
    Quit,
    Silent,
    Print(Seq<char>),
}

/// What one turn does: the registry it leaves, and what is to be done next.
pub struct Turn {
    pub env: Registry,
    pub response: Response,
}

/// What is to be done after a line.
#[derive(Debug, PartialEq, Eq)]
pub enum Reply {
    /// The session ends.
    Quit,
    /// The session goes on, and nothing is printed.
    Silent,
    /// The session goes on, and this line is printed.
    Print(String),
}

impl View for Reply {
    type V = Response;

    open spec fn view(&self) -> Response {
        match *self {
            Reply::Quit => Response::Quit,
            Reply::Silent => Response::Silent,
            Reply::Print(line) => Response::Print(line@),
        }
    }
}

/// Whether a line ends the session: it holds the one word `quit` or the one
/// word `exit`, with any whitespace around it.
pub open spec fn ends_session(line: Seq<char>) -> bool {
    tokens(line) == seq!["quit"@] || tokens(line) == seq!["exit"@]
}

/// One turn. A line that ends the session is not run. Any other line is run
/// as a command: an answer that is not empty is printed as it is, and an
/// error is printed as `Error: ` and its message.
pub open spec fn turn(env: Registry, line: Seq<char>) -> Turn {
    if ends_session(line) {
        Turn { env, response: Response::Quit }
    } else {
        let outcome = protocol::process(env, line);
        Turn {
            env: outcome.env,
            response: match outcome.result {
                Ok(answer) => if answer.len() == 0 {
                    Response::Silent
                } else {
                    Response::Print(answer)
                },
                Err(e) => Response::Print("Error: "@ + e.message()),
            },
        }
    }
}

/// Takes one turn of a session on `line`.
pub fn respond(line: &str, env: &mut Environment) -> (reply: Reply)
    ensures
        final(env)@ == turn(old(env)@, line@).env,
        reply@ == turn(old(env)@, line@).response,
{
    let words = tokenize(line);
    if words.len() == 1 && (str_eq(words[0], "quit") || str_eq(words[0], "exit")) {
        assert(texts(words@) =~= seq![words[0]@]);
        return Reply::Quit;
    }
    assert(!ends_session(line@)) by {
        if ends_session(line@) {
            assert(texts(words@)[0] == words[0]@);
        }
    }
    match run(words.as_slice(), env) {
        Ok(answer) => {
            if answer.as_str().is_empty() {
                Reply::Silent
            } else {
                Reply::Print(answer)
            }
        },
        Err(e) => {
            let mut text = "Error: ".to_owned();
            text.append(e.to_string().as_str());
            Reply::Print(text)
        },
    }
}

} // verus!
