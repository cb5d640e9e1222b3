//! User-input errors from argument parsing: recoverable, reported with
//! the offending token, and never reached after any state mutation.

use vstd::prelude::*;
use vstd::string::*;

verus! {

/// A bad command-line argument, with the message and the token.
#[derive(Debug)]
pub struct ArgError {
    pub message: String,
    pub arg: String,
}

impl ArgError {
    pub fn new(message: &str, arg: &str) -> (r: ArgError)
        ensures
            r.message@ == message@,
            r.arg@ == arg@,
    {
        ArgError { message: String::from_str(message), arg: String::from_str(arg) }
    }

    /// The full report, `message: token`.
    pub fn text(&self) -> (r: String)
        ensures
            r@ == self.message@ + ": "@ + self.arg@,
    {
        let mut out = self.message.clone();
        out.append(": ");
        out.append(self.arg.as_str());
        out
    }
}

/// Rejects any argument left beyond `from`.
pub fn check_no_more_arguments(args: &Vec<String>, from: usize) -> (r: Result<(), ArgError>)
    ensures
        match r {
            Ok(()) => from >= args@.len(),
            Err(e) => {
                &&& from < args@.len()
                &&& e.message@ == "Argumento em excesso"@
                &&& e.arg@ == args@[from as int]@
            },
        },
{
    if from < args.len() {
        exceeding_argument_error(args[from].as_str())
    } else {
        Ok(())
    }
}

/// An argument beyond what the command takes.
pub fn exceeding_argument_error<T>(arg: &str) -> (r: Result<T, ArgError>)
    ensures
        r is Err,
        r->Err_0.message@ == "Argumento em excesso"@,
        r->Err_0.arg@ == arg@,
{
    Err(ArgError::new("Argumento em excesso", arg))
}

/// An argument the command does not know.
pub fn unknown_argument_error<T>(arg: &str) -> (r: Result<T, ArgError>)
    ensures
        r is Err,
        r->Err_0.message@ == "Argumento inesperado"@,
        r->Err_0.arg@ == arg@,
{
    Err(ArgError::new("Argumento inesperado", arg))
}

/// A required argument that was not given; `name` names the missing one.
pub fn missing_argument_error<T>(name: &str) -> (r: Result<T, ArgError>)
    ensures
        r is Err,
        r->Err_0.message@ == "Argumento faltando"@,
        r->Err_0.arg@ == name@,
{
    Err(ArgError::new("Argumento faltando", name))
}

} // verus!
