//! The command line: which command was asked for, with its arguments.

pub mod errors;
pub mod script_args;

use vstd::prelude::*;
use vstd::string::*;

use crate::args::errors::{
    check_no_more_arguments, exceeding_argument_error, missing_argument_error,
    unknown_argument_error, ArgError,
};
use crate::dialog::Mode;
use crate::host_os::{predefined_scripts, PredefinedScript};
use crate::options_types::{
    lemma_from_code_unique, spec_from_code, Display, OperatingSystem, OptionType,
};
use crate::script::Script;
use crate::text::{parse_usize, spec_parse_usize, str_eq};

verus! {

/// What the command line asked for.
pub enum ParsedArgs {
    /// Show the dialog, in the given mode.
    Dialog(Mode),
    /// Print the current boot-intent state.
    ShowState,
    /// Execute the given script.
    Script(Script),
    /// Run the one-time configure step; on Windows the current display
    /// must be named.
    Configure { initial_display: Option<Display> },
    /// Print the usage text.
    Usage,
}

/// What a full command line means, given the arguments behind the
/// program name and the host's predefined script count.
pub open spec fn spec_parse_args(args: Seq<Seq<char>>, scripts: Seq<Script>) -> Result<
    ParsedArgs,
    (),
> {
    if args.len() == 0 {
        Ok(ParsedArgs::Dialog(Mode::Basic))
    } else {
        let arg = args[0];
        let rest = args.drop_first();
        if arg == "dialog"@ {
            if rest.len() == 0 {
                Ok(ParsedArgs::Dialog(Mode::Basic))
            } else if rest[0] == "-x"@ && rest.len() == 1 {
                Ok(ParsedArgs::Dialog(Mode::Advanced))
            } else {
                Err(())
            }
        } else if arg == "show"@ {
            if rest.len() == 0 {
                Ok(ParsedArgs::ShowState)
            } else {
                Err(())
            }
        } else if arg == "script"@ {
            if rest.len() == 0 {
                Err(())
            } else if rest.len() > 1 {
                Err(())
            } else {
                match spec_parse_usize(rest[0]) {
                    Some(number) => if 1 <= number && number <= scripts.len() {
                        Ok(ParsedArgs::Script(scripts[number - 1]))
                    } else {
                        Err(())
                    },
                    None => Err(()),
                }
            }
        } else if arg == "configure"@ {
            if rest.len() == 0 {
                Ok(ParsedArgs::Configure { initial_display: None })
            } else if rest.len() == 1 {
                match spec_from_code::<Display>(rest[0]) {
                    Some(d) => Ok(ParsedArgs::Configure { initial_display: Some(d) }),
                    None => Err(()),
                }
            } else {
                Err(())
            }
        } else if arg == "-h"@ || arg == "--help"@ {
            if rest.len() == 0 {
                Ok(ParsedArgs::Usage)
            } else {
                Err(())
            }
        } else {
            match crate::args::script_args::spec_parse(arg, rest) {
                Err(()) => Err(()),
                Ok(None) => Err(()),
                Ok(Some(script)) => Ok(ParsedArgs::Script(script)),
            }
        }
    }
}

/// Parses the whole command line (the program name already dropped).
/// `host_os` picks which predefined scripts `script NUMBER` refers to.
pub fn parse(args: &Vec<String>, host_os: OperatingSystem) -> (r: Result<ParsedArgs, ArgError>)
    ensures
        match spec_parse_args(args.deep_view(), spec_predefined(host_os)) {
            Ok(p) => r is Ok && r->Ok_0 == p,
            Err(()) => r is Err,
        },
{
    let ghost argsd = args.deep_view();
    proof {
        assert(argsd.len() == args@.len());
    }
    if args.len() == 0 {
        return Ok(ParsedArgs::Dialog(Mode::Basic));
    }
    let ghost rest = argsd.drop_first();
    proof {
        assert(rest.len() == argsd.len() - 1);
        assert forall|j: int| 0 <= j < rest.len() implies rest[j] == argsd[j + 1] by {}
        assert(forall|j: int| 0 <= j < argsd.len() ==> args@[j]@ == argsd[j]);
    }
    let arg = &args[0];
    if str_eq(arg.as_str(), "dialog") {
        if args.len() == 1 {
            Ok(ParsedArgs::Dialog(Mode::Basic))
        } else if str_eq(args[1].as_str(), "-x") && args.len() == 2 {
            Ok(ParsedArgs::Dialog(Mode::Advanced))
        } else if str_eq(args[1].as_str(), "-x") {
            // `dialog -x` takes nothing more.
            exceeding_argument_error(args[2].as_str())
        } else {
            unknown_argument_error(args[1].as_str())
        }
    } else if str_eq(arg.as_str(), "show") {
        match check_no_more_arguments(args, 1) {
            Err(e) => Err(e),
            Ok(()) => Ok(ParsedArgs::ShowState),
        }
    } else if str_eq(arg.as_str(), "script") {
        let scripts = predefined_scripts(host_os);
        if args.len() < 2 {
            return missing_argument_error("NÚMERO");
        }
        let number_arg = &args[1];
        let in_range = match parse_usize(number_arg.as_str()) {
            Some(number) => if 1 <= number && number <= scripts.len() {
                Some(number)
            } else {
                None
            },
            None => None,
        };
        match in_range {
            None => {
                let mut msg = String::from_str(
                    "Número inválido de script para o sistema operacional atual (mín: 1; máx: ",
                );
                msg.append(if scripts.len() == 1 {
                    "1"
                } else {
                    "2"
                });
                msg.append(")");
                Err(ArgError::new(msg.as_str(), number_arg.as_str()))
            },
            Some(number) => match check_no_more_arguments(args, 2) {
                Err(e) => Err(e),
                Ok(()) => Ok(ParsedArgs::Script(scripts[number - 1].script)),
            },
        }
    } else if str_eq(arg.as_str(), "configure") {
        if args.len() == 1 {
            return Ok(ParsedArgs::Configure { initial_display: None });
        }
        let display_arg = &args[1];
        match Display::from_option_string(display_arg.as_str()) {
            Some(d) => {
                proof {
                    lemma_from_code_unique::<Display>(d, display_arg@);
                }
                match check_no_more_arguments(args, 2) {
                    Err(e) => Err(e),
                    Ok(()) => Ok(ParsedArgs::Configure { initial_display: Some(d) }),
                }
            },
            None => unknown_argument_error(display_arg.as_str()),
        }
    } else if str_eq(arg.as_str(), "-h") || str_eq(arg.as_str(), "--help") {
        match check_no_more_arguments(args, 1) {
            Err(e) => Err(e),
            Ok(()) => Ok(ParsedArgs::Usage),
        }
    } else {
        let tail: Vec<String> = tail_of(args);
        proof {
            assert(tail.deep_view() =~~= rest);
        }
        match crate::args::script_args::parse(arg.as_str(), &tail) {
            Err(e) => Err(e),
            Ok(None) => unknown_argument_error(arg.as_str()),
            Ok(Some(script)) => Ok(ParsedArgs::Script(script)),
        }
    }
}

/// The spec-level predefined scripts, for the parse contract.
pub open spec fn spec_predefined(host_os: OperatingSystem) -> Seq<Script> {
    crate::host_os::spec_predefined_scripts(host_os)
}

/// A copy of the arguments behind the first.
fn tail_of(args: &Vec<String>) -> (r: Vec<String>)
    requires
        args@.len() >= 1,
    ensures
        r.deep_view() == args.deep_view().drop_first(),
{
    let mut r: Vec<String> = Vec::new();
    let n = args.len();
    let mut i: usize = 1;
    while i < n
        invariant
            1 <= i <= n,
            n == args@.len(),
            r@.len() == i - 1,
            forall|j: int| 0 <= j < i - 1 ==> (#[trigger] r@[j])@ == args@[j + 1]@,
        decreases n - i,
    {
        let ghost r0 = r@;
        r.push(args[i].clone());
        proof {
            assert forall|j: int| 0 <= j < i as int implies (#[trigger] r@[j])@ == args@[j
                + 1]@ by {
                if j < i - 1 {
                    assert(r@[j] == r0[j]);
                }
            }
        }
        i += 1;
    }
    proof {
        let dv = r.deep_view();
        let target = args.deep_view().drop_first();
        assert(dv.len() == target.len());
        assert forall|j: int| 0 <= j < dv.len() implies dv[j] == target[j] by {
            assert(dv[j] == r@[j]@);
            assert(target[j] == args@[j + 1]@);
        }
        assert(dv =~= target);
    }
    r
}

} // verus!
