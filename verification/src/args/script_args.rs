//! Parsing of script arguments: `os:windows`, `display:tv`,
//! `switch:saved`, `reboot` and friends.
//!
//! Each axis of a script may be given at most once; a repeated axis is
//! a user error at parse time, so a built `Script` never holds a
//! duplicate.

use vstd::prelude::*;
use vstd::string::*;

use crate::args::errors::{unknown_argument_error, ArgError};
use crate::options_types::{
    lemma_from_code_unique, spec_from_code, Display, OperatingSystem, OptionType, RebootAction,
};
use crate::script::{Script, SetOrUnset, SwitchToDisplay};
use crate::text::{is_prefixed, str_eq, strip_prefix};

verus! {

/// How one argument relates to one axis: not for this axis at all, a
/// malformed token for this axis, or a concrete action.
pub enum ArgMatch<T> {
    NotThisAxis,
    Unknown,
    Action(T),
}

/// What a boot-option argument means for a catalog `T` under a prefix
/// such as `os:`: prefixed `unset` clears, a prefixed or bare code
/// assigns, a prefixed unknown token is malformed, anything else is not
/// this axis.
pub open spec fn spec_boot_option_action<T: OptionType>(arg: Seq<char>, prefix: Seq<char>) -> ArgMatch<
    SetOrUnset<T>,
> {
    if is_prefixed(arg, prefix) {
        let rest = arg.skip(prefix.len() as int);
        if rest == "unset"@ {
            ArgMatch::Action(SetOrUnset::Unset)
        } else {
            match spec_from_code::<T>(rest) {
                Some(v) => ArgMatch::Action(SetOrUnset::Assign(v)),
                None => ArgMatch::Unknown,
            }
        }
    } else {
        match spec_from_code::<T>(arg) {
            Some(v) => ArgMatch::Action(SetOrUnset::Assign(v)),
            None => ArgMatch::NotThisAxis,
        }
    }
}

/// What a switch argument means: `switch` and `switch:other` target the
/// other display, `switch:saved` the saved one, `switch:{code}` a named
/// one; an unknown token behind `switch:` is malformed.
pub open spec fn spec_switch_action(arg: Seq<char>) -> ArgMatch<SwitchToDisplay> {
    if is_prefixed(arg, "switch:"@) {
        let rest = arg.skip("switch:"@.len() as int);
        if rest == "saved"@ {
            ArgMatch::Action(SwitchToDisplay::Saved)
        } else if rest == "other"@ {
            ArgMatch::Action(SwitchToDisplay::Other)
        } else {
            match spec_from_code::<Display>(rest) {
                Some(d) => ArgMatch::Action(SwitchToDisplay::Display(d)),
                None => ArgMatch::Unknown,
            }
        }
    } else if arg == "switch"@ {
        ArgMatch::Action(SwitchToDisplay::Other)
    } else {
        ArgMatch::NotThisAxis
    }
}

/// What a reboot-action argument means: a bare action code or nothing.
pub open spec fn spec_reboot_action(arg: Seq<char>) -> ArgMatch<RebootAction> {
    match spec_from_code::<RebootAction>(arg) {
        Some(a) => ArgMatch::Action(a),
        None => ArgMatch::NotThisAxis,
    }
}

/// What one argument means for the whole script, trying the axes in
/// order: operating system, display, switch, reboot action.
pub open spec fn spec_single_action(arg: Seq<char>) -> ArgMatch<AxisAction> {
    match spec_boot_option_action::<OperatingSystem>(arg, "os:"@) {
        ArgMatch::Action(a) => ArgMatch::Action(AxisAction::BootOs(a)),
        ArgMatch::Unknown => ArgMatch::Unknown,
        ArgMatch::NotThisAxis => match spec_boot_option_action::<Display>(arg, "display:"@) {
            ArgMatch::Action(a) => ArgMatch::Action(AxisAction::BootDisplay(a)),
            ArgMatch::Unknown => ArgMatch::Unknown,
            ArgMatch::NotThisAxis => match spec_switch_action(arg) {
                ArgMatch::Action(a) => ArgMatch::Action(AxisAction::Switch(a)),
                ArgMatch::Unknown => ArgMatch::Unknown,
                ArgMatch::NotThisAxis => match spec_reboot_action(arg) {
                    ArgMatch::Action(a) => ArgMatch::Action(AxisAction::Reboot(a)),
                    ArgMatch::Unknown => ArgMatch::Unknown,
                    ArgMatch::NotThisAxis => ArgMatch::NotThisAxis,
                },
            },
        },
    }
}

/// The axis an argument drives, with its action.
pub enum AxisAction {
    BootOs(SetOrUnset<OperatingSystem>),
    BootDisplay(SetOrUnset<Display>),
    Switch(SwitchToDisplay),
    Reboot(RebootAction),
}

/// The effect of one argument on a script under construction: the new
/// script and whether the argument was recognized, or a user error
/// (malformed token, or an axis given twice).
pub open spec fn spec_apply_single(script: Script, arg: Seq<char>) -> Result<(Script, bool), ()> {
    match spec_single_action(arg) {
        ArgMatch::NotThisAxis => Ok((script, false)),
        ArgMatch::Unknown => Err(()),
        ArgMatch::Action(AxisAction::BootOs(a)) => match script.next_boot_operating_system {
            None => Ok(
                (
                    Script {
                        next_boot_operating_system: Some(a),
                        next_windows_boot_display: script.next_windows_boot_display,
                        switch_to_display: script.switch_to_display,
                        reboot_action: script.reboot_action,
                    },
                    true,
                ),
            ),
            Some(_) => Err(()),
        },
        ArgMatch::Action(AxisAction::BootDisplay(a)) => match script.next_windows_boot_display {
            None => Ok(
                (
                    Script {
                        next_boot_operating_system: script.next_boot_operating_system,
                        next_windows_boot_display: Some(a),
                        switch_to_display: script.switch_to_display,
                        reboot_action: script.reboot_action,
                    },
                    true,
                ),
            ),
            Some(_) => Err(()),
        },
        ArgMatch::Action(AxisAction::Switch(a)) => match script.switch_to_display {
            None => Ok(
                (
                    Script {
                        next_boot_operating_system: script.next_boot_operating_system,
                        next_windows_boot_display: script.next_windows_boot_display,
                        switch_to_display: Some(a),
                        reboot_action: script.reboot_action,
                    },
                    true,
                ),
            ),
            Some(_) => Err(()),
        },
        ArgMatch::Action(AxisAction::Reboot(a)) => match script.reboot_action {
            None => Ok(
                (
                    Script {
                        next_boot_operating_system: script.next_boot_operating_system,
                        next_windows_boot_display: script.next_windows_boot_display,
                        switch_to_display: script.switch_to_display,
                        reboot_action: Some(a),
                    },
                    true,
                ),
            ),
            Some(_) => Err(()),
        },
    }
}

/// Folding the remaining arguments into the script: every one must be
/// recognized; an unrecognized or repeated one is a user error.
pub open spec fn spec_parse_rest(script: Script, args: Seq<Seq<char>>) -> Result<Script, ()>
    decreases args.len(),
{
    if args.len() == 0 {
        Ok(script)
    } else {
        match spec_apply_single(script, args[0]) {
            Err(()) => Err(()),
            Ok((s2, true)) => spec_parse_rest(s2, args.drop_first()),
            Ok((s2, false)) => Err(()),
        }
    }
}

/// What parsing a whole script command line yields: `None` when the
/// first argument is no script argument at all (the caller tries other
/// commands), otherwise the script, with every later argument required
/// to be a script argument.
pub open spec fn spec_parse(arg: Seq<char>, args: Seq<Seq<char>>) -> Result<Option<Script>, ()> {
    match spec_apply_single(Script::spec_default(), arg) {
        Err(()) => Err(()),
        Ok((_, false)) => Ok(None),
        Ok((s, true)) => match spec_parse_rest(s, args) {
            Ok(s2) => Ok(Some(s2)),
            Err(()) => Err(()),
        },
    }
}

/// Parses a script from the first argument and the remaining ones.
pub fn parse(arg: &str, args: &Vec<String>) -> (r: Result<Option<Script>, ArgError>)
    ensures
        match spec_parse(arg@, args.deep_view()) {
            Ok(o) => r is Ok && r->Ok_0 == o,
            Err(()) => r is Err,
        },
{
    let ghost argsd = args.deep_view();
    let mut script = Script::new();
    match parse_single(arg, &mut script) {
        Err(e) => {
            return Err(e);
        },
        Ok(false) => {
            return Ok(None);
        },
        Ok(true) => {},
    }
    let n = args.len();
    let mut i: usize = 0;
    proof {
        assert(argsd.skip(0) =~= argsd);
        assert(argsd.len() == args@.len());
    }
    while i < n
        invariant
            argsd == args.deep_view(),
            argsd.len() == args@.len(),
            n == argsd.len(),
            i <= n,
            spec_parse(arg@, argsd) == match spec_parse_rest(script, argsd.skip(i as int)) {
                Ok(s2) => Ok::<Option<Script>, ()>(Some(s2)),
                Err(()) => Err::<Option<Script>, ()>(()),
            },
        decreases n - i,
    {
        let ghost t = argsd.skip(i as int);
        proof {
            assert(t[0] == argsd[i as int]);
            assert(t.drop_first() =~= argsd.skip(i as int + 1));
            assert(args@[i as int]@ == argsd[i as int]);
        }
        let a = &args[i];
        match parse_single(a.as_str(), &mut script) {
            Err(e) => {
                return Err(e);
            },
            Ok(false) => {
                return unknown_argument_error(a.as_str());
            },
            Ok(true) => {},
        }
        i += 1;
    }
    proof {
        assert(argsd.skip(n as int) =~= Seq::<Seq<char>>::empty());
    }
    Ok(Some(script))
}

/// Applies one argument to the script under construction; `Ok(false)`
/// means the argument drives no axis.
pub fn parse_single(arg: &str, script: &mut Script) -> (r: Result<bool, ArgError>)
    ensures
        match spec_apply_single(*old(script), arg@) {
            Ok((s2, b)) => r is Ok && r->Ok_0 == b && *final(script) == s2,
            Err(()) => r is Err && *final(script) == *old(script),
        },
{
    match parse_next_boot_operating_system(arg, script) {
        Err(e) => {
            return Err(e);
        },
        Ok(true) => {
            return Ok(true);
        },
        Ok(false) => {},
    }
    match parse_next_windows_boot_display(arg, script) {
        Err(e) => {
            return Err(e);
        },
        Ok(true) => {
            return Ok(true);
        },
        Ok(false) => {},
    }
    match parse_switch_to_display(arg, script) {
        Err(e) => {
            return Err(e);
        },
        Ok(true) => {
            return Ok(true);
        },
        Ok(false) => {},
    }
    match parse_reboot_action(arg, script) {
        Err(e) => {
            return Err(e);
        },
        Ok(true) => {
            return Ok(true);
        },
        Ok(false) => {},
    }
    Ok(false)
}

/// The next-boot-OS axis: `os:{code}`, a bare OS code, or `os:unset`.
pub fn parse_next_boot_operating_system(arg: &str, script: &mut Script) -> (r: Result<
    bool,
    ArgError,
>)
    ensures
        final(script).next_windows_boot_display == old(script).next_windows_boot_display,
        final(script).switch_to_display == old(script).switch_to_display,
        final(script).reboot_action == old(script).reboot_action,
        match spec_boot_option_action::<OperatingSystem>(arg@, "os:"@) {
            ArgMatch::NotThisAxis => r is Ok && r->Ok_0 == false && *final(script) == *old(script),
            ArgMatch::Unknown => r is Err && *final(script) == *old(script),
            ArgMatch::Action(a) => match old(script).next_boot_operating_system {
                None => r is Ok && r->Ok_0 == true && final(script).next_boot_operating_system
                    == Some(a),
                Some(_) => r is Err && *final(script) == *old(script),
            },
        },
{
    parse_boot_option(
        arg,
        &mut script.next_boot_operating_system,
        "os:",
        "sistema operacional a ser iniciado na próxima inicialização do computador",
    )
}

/// The next-Windows-boot-display axis: `display:{code}`, a bare display
/// code, or `display:unset`.
pub fn parse_next_windows_boot_display(arg: &str, script: &mut Script) -> (r: Result<
    bool,
    ArgError,
>)
    ensures
        final(script).next_boot_operating_system == old(script).next_boot_operating_system,
        final(script).switch_to_display == old(script).switch_to_display,
        final(script).reboot_action == old(script).reboot_action,
        match spec_boot_option_action::<Display>(arg@, "display:"@) {
            ArgMatch::NotThisAxis => r is Ok && r->Ok_0 == false && *final(script) == *old(script),
            ArgMatch::Unknown => r is Err && *final(script) == *old(script),
            ArgMatch::Action(a) => match old(script).next_windows_boot_display {
                None => r is Ok && r->Ok_0 == true && final(script).next_windows_boot_display
                    == Some(a),
                Some(_) => r is Err && *final(script) == *old(script),
            },
        },
{
    parse_boot_option(
        arg,
        &mut script.next_windows_boot_display,
        "display:",
        "tela a ser usada na próxima inicialização do Windows",
    )
}

/// One boot-option axis over any catalog: prefixed `unset` clears, a
/// prefixed or bare code assigns, and an axis may be given only once.
pub fn parse_boot_option<T: OptionType>(
    arg: &str,
    value: &mut Option<SetOrUnset<T>>,
    prefix: &str,
    descr: &str,
) -> (r: Result<bool, ArgError>)
    ensures
        match spec_boot_option_action::<T>(arg@, prefix@) {
            ArgMatch::NotThisAxis => r is Ok && r->Ok_0 == false && *final(value) == *old(value),
            ArgMatch::Unknown => r is Err && *final(value) == *old(value),
            ArgMatch::Action(a) => match *old(value) {
                None => r is Ok && r->Ok_0 == true && *final(value) == Some(a),
                Some(_) => r is Err && *final(value) == *old(value),
            },
        },
{
    let option: SetOrUnset<T> = match strip_prefix(arg, prefix) {
        Some(rest) => {
            if str_eq(rest, "unset") {
                SetOrUnset::Unset
            } else {
                match T::from_option_string(rest) {
                    Some(v) => {
                        proof {
                            lemma_from_code_unique::<T>(v, rest@);
                        }
                        SetOrUnset::Assign(v)
                    },
                    None => {
                        return unknown_argument_error(arg);
                    },
                }
            }
        },
        None => {
            match T::from_option_string(arg) {
                Some(v) => {
                    proof {
                        lemma_from_code_unique::<T>(v, arg@);
                    }
                    SetOrUnset::Assign(v)
                },
                None => {
                    return Ok(false);
                },
            }
        },
    };
    set_if_none(value, option, arg, descr)
}

/// The immediate-switch axis: `switch`, `switch:other`,
/// `switch:{code}` or `switch:saved`.
pub fn parse_switch_to_display(arg: &str, script: &mut Script) -> (r: Result<bool, ArgError>)
    ensures
        final(script).next_boot_operating_system == old(script).next_boot_operating_system,
        final(script).next_windows_boot_display == old(script).next_windows_boot_display,
        final(script).reboot_action == old(script).reboot_action,
        match spec_switch_action(arg@) {
            ArgMatch::NotThisAxis => r is Ok && r->Ok_0 == false && *final(script) == *old(script),
            ArgMatch::Unknown => r is Err && *final(script) == *old(script),
            ArgMatch::Action(a) => match old(script).switch_to_display {
                None => r is Ok && r->Ok_0 == true && final(script).switch_to_display == Some(a),
                Some(_) => r is Err && *final(script) == *old(script),
            },
        },
{
    let option: SwitchToDisplay = match strip_prefix(arg, "switch:") {
        Some(rest) => {
            if str_eq(rest, "saved") {
                SwitchToDisplay::Saved
            } else if str_eq(rest, "other") {
                SwitchToDisplay::Other
            } else {
                match Display::from_option_string(rest) {
                    Some(d) => {
                        proof {
                            lemma_from_code_unique::<Display>(d, rest@);
                        }
                        SwitchToDisplay::Display(d)
                    },
                    None => {
                        return unknown_argument_error(arg);
                    },
                }
            }
        },
        None => {
            if str_eq(arg, "switch") {
                SwitchToDisplay::Other
            } else {
                return Ok(false);
            }
        },
    };
    set_if_none(&mut script.switch_to_display, option, arg, "troca de tela")
}

/// The reboot-action axis: a bare `reboot` or `shutdown`.
pub fn parse_reboot_action(arg: &str, script: &mut Script) -> (r: Result<bool, ArgError>)
    ensures
        final(script).next_boot_operating_system == old(script).next_boot_operating_system,
        final(script).next_windows_boot_display == old(script).next_windows_boot_display,
        final(script).switch_to_display == old(script).switch_to_display,
        match spec_reboot_action(arg@) {
            ArgMatch::NotThisAxis => r is Ok && r->Ok_0 == false && *final(script) == *old(script),
            ArgMatch::Unknown => r is Err && *final(script) == *old(script),
            ArgMatch::Action(a) => match old(script).reboot_action {
                None => r is Ok && r->Ok_0 == true && final(script).reboot_action == Some(a),
                Some(_) => r is Err && *final(script) == *old(script),
            },
        },
{
    let option: RebootAction = match RebootAction::from_option_string(arg) {
        Some(a) => {
            proof {
                lemma_from_code_unique::<RebootAction>(a, arg@);
            }
            a
        },
        None => {
            return Ok(false);
        },
    };
    set_if_none(&mut script.reboot_action, option, arg, "ação")
}

/// Records an axis action only when the axis is still free; a repeated
/// axis is a user error.
pub fn set_if_none<T>(current: &mut Option<T>, new: T, arg: &str, descr: &str) -> (r: Result<
    bool,
    ArgError,
>)
    ensures
        (*old(current)) is None ==> {
            &&& *final(current) == Some(new)
            &&& r is Ok
            &&& r->Ok_0 == true
        },
        (*old(current)) is Some ==> {
            &&& *final(current) == *old(current)
            &&& r is Err
            &&& r->Err_0.message@ == "A opção de "@ + descr@
                + " não pode ser usada mais de uma vez"@
            &&& r->Err_0.arg@ == arg@
        },
{
    if current.is_none() {
        *current = Some(new);
        Ok(true)
    } else {
        repeated_option_error(descr, arg)
    }
}

/// The user error for an axis given more than once.
pub fn repeated_option_error<T>(option: &str, arg: &str) -> (r: Result<T, ArgError>)
    ensures
        r is Err,
        r->Err_0.message@ == "A opção de "@ + option@ + " não pode ser usada mais de uma vez"@,
        r->Err_0.arg@ == arg@,
{
    let mut message = String::from_str("A opção de ");
    message.append(option);
    message.append(" não pode ser usada mais de uma vez");
    Err(ArgError::new(message.as_str(), arg))
}

} // verus!
