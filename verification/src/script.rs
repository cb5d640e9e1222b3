//! Scripts: an ordered bundle of desired state changes, and the
//! decisions their execution takes.
//!
//! A script holds at most one action per axis: next-boot operating
//! system, next-Windows-boot display, an immediate display switch, and a
//! reboot/shutdown action.  Axes apply in that fixed order.  The
//! executor here makes every decision and mutates the in-memory stores;
//! the surrounding binary performs the file writes, the actual display
//! switch and the reboot call, in order, stopping at the first failure
//! (changes already applied stay applied).

use vstd::prelude::*;
use vstd::string::*;

use crate::configs::{spec_key_for, spec_resolve, Resolution};
use crate::errors::{CoreError, ErrorCategory};
use crate::file_content_as_hash_map::spec_serialize;
use crate::grubenv::{is_padded_content, spec_unpadded, GRUBENV_CONTENT_LENGTH};
use crate::options_types::{Display, OperatingSystem, OptionType, RebootAction};
use crate::properties::escaped_entries;
use crate::state::{grub_entry_key, windows_display_key, StateProvider};
use vstd::utf8::encode_utf8;

verus! {

/// A desired action on one nullable axis: assign a value, or clear it.
/// Distinct from `Option`, which describes current state.
#[derive(Clone, Copy, PartialEq, Eq, Debug)]
pub enum SetOrUnset<T> {
    Assign(T),
    Unset,
}

impl<T: Copy> SetOrUnset<T> {
    /// The value this action assigns, if any.
    pub open spec fn spec_to_option(self) -> Option<T> {
        match self {
            SetOrUnset::Assign(value) => Some(value),
            SetOrUnset::Unset => None,
        }
    }

    /// The value this action assigns, if any.
    pub fn to_option(self) -> (r: Option<T>)
        ensures
            r == self.spec_to_option(),
    {
        match self {
            SetOrUnset::Assign(value) => Some(value),
            SetOrUnset::Unset => None,
        }
    }
}

/// Which display an immediate switch targets.
#[derive(Clone, Copy, PartialEq, Eq, Structural, Debug)]
pub enum SwitchToDisplay {
    /// The one display that is not current.
    Other,
    /// A named display.
    Display(Display),
    /// The display saved for the next Windows boot; switching consumes
    /// the saved preference.
    Saved,
}

/// An ordered bundle of at most one desired action per axis.  The
/// argument parser never builds one with a repeated axis.
#[derive(Clone, Copy, Debug)]
pub struct Script {
    pub next_boot_operating_system: Option<SetOrUnset<OperatingSystem>>,
    pub next_windows_boot_display: Option<SetOrUnset<Display>>,
    pub switch_to_display: Option<SwitchToDisplay>,
    pub reboot_action: Option<RebootAction>,
}

impl Script {
    /// The empty script: every axis unspecified.
    pub open spec fn spec_default() -> Script {
        Script {
            next_boot_operating_system: None,
            next_windows_boot_display: None,
            switch_to_display: None,
            reboot_action: None,
        }
    }

    /// Runs this script against the given executor.  The surrounding
    /// binary owns the executor, probes the current display identifier,
    /// and performs the outcome's writes and actions in order.
    pub fn execute(&self, executor: &mut ScriptExecutor, current_device_id: Option<&str>) -> (r:
        ExecutionOutcome)
        requires
            old(executor).wf(),
        ensures
            final(executor).wf(),
            ScriptExecutor::execution_outcome_correct(
                *old(executor),
                *final(executor),
                *self,
                match current_device_id {
                    Some(id) => Some(id@),
                    None => None,
                },
                r,
            ),
    {
        executor.execute(self, current_device_id)
    }

    /// The empty script: every axis unspecified; executing it is a
    /// no-op.
    pub fn new() -> (r: Script)
        ensures
            r == Self::spec_default(),
            r.next_boot_operating_system is None,
            r.next_windows_boot_display is None,
            r.switch_to_display is None,
            r.reboot_action is None,
    {
        Script {
            next_boot_operating_system: None,
            next_windows_boot_display: None,
            switch_to_display: None,
            reboot_action: None,
        }
    }
}

/// What the executor decided about an immediate display switch.
pub enum SwitchDecision {
    /// The requested display is already current: print and do nothing.
    AlreadyCurrent(Display),
    /// `switch:saved` with no saved display: print and do nothing.
    SavedUndefined,
    /// `switch:saved` whose saved display is already current: print and
    /// do nothing, keeping the saved preference.
    SavedAlreadyCurrent(Display),
    /// Switch to the display using the given host command argument;
    /// when `consume_saved` holds, a successful switch must be followed
    /// by `finish_saved_display_switch`.
    Switch { to: Display, switch_arg: String, consume_saved: bool },
}

/// Applies a script's decisions to the in-memory stores.  The caller
/// performs each returned file write immediately, in call order.
pub struct ScriptExecutor {
    state_provider: StateProvider,
    dry_run: bool,
}

impl ScriptExecutor {
    pub closed spec fn wf(self) -> bool {
        self.state_provider.wf()
    }

    pub closed spec fn spec_state_provider(self) -> StateProvider {
        self.state_provider
    }

    pub closed spec fn spec_dry_run(self) -> bool {
        self.dry_run
    }

    /// Builds the executor.  With `dry_run`, reboot/shutdown is decided
    /// but must not be performed (a testing escape hatch).
    pub fn new(state_provider: StateProvider, dry_run: bool) -> (r: ScriptExecutor)
        requires
            state_provider.wf(),
        ensures
            r.wf(),
            r.spec_state_provider() == state_provider,
            r.spec_dry_run() == dry_run,
    {
        ScriptExecutor { state_provider, dry_run }
    }

    /// Gives the provider back, for reading state after execution.
    pub fn into_state_provider(self) -> (r: StateProvider)
        requires
            self.wf(),
        ensures
            r == self.spec_state_provider(),
            r.wf(),
    {
        self.state_provider
    }

    /// The boot block after the OS axis: the mapped entry written, or
    /// the saved entry removed.
    pub open spec fn os_axis_written(
        pre: StateProvider,
        post: StateProvider,
        a: SetOrUnset<OperatingSystem>,
    ) -> bool {
        match a {
            SetOrUnset::Assign(os) => {
                &&& pre.spec_configs()@.contains_key(spec_key_for(os, "grubEntry"@))
                &&& post.spec_grubenv()@ == pre.spec_grubenv()@.insert(
                    grub_entry_key(),
                    pre.spec_configs()@[spec_key_for(os, "grubEntry"@)],
                )
            },
            SetOrUnset::Unset => post.spec_grubenv()@ == pre.spec_grubenv()@.remove(
                grub_entry_key(),
            ),
        }
    }

    /// How the OS axis fails: a missing mapping leaves everything
    /// untouched; otherwise the write happened but no legal block image
    /// exists.
    pub open spec fn os_axis_failed(
        pre: StateProvider,
        post: StateProvider,
        a: SetOrUnset<OperatingSystem>,
    ) -> bool {
        match a {
            SetOrUnset::Assign(os) => if !pre.spec_configs()@.contains_key(
                spec_key_for(os, "grubEntry"@),
            ) {
                post == pre
            } else {
                &&& Self::os_axis_written(pre, post, a)
                &&& encode_utf8(spec_unpadded(post.spec_grubenv().entries_seq())).len()
                    > GRUBENV_CONTENT_LENGTH
            },
            SetOrUnset::Unset => {
                &&& Self::os_axis_written(pre, post, a)
                &&& encode_utf8(spec_unpadded(post.spec_grubenv().entries_seq())).len()
                    > GRUBENV_CONTENT_LENGTH
            },
        }
    }

    /// The options store after the display axis, with the exact file
    /// text it persists to.
    pub open spec fn display_axis_written(
        pre: StateProvider,
        post: StateProvider,
        a: SetOrUnset<Display>,
        content: Seq<char>,
    ) -> bool {
        &&& match a {
            SetOrUnset::Assign(d) => post.spec_options()@ == pre.spec_options()@.insert(
                windows_display_key(),
                d.spec_code(),
            ),
            SetOrUnset::Unset => post.spec_options()@ == pre.spec_options()@.remove(
                windows_display_key(),
            ),
        }
        &&& content == spec_serialize(escaped_entries(post.spec_options().entries_seq()))
    }

    /// Applies the next-boot-OS axis and returns the boot block bytes
    /// to write.
    pub fn apply_next_boot_operating_system(&mut self, os_option: &SetOrUnset<OperatingSystem>) -> (r:
        Result<String, CoreError>)
        requires
            old(self).wf(),
        ensures
            final(self).wf(),
            final(self).spec_dry_run() == old(self).spec_dry_run(),
            final(self).spec_state_provider().spec_options() == old(
                self,
            ).spec_state_provider().spec_options(),
            final(self).spec_state_provider().spec_configs() == old(
                self,
            ).spec_state_provider().spec_configs(),
            ({
                let pre = old(self).spec_state_provider();
                let post = final(self).spec_state_provider();
                match r {
                    Ok(content) => {
                        &&& Self::os_axis_written(pre, post, *os_option)
                        &&& is_padded_content(content@, post.spec_grubenv().entries_seq())
                    },
                    Err(e) => {
                        &&& e.category == ErrorCategory::Integrity
                        &&& Self::os_axis_failed(pre, post, *os_option)
                    },
                }
            }),
    {
        match os_option {
            SetOrUnset::Assign(os) => self.state_provider.set_next_boot_operating_system(*os),
            SetOrUnset::Unset => self.state_provider.unset_next_boot_operating_system(),
        }
    }

    /// Applies the next-Windows-boot-display axis and returns the
    /// options file text to write.
    pub fn apply_next_windows_boot_display(&mut self, display_option: &SetOrUnset<Display>) -> (r:
        String)
        requires
            old(self).wf(),
        ensures
            final(self).wf(),
            final(self).spec_dry_run() == old(self).spec_dry_run(),
            final(self).spec_state_provider().spec_grubenv() == old(
                self,
            ).spec_state_provider().spec_grubenv(),
            final(self).spec_state_provider().spec_configs() == old(
                self,
            ).spec_state_provider().spec_configs(),
            Self::display_axis_written(
                old(self).spec_state_provider(),
                final(self).spec_state_provider(),
                *display_option,
                r@,
            ),
    {
        match display_option {
            SetOrUnset::Assign(d) => self.state_provider.set_next_windows_boot_display(*d),
            SetOrUnset::Unset => self.state_provider.unset_next_windows_boot_display(),
        }
    }

    /// Decides an immediate display switch from the probed device
    /// identifier.  Nothing is mutated: a switch that consumes the
    /// saved preference completes through
    /// `finish_saved_display_switch` only after the host reports
    /// success.
    pub fn decide_switch_to_display(
        &self,
        switch_to: &SwitchToDisplay,
        current_device_id: Option<&str>,
    ) -> (r: Result<SwitchDecision, CoreError>)
        requires
            self.wf(),
        ensures
            ({
                let p = self.spec_state_provider();
                match current_device_id {
                    None => r is Err && r->Err_0.category == ErrorCategory::User,
                    Some(id) => match spec_resolve(
                        Display::spec_values(),
                        "deviceId"@,
                        p.spec_configs()@,
                        id@,
                    ) {
                        Resolution::Found(from) => self.switch_decision_correct(
                            *switch_to,
                            from,
                            r,
                        ),
                        _ => r is Err && r->Err_0.category == ErrorCategory::Integrity,
                    },
                }
            }),
    {
        let from_display = match current_device_id {
            None => {
                return Err(
                    CoreError::user(
                        String::from_str(
                            "A troca de tela não é suportada no sistema operacional atual",
                        ),
                    ),
                );
            },
            Some(id) => match self.state_provider.get_display_by_device_id(id) {
                Ok(d) => d,
                Err(e) => {
                    return Err(e);
                },
            },
        };
        match switch_to {
            SwitchToDisplay::Other => {
                let to_display = from_display.other();
                let arg = match self.get_switch_arg(to_display) {
                    Ok(a) => a,
                    Err(e) => {
                        return Err(e);
                    },
                };
                Ok(SwitchDecision::Switch { to: to_display, switch_arg: arg, consume_saved: false })
            },
            SwitchToDisplay::Display(to_display) => {
                if *to_display == from_display {
                    Ok(SwitchDecision::AlreadyCurrent(*to_display))
                } else {
                    let arg = match self.get_switch_arg(*to_display) {
                        Ok(a) => a,
                        Err(e) => {
                            return Err(e);
                        },
                    };
                    Ok(
                        SwitchDecision::Switch {
                            to: *to_display,
                            switch_arg: arg,
                            consume_saved: false,
                        },
                    )
                }
            },
            SwitchToDisplay::Saved => {
                match self.state_provider.get_next_windows_boot_display() {
                    None => Ok(SwitchDecision::SavedUndefined),
                    Some(to_display) => {
                        if to_display == from_display {
                            Ok(SwitchDecision::SavedAlreadyCurrent(to_display))
                        } else {
                            let arg = match self.get_switch_arg(to_display) {
                                Ok(a) => a,
                                Err(e) => {
                                    return Err(e);
                                },
                            };
                            Ok(
                                SwitchDecision::Switch {
                                    to: to_display,
                                    switch_arg: arg,
                                    consume_saved: true,
                                },
                            )
                        }
                    },
                }
            },
        }
    }

    /// What a correct decision is, once the current display is known:
    /// `Other` switches to the one other display; a named display
    /// switches unless already current; `Saved` is a no-op without a
    /// saved display or when it is already current, and otherwise
    /// switches and consumes the preference.  Every switch carries the
    /// configured host argument; a missing argument mapping is a fatal
    /// misconfiguration.
    pub open spec fn switch_decision_correct(
        self,
        switch_to: SwitchToDisplay,
        from: Display,
        r: Result<SwitchDecision, CoreError>,
    ) -> bool {
        let p = self.spec_state_provider();
        match switch_to {
            SwitchToDisplay::Other => self.switch_or_integrity_error(from.spec_other(), false, r),
            SwitchToDisplay::Display(to) => if to == from {
                r == Ok::<SwitchDecision, CoreError>(SwitchDecision::AlreadyCurrent(to))
            } else {
                self.switch_or_integrity_error(to, false, r)
            },
            SwitchToDisplay::Saved => match p.spec_next_windows_boot_display() {
                None => r == Ok::<SwitchDecision, CoreError>(SwitchDecision::SavedUndefined),
                Some(to) => if to == from {
                    r == Ok::<SwitchDecision, CoreError>(SwitchDecision::SavedAlreadyCurrent(to))
                } else {
                    self.switch_or_integrity_error(to, true, r)
                },
            },
        }
    }

    /// Either the switch decision for `to`, with its configured
    /// argument, or an integrity error because the argument mapping is
    /// absent.
    pub open spec fn switch_or_integrity_error(
        self,
        to: Display,
        consume_saved: bool,
        r: Result<SwitchDecision, CoreError>,
    ) -> bool {
        let m = self.spec_state_provider().spec_configs()@;
        let k = spec_key_for(to, "displaySwitchArg"@);
        match r {
            Ok(d) => match d {
                SwitchDecision::Switch { to: t, switch_arg, consume_saved: c } => {
                    &&& t == to
                    &&& c == consume_saved
                    &&& m.contains_key(k)
                    &&& switch_arg@ == m[k]
                },
                _ => false,
            },
            Err(e) => !m.contains_key(k) && e.category == ErrorCategory::Integrity,
        }
    }

    /// The configured host argument that switches to `to`.
    fn get_switch_arg(&self, to: Display) -> (r: Result<String, CoreError>)
        requires
            self.wf(),
        ensures
            ({
                let m = self.spec_state_provider().spec_configs()@;
                let k = spec_key_for(to, "displaySwitchArg"@);
                match r {
                    Ok(a) => m.contains_key(k) && a@ == m[k],
                    Err(e) => !m.contains_key(k) && e.category == ErrorCategory::Integrity,
                }
            }),
    {
        self.state_provider.get_display_switch_arg(to)
    }

    /// Completes a `switch:saved` that the host performed: clears the
    /// saved preference and returns the options file text to write.
    pub fn finish_saved_display_switch(&mut self) -> (r: String)
        requires
            old(self).wf(),
        ensures
            final(self).wf(),
            final(self).spec_dry_run() == old(self).spec_dry_run(),
            final(self).spec_state_provider().spec_grubenv() == old(
                self,
            ).spec_state_provider().spec_grubenv(),
            final(self).spec_state_provider().spec_configs() == old(
                self,
            ).spec_state_provider().spec_configs(),
            final(self).spec_state_provider().spec_options()@ == old(
                self,
            ).spec_state_provider().spec_options()@.remove(windows_display_key()),
            final(self).spec_state_provider().spec_next_windows_boot_display() is None,
            r@ == spec_serialize(
                escaped_entries(final(self).spec_state_provider().spec_options().entries_seq()),
            ),
    {
        self.state_provider.unset_next_windows_boot_display()
    }

    /// Whether the reboot/shutdown action must actually be performed:
    /// never in dry-run mode.
    pub fn should_perform_reboot_action(&self) -> (r: bool)
        ensures
            r == !self.spec_dry_run(),
    {
        !self.dry_run
    }

    /// What a correct execution outcome is, axis by axis.  An axis that
    /// fails sets the error, leaves the later axes untaken, and keeps
    /// what the earlier axes already applied.
    pub open spec fn execution_outcome_correct(
        pre_exec: ScriptExecutor,
        post_exec: ScriptExecutor,
        script: Script,
        device_id: Option<Seq<char>>,
        r: ExecutionOutcome,
    ) -> bool {
        let pre = pre_exec.spec_state_provider();
        let post = post_exec.spec_state_provider();
        &&& post_exec.spec_dry_run() == pre_exec.spec_dry_run()
        &&& post.spec_configs() == pre.spec_configs()
        &&& r.perform_reboot_action == (r.reboot_action is Some && !pre_exec.spec_dry_run())
        // The boot-OS axis.
        &&& match script.next_boot_operating_system {
            Some(a) => match r.boot_block_content {
                Some(c) => Self::os_axis_written(pre, post, a) && is_padded_content(
                    c@,
                    post.spec_grubenv().entries_seq(),
                ),
                None => {
                    &&& Self::os_axis_failed(pre, post, a)
                    &&& post.spec_options() == pre.spec_options()
                    &&& match r.error {
                        Some(e) => e.category == ErrorCategory::Integrity,
                        None => false,
                    }
                    &&& r.options_content is None
                    &&& r.switch is None
                    &&& r.reboot_action is None
                },
            },
            None => r.boot_block_content is None && post.spec_grubenv() == pre.spec_grubenv(),
        }
        // The later axes run only when the first did not stop execution.
        &&& (script.next_boot_operating_system is None || r.boot_block_content is Some) ==> {
            // The boot-display axis, which cannot fail.
            &&& match script.next_windows_boot_display {
                Some(a) => match r.options_content {
                    Some(c) => Self::display_axis_written(pre, post, a, c@),
                    None => false,
                },
                None => r.options_content is None && post.spec_options() == pre.spec_options(),
            }
            // The immediate-switch axis, decided over the state the
            // earlier axes left.
            &&& match script.switch_to_display {
                Some(sw) => match device_id {
                    None => {
                        &&& r.switch is None
                        &&& match r.error {
                            Some(e) => e.category == ErrorCategory::User,
                            None => false,
                        }
                        &&& r.reboot_action is None
                    },
                    Some(id) => match spec_resolve(
                        Display::spec_values(),
                        "deviceId"@,
                        post.spec_configs()@,
                        id,
                    ) {
                        Resolution::Found(from) => match (r.switch, r.error) {
                            (Some(d), _) => post_exec.switch_decision_correct(
                                sw,
                                from,
                                Ok::<SwitchDecision, CoreError>(d),
                            ),
                            (None, Some(e)) => {
                                &&& post_exec.switch_decision_correct(
                                    sw,
                                    from,
                                    Err::<SwitchDecision, CoreError>(e),
                                )
                                &&& r.reboot_action is None
                            },
                            (None, None) => false,
                        },
                        _ => {
                            &&& r.switch is None
                            &&& match r.error {
                                Some(e) => e.category == ErrorCategory::Integrity,
                                None => false,
                            }
                            &&& r.reboot_action is None
                        },
                    },
                },
                None => r.switch is None,
            }
            // The reboot axis, reached only past a working switch axis.
            &&& (script.switch_to_display is None || r.switch is Some) ==> {
                &&& r.error is None
                &&& r.reboot_action == script.reboot_action
            }
        }
    }

    /// Runs every axis of a script, in order, against the in-memory
    /// stores: the outcome carries the file images to write, the switch
    /// to perform and the reboot action to take, or the error that
    /// stopped execution (what earlier axes applied stands).
    pub fn execute(&mut self, script: &Script, current_device_id: Option<&str>) -> (r:
        ExecutionOutcome)
        requires
            old(self).wf(),
        ensures
            final(self).wf(),
            Self::execution_outcome_correct(
                *old(self),
                *final(self),
                *script,
                match current_device_id {
                    Some(id) => Some(id@),
                    None => None,
                },
                r,
            ),
    {
        let mut outcome = ExecutionOutcome {
            boot_block_content: None,
            options_content: None,
            switch: None,
            reboot_action: None,
            perform_reboot_action: false,
            error: None,
        };
        if let Some(os_option) = &script.next_boot_operating_system {
            match self.apply_next_boot_operating_system(os_option) {
                Ok(content) => {
                    outcome.boot_block_content = Some(content);
                },
                Err(e) => {
                    outcome.error = Some(e);
                    return outcome;
                },
            }
        }
        if let Some(display_option) = &script.next_windows_boot_display {
            let content = self.apply_next_windows_boot_display(display_option);
            outcome.options_content = Some(content);
        }
        if let Some(switch_to) = &script.switch_to_display {
            match self.decide_switch_to_display(switch_to, current_device_id) {
                Ok(decision) => {
                    outcome.switch = Some(decision);
                },
                Err(e) => {
                    outcome.error = Some(e);
                    return outcome;
                },
            }
        }
        if let Some(action) = &script.reboot_action {
            outcome.reboot_action = Some(*action);
            outcome.perform_reboot_action = self.should_perform_reboot_action();
        }
        outcome
    }
}

/// Everything one script run decided and produced.  The caller writes
/// each present file image to its store's file, performs the switch,
/// completes a consuming switch through the executor once the host
/// reports success, and takes the reboot action last.
pub struct ExecutionOutcome {
    /// The new 1024-byte boot block, when the boot-OS axis ran.
    pub boot_block_content: Option<String>,
    /// The new options file text, when the boot-display axis ran.
    pub options_content: Option<String>,
    /// The decided display switch, when the switch axis ran.
    pub switch: Option<SwitchDecision>,
    /// The reboot/shutdown to take, when that axis ran and no earlier
    /// axis failed.
    pub reboot_action: Option<RebootAction>,
    /// Whether to actually take it; never in dry-run mode.
    pub perform_reboot_action: bool,
    /// The failure that stopped execution, if one did.
    pub error: Option<CoreError>,
}

} // verus!
