//! The aggregate boot-intent state.
//!
//! `StateProvider` combines the boot block, the options store and the
//! configuration mappings to expose and mutate the three pieces of
//! state: next-boot operating system, next-Windows-boot display, current
//! display.  Every mutator returns the exact file text that must be
//! written back at once: persistence is never deferred, and performing
//! the write is the caller's (unverified) part.

use vstd::prelude::*;
use vstd::string::*;

use crate::configs::{spec_key_for, spec_resolve, Configs, Resolution};
use crate::errors::{CoreError, ErrorCategory};
use crate::file_content_as_hash_map::spec_serialize;
use crate::grubenv::{is_padded_content, spec_unpadded, Grubenv};
use crate::options_types::{spec_from_code, Display, OperatingSystem, OptionType};
use crate::properties::{escaped_entries, Properties};
use vstd::utf8::encode_utf8;

verus! {

/// The boot block key naming the menu entry to boot next.
pub open spec fn grub_entry_key() -> Seq<char> {
    "saved_entry"@
}

/// The options key naming the display for the next Windows boot.
pub open spec fn windows_display_key() -> Seq<char> {
    "windows.display"@
}

/// A read-only snapshot of the three pieces of state, each of which may
/// simply never have been configured.
pub struct State {
    pub next_boot_operating_system: Option<OperatingSystem>,
    pub next_windows_boot_display: Option<Display>,
    pub current_display: Option<Display>,
}

/// The owner of the three stores.
pub struct StateProvider {
    grubenv: Grubenv,
    options: Properties,
    configs: Configs,
}

impl StateProvider {
    pub closed spec fn wf(self) -> bool {
        &&& self.grubenv.wf()
        &&& self.options.wf()
        &&& self.configs.wf()
    }

    pub closed spec fn spec_grubenv(self) -> Grubenv {
        self.grubenv
    }

    pub closed spec fn spec_options(self) -> Properties {
        self.options
    }

    pub closed spec fn spec_configs(self) -> Configs {
        self.configs
    }

    /// What the next-boot operating system is, given the stores: absent
    /// when the boot block holds no entry, otherwise the catalog value
    /// whose configured menu-entry name matches.
    pub open spec fn spec_next_boot_operating_system(self) -> Option<
        Result<OperatingSystem, ()>,
    > {
        if !self.spec_grubenv()@.contains_key(grub_entry_key()) {
            None
        } else {
            match spec_resolve(
                OperatingSystem::spec_values(),
                "grubEntry"@,
                self.spec_configs()@,
                self.spec_grubenv()@[grub_entry_key()],
            ) {
                Resolution::Found(os) => Some(Ok(os)),
                _ => Some(Err(())),
            }
        }
    }

    /// What the next-Windows-boot display is, given the options store:
    /// absent when unset or when the stored code is unrecognized.
    pub open spec fn spec_next_windows_boot_display(self) -> Option<Display> {
        if !self.spec_options()@.contains_key(windows_display_key()) {
            None
        } else {
            spec_from_code::<Display>(self.spec_options()@[windows_display_key()])
        }
    }

    /// Builds the provider around the three loaded stores.
    pub fn new(grubenv: Grubenv, options: Properties, configs: Configs) -> (r: StateProvider)
        requires
            grubenv.wf(),
            options.wf(),
            configs.wf(),
        ensures
            r.wf(),
            r.spec_grubenv() == grubenv,
            r.spec_options() == options,
            r.spec_configs() == configs,
    {
        StateProvider { grubenv, options, configs }
    }

    /// The operating system the machine boots into next, if one is
    /// saved.  A saved entry that matches no configured mapping is a
    /// fatal misconfiguration.
    pub fn get_next_boot_operating_system(&self) -> (r: Result<Option<OperatingSystem>, CoreError>)
        requires
            self.wf(),
        ensures
            match r {
                Ok(o) => match self.spec_next_boot_operating_system() {
                    None => o is None,
                    Some(Ok(os)) => o == Some(os),
                    Some(Err(())) => false,
                },
                Err(e) => {
                    &&& self.spec_next_boot_operating_system() == Some(Err::<OperatingSystem,
                        (),
                    >(()))
                    &&& e.category == ErrorCategory::Integrity
                },
            },
    {
        match self.grubenv.get("saved_entry") {
            None => Ok(None),
            Some(grub_entry) => {
                let entry = grub_entry.clone();
                match self.configs.get_operating_system_by_grub_entry(entry.as_str()) {
                    Ok(os) => Ok(Some(os)),
                    Err(e) => Err(e),
                }
            },
        }
    }

    /// Saves the operating system to boot next: maps it to its menu
    /// entry, writes the boot block key, and returns the exact 1024
    /// bytes to persist.  Fails on a missing mapping (nothing changes)
    /// or on a block overflow (the entry is set in memory but no legal
    /// image exists).
    pub fn set_next_boot_operating_system(&mut self, os: OperatingSystem) -> (r: Result<
        String,
        CoreError,
    >)
        requires
            old(self).wf(),
        ensures
            final(self).wf(),
            final(self).spec_options() == old(self).spec_options(),
            final(self).spec_configs() == old(self).spec_configs(),
            match r {
                Ok(content) => {
                    &&& old(self).spec_configs()@.contains_key(spec_key_for(os, "grubEntry"@))
                    &&& final(self).spec_grubenv()@ == old(self).spec_grubenv()@.insert(
                        grub_entry_key(),
                        old(self).spec_configs()@[spec_key_for(os, "grubEntry"@)],
                    )
                    &&& is_padded_content(content@, final(self).spec_grubenv().entries_seq())
                },
                Err(e) => {
                    &&& e.category == ErrorCategory::Integrity
                    &&& if !old(self).spec_configs()@.contains_key(
                        spec_key_for(os, "grubEntry"@),
                    ) {
                        *final(self) == *old(self)
                    } else {
                        &&& final(self).spec_grubenv()@ == old(self).spec_grubenv()@.insert(
                            grub_entry_key(),
                            old(self).spec_configs()@[spec_key_for(os, "grubEntry"@)],
                        )
                        &&& encode_utf8(
                            spec_unpadded(final(self).spec_grubenv().entries_seq()),
                        ).len() > crate::grubenv::GRUBENV_CONTENT_LENGTH
                    }
                },
            },
    {
        let grub_entry = match self.configs.get_grub_entry(os) {
            Ok(v) => v,
            Err(e) => {
                return Err(e);
            },
        };
        self.grubenv.set("saved_entry", grub_entry.as_str());
        self.grubenv.to_file_content()
    }

    /// Clears the saved next-boot entry and returns the 1024 bytes to
    /// persist.
    pub fn unset_next_boot_operating_system(&mut self) -> (r: Result<String, CoreError>)
        requires
            old(self).wf(),
        ensures
            final(self).wf(),
            final(self).spec_options() == old(self).spec_options(),
            final(self).spec_configs() == old(self).spec_configs(),
            final(self).spec_grubenv()@ == old(self).spec_grubenv()@.remove(grub_entry_key()),
            match r {
                Ok(content) => is_padded_content(
                    content@,
                    final(self).spec_grubenv().entries_seq(),
                ),
                Err(e) => {
                    &&& e.category == ErrorCategory::Integrity
                    &&& encode_utf8(
                        spec_unpadded(final(self).spec_grubenv().entries_seq()),
                    ).len() > crate::grubenv::GRUBENV_CONTENT_LENGTH
                },
            },
    {
        self.grubenv.unset("saved_entry");
        self.grubenv.to_file_content()
    }

    /// The display saved for the next Windows boot, if any; an
    /// unrecognized stored code reads as unset.
    pub fn get_next_windows_boot_display(&self) -> (r: Option<Display>)
        requires
            self.wf(),
        ensures
            r == self.spec_next_windows_boot_display(),
    {
        match self.options.get("windows.display") {
            None => None,
            Some(code) => {
                let code = code.clone();
                let r = Display::from_option_string(code.as_str());
                proof {
                    match r {
                        Some(d) => {
                            crate::options_types::lemma_from_code_unique::<Display>(
                                d,
                                self.spec_options()@[windows_display_key()],
                            );
                        },
                        None => {
                        },
                    }
                }
                r
            },
        }
    }

    /// Saves the display for the next Windows boot and returns the
    /// options file text to persist.
    pub fn set_next_windows_boot_display(&mut self, display: Display) -> (r: String)
        requires
            old(self).wf(),
        ensures
            final(self).wf(),
            final(self).spec_grubenv() == old(self).spec_grubenv(),
            final(self).spec_configs() == old(self).spec_configs(),
            final(self).spec_options()@ == old(self).spec_options()@.insert(
                windows_display_key(),
                display.spec_code(),
            ),
            r@ == spec_serialize(escaped_entries(final(self).spec_options().entries_seq())),
    {
        self.options.set("windows.display", display.to_option_string());
        self.options.to_file_content()
    }

    /// Clears the saved next-Windows-boot display and returns the
    /// options file text to persist.
    pub fn unset_next_windows_boot_display(&mut self) -> (r: String)
        requires
            old(self).wf(),
        ensures
            final(self).wf(),
            final(self).spec_grubenv() == old(self).spec_grubenv(),
            final(self).spec_configs() == old(self).spec_configs(),
            final(self).spec_options()@ == old(self).spec_options()@.remove(windows_display_key()),
            final(self).spec_next_windows_boot_display() is None,
            r@ == spec_serialize(escaped_entries(final(self).spec_options().entries_seq())),
    {
        self.options.unset("windows.display");
        self.options.to_file_content()
    }

    /// The display the machine shows right now, resolved from the live
    /// device identifier the caller probed.  `None` in means the host
    /// cannot tell (no display-switch support), which reads as `None`
    /// out; an identifier no mapping covers is a fatal
    /// misconfiguration.
    pub fn get_current_display(&self, device_id: Option<&str>) -> (r: Result<
        Option<Display>,
        CoreError,
    >)
        requires
            self.wf(),
        ensures
            match device_id {
                None => r == Ok::<Option<Display>, CoreError>(None),
                Some(id) => match spec_resolve(
                    Display::spec_values(),
                    "deviceId"@,
                    self.spec_configs()@,
                    id@,
                ) {
                    Resolution::Found(d) => r == Ok::<Option<Display>, CoreError>(Some(d)),
                    _ => r is Err && r->Err_0.category == ErrorCategory::Integrity,
                },
            },
    {
        match device_id {
            None => Ok(None),
            Some(id) => match self.configs.get_display_by_device_id(id) {
                Ok(d) => Ok(Some(d)),
                Err(e) => Err(e),
            },
        }
    }

    /// The display a live device identifier belongs to; an identifier
    /// no mapping covers is a fatal misconfiguration.
    pub fn get_display_by_device_id(&self, device_id: &str) -> (r: Result<Display, CoreError>)
        requires
            self.wf(),
        ensures
            ({
                let outcome = spec_resolve(
                    Display::spec_values(),
                    "deviceId"@,
                    self.spec_configs()@,
                    device_id@,
                );
                match r {
                    Ok(d) => outcome == Resolution::<Display>::Found(d),
                    Err(e) => {
                        &&& e.category == ErrorCategory::Integrity
                        &&& !(outcome is Found)
                    },
                }
            }),
    {
        self.configs.get_display_by_device_id(device_id)
    }

    /// The configured host argument that switches to a display.
    pub fn get_display_switch_arg(&self, display: Display) -> (r: Result<String, CoreError>)
        requires
            self.wf(),
        ensures
            ({
                let k = spec_key_for(display, "displaySwitchArg"@);
                match r {
                    Ok(v) => self.spec_configs()@.contains_key(k) && v@ == self.spec_configs()@[k],
                    Err(e) => {
                        &&& !self.spec_configs()@.contains_key(k)
                        &&& e.category == ErrorCategory::Integrity
                    },
                }
            }),
    {
        self.configs.get_display_switch_arg(display)
    }

    /// One consistent snapshot of the three pieces of state.
    pub fn get_state(&self, device_id: Option<&str>) -> (r: Result<State, CoreError>)
        requires
            self.wf(),
        ensures
            match r {
                Ok(state) => {
                    &&& match self.spec_next_boot_operating_system() {
                        None => state.next_boot_operating_system is None,
                        Some(Ok(os)) => state.next_boot_operating_system == Some(os),
                        Some(Err(())) => false,
                    }
                    &&& state.next_windows_boot_display
                        == self.spec_next_windows_boot_display()
                    &&& match device_id {
                        None => state.current_display is None,
                        Some(id) => match state.current_display {
                            Some(d) => spec_resolve(
                                Display::spec_values(),
                                "deviceId"@,
                                self.spec_configs()@,
                                id@,
                            ) == Resolution::<Display>::Found(d),
                            None => false,
                        },
                    }
                },
                Err(e) => {
                    &&& e.category == ErrorCategory::Integrity
                    &&& {
                        ||| self.spec_next_boot_operating_system() == Some(
                            Err::<OperatingSystem, ()>(()),
                        )
                        ||| match device_id {
                            Some(id) => !(spec_resolve(
                                Display::spec_values(),
                                "deviceId"@,
                                self.spec_configs()@,
                                id@,
                            ) is Found),
                            None => false,
                        }
                    }
                },
            },
    {
        let next_boot_operating_system = match self.get_next_boot_operating_system() {
            Ok(o) => o,
            Err(e) => {
                return Err(e);
            },
        };
        let next_windows_boot_display = self.get_next_windows_boot_display();
        let current_display = match self.get_current_display(device_id) {
            Ok(o) => o,
            Err(e) => {
                return Err(e);
            },
        };
        Ok(
            State {
                next_boot_operating_system,
                next_windows_boot_display,
                current_display,
            },
        )
    }
}

} // verus!
