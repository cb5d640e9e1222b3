//! What depends on the host operating system: the predefined scripts
//! offered by the basic dialog and the `script NUMBER` command.

use vstd::prelude::*;

use crate::options_types::{Display, OperatingSystem, RebootAction};
use crate::script::{Script, SetOrUnset};

verus! {

/// A ready-made script with the label the dialog shows for it.
pub struct PredefinedScript {
    pub button_label: &'static str,
    pub script: Script,
}

/// The script that reboots into Windows on the given display.
pub open spec fn spec_reboot_on_windows_with_display(display: Display) -> Script {
    Script {
        next_boot_operating_system: Some(SetOrUnset::Assign(OperatingSystem::Windows)),
        next_windows_boot_display: Some(SetOrUnset::Assign(display)),
        switch_to_display: None,
        reboot_action: Some(RebootAction::Reboot),
    }
}

/// The script that reboots into Linux.
pub open spec fn spec_reboot_on_linux() -> Script {
    Script {
        next_boot_operating_system: Some(SetOrUnset::Assign(OperatingSystem::Linux)),
        next_windows_boot_display: None,
        switch_to_display: None,
        reboot_action: Some(RebootAction::Reboot),
    }
}

/// The predefined scripts a host offers: from Linux, reboot into
/// Windows with either display; from Windows, reboot into Linux.
pub open spec fn spec_predefined_scripts(host_os: OperatingSystem) -> Seq<Script> {
    match host_os {
        OperatingSystem::Linux => seq![
            spec_reboot_on_windows_with_display(Display::Monitor),
            spec_reboot_on_windows_with_display(Display::TV),
        ],
        OperatingSystem::Windows => seq![spec_reboot_on_linux()],
    }
}

/// The predefined scripts a host offers, with their dialog labels.
pub fn predefined_scripts(host_os: OperatingSystem) -> (r: Vec<PredefinedScript>)
    ensures
        r@.len() == spec_predefined_scripts(host_os).len(),
        forall|i: int|
            0 <= i < r@.len() ==> (#[trigger] r@[i]).script == spec_predefined_scripts(host_os)[i],
        1 <= r@.len() <= 2,
{
    let mut r: Vec<PredefinedScript> = Vec::new();
    match host_os {
        OperatingSystem::Linux => {
            r.push(
                PredefinedScript {
                    button_label: "Reiniciar no Windows usando o monitor",
                    script: Script {
                        next_boot_operating_system: Some(
                            SetOrUnset::Assign(OperatingSystem::Windows),
                        ),
                        next_windows_boot_display: Some(SetOrUnset::Assign(Display::Monitor)),
                        switch_to_display: None,
                        reboot_action: Some(RebootAction::Reboot),
                    },
                },
            );
            r.push(
                PredefinedScript {
                    button_label: "Reiniciar no Windows usando a TV",
                    script: Script {
                        next_boot_operating_system: Some(
                            SetOrUnset::Assign(OperatingSystem::Windows),
                        ),
                        next_windows_boot_display: Some(SetOrUnset::Assign(Display::TV)),
                        switch_to_display: None,
                        reboot_action: Some(RebootAction::Reboot),
                    },
                },
            );
        },
        OperatingSystem::Windows => {
            r.push(
                PredefinedScript {
                    button_label: "Reiniciar no Linux",
                    script: Script {
                        next_boot_operating_system: Some(
                            SetOrUnset::Assign(OperatingSystem::Linux),
                        ),
                        next_windows_boot_display: None,
                        switch_to_display: None,
                        reboot_action: Some(RebootAction::Reboot),
                    },
                },
            );
        },
    }
    r
}

} // verus!
