//! The dialog's vocabulary: its mode, what the user chose, and the
//! options the advanced dialog collects.  Presenting the dialog itself
//! is a GUI concern outside the library.

use vstd::prelude::*;

use crate::options_types::{Display, OperatingSystem, RebootAction};
use crate::script::{Script, SetOrUnset, SwitchToDisplay};

verus! {

/// Which dialog to show.
#[derive(Clone, Copy, PartialEq, Eq, Structural, Debug)]
pub enum Mode {
    Basic,
    Advanced,
}

/// What the user chose in the dialog.
#[derive(Debug)]
pub enum Outcome {
    /// A button of the basic dialog: an index into the host's
    /// predefined scripts.
    PredefinedScriptIndex(usize),
    /// The advanced dialog's individually chosen options.
    ScriptOptions(ScriptOptions),
}

/// The choices of the advanced dialog.  `None` means "leave that axis
/// alone"; the dialog cannot express clearing a saved value.
#[derive(Clone, Copy, Debug)]
pub struct ScriptOptions {
    pub next_boot_operating_system: Option<OperatingSystem>,
    pub next_windows_boot_display: Option<Display>,
    pub switch_display: bool,
    pub reboot_action: Option<RebootAction>,
}

impl ScriptOptions {
    /// No choice made on any axis.
    pub fn new() -> (r: ScriptOptions)
        ensures
            r.next_boot_operating_system is None,
            r.next_windows_boot_display is None,
            !r.switch_display,
            r.reboot_action is None,
    {
        ScriptOptions {
            next_boot_operating_system: None,
            next_windows_boot_display: None,
            switch_display: false,
            reboot_action: None,
        }
    }

    /// The script the choices amount to: chosen values are assigned,
    /// and the switch toggle targets the other display.
    pub fn to_script(&self) -> (r: Script)
        ensures
            r.next_boot_operating_system == match self.next_boot_operating_system {
                Some(os) => Some(SetOrUnset::Assign(os)),
                None => None::<SetOrUnset<OperatingSystem>>,
            },
            r.next_windows_boot_display == match self.next_windows_boot_display {
                Some(d) => Some(SetOrUnset::Assign(d)),
                None => None::<SetOrUnset<Display>>,
            },
            r.switch_to_display == if self.switch_display {
                Some(SwitchToDisplay::Other)
            } else {
                None::<SwitchToDisplay>
            },
            r.reboot_action == self.reboot_action,
    {
        Script {
            next_boot_operating_system: match self.next_boot_operating_system {
                Some(os) => Some(SetOrUnset::Assign(os)),
                None => None,
            },
            next_windows_boot_display: match self.next_windows_boot_display {
                Some(d) => Some(SetOrUnset::Assign(d)),
                None => None,
            },
            switch_to_display: if self.switch_display {
                Some(SwitchToDisplay::Other)
            } else {
                None
            },
            reboot_action: match self.reboot_action {
                Some(a) => Some(a),
                None => None,
            },
        }
    }
}

} // verus!
