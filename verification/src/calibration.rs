//! The decisions of the one-time display calibration on Windows.
//!
//! Calibration probes the live configuration: it issues one switch
//! command, observes whether the active device identifier changed, and
//! from that works out which command argument belongs to which display.
//! The probing itself is host I/O; the choices it turns on are here.

use vstd::prelude::*;

use crate::configs::{spec_key_for, ConfigsWriter};
use crate::options_types::Display;

verus! {

/// The two display-switch arguments the host understands, in probe
/// order.  Windows 11 replaced the slash forms with numeric codes.
pub fn display_switch_args(is_windows_11: bool) -> (r: (&'static str, &'static str))
    ensures
        is_windows_11 ==> r.0@ == "1"@ && r.1@ == "4"@,
        !is_windows_11 ==> r.0@ == "/internal"@ && r.1@ == "/external"@,
{
    if is_windows_11 {
        ("1", "4")
    } else {
        ("/internal", "/external")
    }
}

/// Which probed argument switches to the initial display: when the
/// first probe switched away from it, the second argument is the one
/// that brings it back; when it did not, the first argument is its own
/// and the second one was used to switch away.
pub fn calibration_roles<'a>(switched_on_first: bool, first_arg: &'a str, second_arg: &'a str) -> (r:
    (&'a str, &'a str))
    ensures
        switched_on_first ==> r == (second_arg, first_arg),
        !switched_on_first ==> r == (first_arg, second_arg),
{
    if switched_on_first {
        (second_arg, first_arg)
    } else {
        (first_arg, second_arg)
    }
}

/// Records one finished calibration: both displays' device identifiers
/// and switch arguments, in the shared configuration store.
pub fn record_calibration(
    writer: &mut ConfigsWriter,
    initial_display: Display,
    initial_device_id: &str,
    other_device_id: &str,
    initial_switch_arg: &str,
    other_switch_arg: &str,
)
    requires
        old(writer).wf(),
    ensures
        final(writer).wf(),
        final(writer)@ == old(writer)@.insert(
            spec_key_for(initial_display, "deviceId"@),
            initial_device_id@,
        ).insert(spec_key_for(initial_display.spec_other(), "deviceId"@), other_device_id@).insert(
            spec_key_for(initial_display, "displaySwitchArg"@),
            initial_switch_arg@,
        ).insert(
            spec_key_for(initial_display.spec_other(), "displaySwitchArg"@),
            other_switch_arg@,
        ),
{
    let other_display = initial_display.other();
    writer.set_device_id(initial_display, initial_device_id);
    writer.set_device_id(other_display, other_device_id);
    writer.set_display_switch_arg(initial_display, initial_switch_arg);
    writer.set_display_switch_arg(other_display, other_switch_arg);
}

} // verus!
