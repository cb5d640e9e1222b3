use my_reboot::options_types::{Display, OperatingSystem, RebootAction};
use my_reboot::script::{Script, SetOrUnset, SwitchToDisplay};
use my_reboot::args::script_args::{
    parse, parse_next_boot_operating_system, parse_next_windows_boot_display, parse_reboot_action,
    parse_single, parse_switch_to_display,
};
use SetOrUnset::{Assign, Unset};

#[test]
fn test_parse() {
    let arg = "os:windows";
    let args: Vec<String> = Vec::new();

    let result = parse(arg, &args);

    let option = result.expect("result should be Ok(_)");
    let script = option.expect("option should be Some(_)");
    assert_eq!(
        script.next_boot_operating_system,
        Some(Assign(OperatingSystem::Windows))
    );
}

#[test]
fn test_parse_unrecognized_arg() {
    let arg = "blah";
    let args: Vec<String> = Vec::new();

    let result = parse(arg, &args);

    let option = result.expect("result should be Ok(_)");
    assert!(option.is_none());
}

#[test]
fn test_parse_multiple_args() {
    let arg = "display:monitor";
    let args = vec!["os:windows".to_string()];

    let result = parse(arg, &args);

    let option = result.expect("result should be Ok(_)");
    let script = option.expect("option should be Some(_)");
    assert_eq!(
        script.next_boot_operating_system,
        Some(Assign(OperatingSystem::Windows))
    );
    assert_eq!(
        script.next_windows_boot_display,
        Some(Assign(Display::Monitor))
    );
}

#[test]
fn test_parse_multiple_args_invalid() {
    let arg = "os:windows";
    let args = vec!["blah".to_string()];

    let result = parse(arg, &args);

    assert!(result.is_err());
}

#[test]
fn test_parse_single_os() {
    let mut script = Script::new();

    let result = parse_single("os:windows", &mut script);

    let success = result.expect("result should be Ok(_)");
    assert!(success);
    assert_eq!(
        script.next_boot_operating_system,
        Some(Assign(OperatingSystem::Windows))
    );
}

#[test]
fn test_parse_single_display() {
    let mut script = Script::new();

    let result = parse_single("display:monitor", &mut script);

    let success = result.expect("result should be Ok(_)");
    assert!(success);
    assert_eq!(
        script.next_windows_boot_display,
        Some(Assign(Display::Monitor))
    );
}

#[test]
fn test_parse_single_switch() {
    let mut script = Script::new();

    let result = parse_single("switch:monitor", &mut script);

    let success = result.expect("result should be Ok(_)");
    assert!(success);
    assert_eq!(
        script.switch_to_display,
        Some(SwitchToDisplay::Display(Display::Monitor))
    );
}

#[test]
fn test_parse_single_reboot_action() {
    let mut script = Script::new();

    let result = parse_single("reboot", &mut script);

    let success = result.expect("result should be Ok(_)");
    assert!(success);
    assert_eq!(script.reboot_action, Some(RebootAction::Reboot));
}

#[test]
fn test_parse_single_no_script_arg() {
    let mut script = Script::new();

    let result = parse_single("blah", &mut script);

    let success = result.expect("result should be Ok(_)");
    assert!(!success);
}

#[test]
fn test_parse_single_invalid() {
    let mut script = Script::new();

    let result = parse_single("display:blah", &mut script);

    assert!(result.is_err());
}

#[test]
fn test_parse_next_boot_operating_system() {
    let cases = [
        ("os:windows", Assign(OperatingSystem::Windows)),
        ("windows", Assign(OperatingSystem::Windows)),
        ("os:linux", Assign(OperatingSystem::Linux)),
        ("linux", Assign(OperatingSystem::Linux)),
        ("os:unset", Unset),
    ];

    for (arg, expected) in cases {
        let mut script = Script::new();

        let result = parse_next_boot_operating_system(arg, &mut script)
            .unwrap_or_else(|_| panic!("Result for argument \"{arg}\" should be Ok(_)"));
        assert!(result);
        assert_eq!(script.next_boot_operating_system, Some(expected));
    }
}

#[test]
fn test_parse_next_boot_operating_system_invalid() {
    let mut script = Script::new();

    let result = parse_next_boot_operating_system("os:blah", &mut script);

    assert!(result.is_err());
}

#[test]
fn test_parse_next_boot_operating_system_not_os_arg() {
    let mut script = Script::new();
    let arg = "blah".to_string();

    let result = parse_next_boot_operating_system(&arg, &mut script);

    let success =
        result.unwrap_or_else(|_| panic!("Result for argument \"{arg}\" should be Ok(_)"));
    assert!(!success);
}

#[test]
fn test_parse_next_boot_operating_system_already_set() {
    let mut script = Script::new();
    script.next_boot_operating_system = Some(Unset);

    let result = parse_next_boot_operating_system("os:windows", &mut script);

    assert!(result.is_err());
}

#[test]
fn test_parse_next_windows_boot_display() {
    let cases = [
        ("display:monitor", Assign(Display::Monitor)),
        ("monitor", Assign(Display::Monitor)),
        ("display:tv", Assign(Display::TV)),
        ("tv", Assign(Display::TV)),
        ("display:unset", Unset),
    ];

    for (arg, expected) in cases {
        let mut script = Script::new();

        let success = parse_next_windows_boot_display(arg, &mut script)
            .unwrap_or_else(|_| panic!("Result for argument \"{arg}\" should be Ok(_)"));
        assert!(success);
        assert_eq!(script.next_windows_boot_display, Some(expected));
    }
}

#[test]
fn test_parse_next_windows_boot_display_invalid() {
    let mut script = Script::new();

    let result = parse_next_windows_boot_display("display:blah", &mut script);

    assert!(result.is_err());
}

#[test]
fn test_parse_next_windows_boot_display_not_display_arg() {
    let mut script = Script::new();
    let arg = "blah".to_string();

    let result = parse_next_windows_boot_display(&arg, &mut script);

    let success =
        result.unwrap_or_else(|_| panic!("Result for argument \"{arg}\" should be Ok(_)"));
    assert!(!success);
}

#[test]
fn test_parse_next_windows_boot_display_already_set() {
    let mut script = Script::new();
    script.next_windows_boot_display = Some(Unset);

    let result = parse_next_windows_boot_display("display:monitor", &mut script);

    assert!(result.is_err());
}

#[test]
fn test_parse_switch_to_display() {
    let cases = [
        ("switch", SwitchToDisplay::Other),
        ("switch:other", SwitchToDisplay::Other),
        ("switch:monitor", SwitchToDisplay::Display(Display::Monitor)),
        ("switch:tv", SwitchToDisplay::Display(Display::TV)),
        ("switch:saved", SwitchToDisplay::Saved),
    ];

    for (arg, expected) in cases {
        let mut script = Script::new();

        let success = parse_switch_to_display(arg, &mut script)
            .unwrap_or_else(|_| panic!("Result for argument \"{arg}\" should be Ok(_)"));
        assert!(success);
        assert_eq!(script.switch_to_display, Some(expected));
    }
}

#[test]
fn test_parse_switch_to_display_invalid() {
    let mut script = Script::new();

    let result = parse_switch_to_display("switch:blah", &mut script);

    assert!(result.is_err());
}

#[test]
fn test_parse_switch_to_display_no_switch_arg() {
    let mut script = Script::new();
    let arg = "blah";

    let result = parse_switch_to_display(arg, &mut script);

    let success =
        result.unwrap_or_else(|_| panic!("Result for argument \"{arg}\" should be Ok(_)"));
    assert!(!success);
}

#[test]
fn test_parse_switch_to_display_already_set() {
    let mut script = Script::new();
    script.switch_to_display = Some(SwitchToDisplay::Other);

    let result = parse_switch_to_display("switch:saved", &mut script);

    assert!(result.is_err());
}

#[test]
fn test_parse_reboot_action() {
    let cases = [
        ("reboot", RebootAction::Reboot),
        ("shutdown", RebootAction::Shutdown),
    ];

    for (arg, expected) in cases {
        let mut script = Script::new();

        let success = parse_reboot_action(arg, &mut script)
            .unwrap_or_else(|_| panic!("Result for argument \"{arg}\" should be Ok(_)"));
        assert!(success);
        assert_eq!(script.reboot_action, Some(expected));
    }
}

#[test]
fn test_parse_reboot_action_no_switch_arg() {
    let mut script = Script::new();
    let arg = "blah";

    let result = parse_reboot_action(arg, &mut script);

    let success =
        result.unwrap_or_else(|_| panic!("Result for argument \"{arg}\" should be Ok(_)"));
    assert!(!success);
}

#[test]
fn test_parse_reboot_action_already_set() {
    let mut script = Script::new();
    script.reboot_action = Some(RebootAction::Reboot);

    let result = parse_reboot_action("shutdown", &mut script);

    assert!(result.is_err());
}
