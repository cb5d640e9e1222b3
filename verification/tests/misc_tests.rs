use my_reboot::args::{parse, ParsedArgs};
use my_reboot::calibration::{calibration_roles, display_switch_args, record_calibration};
use my_reboot::configs::{configuration_error, Configs, ConfigsWriter};
use my_reboot::properties::Properties;
use my_reboot::dialog::{Mode, ScriptOptions};
use my_reboot::grub_cfg::{extract_grub_entry, extract_os_and_grub_entry};
use my_reboot::host_os::predefined_scripts;
use my_reboot::options_types::{Display, OperatingSystem, OptionType, RebootAction};
use my_reboot::script::{SetOrUnset, SwitchToDisplay};
use my_reboot::text::{parse_usize, Capitalize};
use my_reboot::windows_version::WindowsVersion;

#[test]
fn it_works() {
    assert!(!WindowsVersion::new(8, 2, 23000).is_windows_11_or_greater());
    assert!(!WindowsVersion::new(10, 0, 21000).is_windows_11_or_greater());
    assert!(WindowsVersion::new(10, 0, 22000).is_windows_11_or_greater());
    assert!(WindowsVersion::new(10, 0, 23000).is_windows_11_or_greater());
    assert!(WindowsVersion::new(10, 2, 21000).is_windows_11_or_greater());
    assert!(WindowsVersion::new(12, 0, 21000).is_windows_11_or_greater());
}

#[test]
fn capitalize() {
    assert_eq!("".capitalize(), "");
    assert_eq!("hello world".capitalize(), "Hello world");
}

#[test]
fn catalog_symmetry() {
    for os in OperatingSystem::values() {
        assert_eq!(
            OperatingSystem::from_option_string(os.to_option_string()),
            Some(os)
        );
    }
    for display in Display::values() {
        assert_eq!(Display::from_option_string(display.to_option_string()), Some(display));
    }
    for action in RebootAction::values() {
        assert_eq!(
            RebootAction::from_option_string(action.to_option_string()),
            Some(action)
        );
    }
    assert_eq!(OperatingSystem::from_option_string("not-a-real-code"), None);
    assert_eq!(Display::from_option_string("not-a-real-code"), None);
    assert_eq!(RebootAction::from_option_string("not-a-real-code"), None);
}

#[test]
fn catalog_codes_and_names() {
    assert_eq!(OperatingSystem::Windows.to_option_string(), "windows");
    assert_eq!(OperatingSystem::Linux.to_option_string(), "linux");
    assert_eq!(OperatingSystem::Windows.display_name(), "Windows");
    assert_eq!(Display::TV.to_option_string(), "tv");
    assert_eq!(Display::TV.display_name(), "TV");
    assert_eq!(Display::Monitor.display_name(), "monitor");
    assert_eq!(Display::Monitor.other(), Display::TV);
    assert_eq!(Display::TV.other(), Display::Monitor);
}

#[test]
fn parse_usize_accepts_digits_only() {
    assert_eq!(parse_usize("0"), Some(0));
    assert_eq!(parse_usize("42"), Some(42));
    assert_eq!(parse_usize(""), None);
    assert_eq!(parse_usize("4x2"), None);
    assert_eq!(parse_usize("-1"), None);
    assert_eq!(parse_usize("99999999999999999999999999"), None);
}

fn args_of(raw: &[&str]) -> Vec<String> {
    raw.iter().map(|a| a.to_string()).collect()
}

#[test]
fn parse_no_arguments_opens_the_basic_dialog() {
    let r = parse(&args_of(&[]), OperatingSystem::Linux).unwrap();
    assert!(matches!(r, ParsedArgs::Dialog(Mode::Basic)));

    let r = parse(&args_of(&["dialog"]), OperatingSystem::Linux).unwrap();
    assert!(matches!(r, ParsedArgs::Dialog(Mode::Basic)));

    let r = parse(&args_of(&["dialog", "-x"]), OperatingSystem::Linux).unwrap();
    assert!(matches!(r, ParsedArgs::Dialog(Mode::Advanced)));
}

#[test]
fn parse_show_and_usage() {
    let r = parse(&args_of(&["show"]), OperatingSystem::Linux).unwrap();
    assert!(matches!(r, ParsedArgs::ShowState));

    let r = parse(&args_of(&["--help"]), OperatingSystem::Linux).unwrap();
    assert!(matches!(r, ParsedArgs::Usage));

    assert!(parse(&args_of(&["show", "extra"]), OperatingSystem::Linux).is_err());
}

#[test]
fn parse_script_number_picks_a_predefined_script() {
    let r = parse(&args_of(&["script", "2"]), OperatingSystem::Linux).unwrap();
    match r {
        ParsedArgs::Script(script) => {
            assert_eq!(
                script.next_boot_operating_system,
                Some(SetOrUnset::Assign(OperatingSystem::Windows))
            );
            assert_eq!(
                script.next_windows_boot_display,
                Some(SetOrUnset::Assign(Display::TV))
            );
            assert_eq!(script.reboot_action, Some(RebootAction::Reboot));
        }
        _ => panic!("should be a script"),
    }

    assert!(parse(&args_of(&["script", "3"]), OperatingSystem::Linux).is_err());
    assert!(parse(&args_of(&["script", "2"]), OperatingSystem::Windows).is_err());
    assert!(parse(&args_of(&["script", "0"]), OperatingSystem::Linux).is_err());
    assert!(parse(&args_of(&["script"]), OperatingSystem::Linux).is_err());
}

#[test]
fn parse_configure_takes_an_optional_display() {
    let r = parse(&args_of(&["configure"]), OperatingSystem::Linux).unwrap();
    assert!(matches!(r, ParsedArgs::Configure { initial_display: None }));

    let r = parse(&args_of(&["configure", "tv"]), OperatingSystem::Windows).unwrap();
    assert!(matches!(
        r,
        ParsedArgs::Configure { initial_display: Some(Display::TV) }
    ));

    assert!(parse(&args_of(&["configure", "beamer"]), OperatingSystem::Windows).is_err());
}

#[test]
fn parse_falls_back_to_script_arguments() {
    let r = parse(&args_of(&["os:linux", "shutdown"]), OperatingSystem::Linux).unwrap();
    match r {
        ParsedArgs::Script(script) => {
            assert_eq!(
                script.next_boot_operating_system,
                Some(SetOrUnset::Assign(OperatingSystem::Linux))
            );
            assert_eq!(script.reboot_action, Some(RebootAction::Shutdown));
        }
        _ => panic!("should be a script"),
    }

    assert!(parse(&args_of(&["blah"]), OperatingSystem::Linux).is_err());
}

#[test]
fn predefined_scripts_per_host() {
    let linux = predefined_scripts(OperatingSystem::Linux);
    assert_eq!(linux.len(), 2);
    assert_eq!(
        linux[0].script.next_windows_boot_display,
        Some(SetOrUnset::Assign(Display::Monitor))
    );
    assert_eq!(
        linux[1].script.next_windows_boot_display,
        Some(SetOrUnset::Assign(Display::TV))
    );

    let windows = predefined_scripts(OperatingSystem::Windows);
    assert_eq!(windows.len(), 1);
    assert_eq!(
        windows[0].script.next_boot_operating_system,
        Some(SetOrUnset::Assign(OperatingSystem::Linux))
    );
}

#[test]
fn script_options_build_a_script() {
    let mut options = ScriptOptions::new();
    options.next_boot_operating_system = Some(OperatingSystem::Windows);
    options.switch_display = true;
    options.reboot_action = Some(RebootAction::Shutdown);

    let script = options.to_script();

    assert_eq!(
        script.next_boot_operating_system,
        Some(SetOrUnset::Assign(OperatingSystem::Windows))
    );
    assert_eq!(script.next_windows_boot_display, None);
    assert_eq!(script.switch_to_display, Some(SwitchToDisplay::Other));
    assert_eq!(script.reboot_action, Some(RebootAction::Shutdown));
}

#[test]
fn menuentry_lines_yield_os_and_entry() {
    let line = "menuentry 'Windows Boot Manager (on /dev/nvme0n1p1)' --class windows --class os $menuentry_id_option 'osprober-efi-9CBA-6052' {";
    let (os, entry) = extract_os_and_grub_entry(line).unwrap();
    assert_eq!(os, OperatingSystem::Windows);
    assert_eq!(entry, "osprober-efi-9CBA-6052");

    let line = "menuentry 'Ubuntu Linux' --class ubuntu $menuentry_id_option 'gnulinux-simple-1234' {";
    let (os, entry) = extract_os_and_grub_entry(line).unwrap();
    assert_eq!(os, OperatingSystem::Linux);
    assert_eq!(entry, "gnulinux-simple-1234");

    assert_eq!(extract_os_and_grub_entry("set timeout=5"), None);
    assert_eq!(extract_os_and_grub_entry("menuentry 'Memory test' 'memtest86' {"), None);
}

#[test]
fn grub_entry_is_the_last_quoted_token_before_the_brace() {
    assert_eq!(
        extract_grub_entry("menuentry 'First-token' 'second-token'  {").unwrap(),
        "second-token"
    );
    assert_eq!(extract_grub_entry("no quoted token here {"), None);
    assert_eq!(extract_grub_entry("menuentry 'token' but no brace"), None);
}

#[test]
fn calibration_records_both_displays() {
    let (first, second) = display_switch_args(true);
    assert_eq!((first, second), ("1", "4"));
    let (first, second) = display_switch_args(false);
    assert_eq!((first, second), ("/internal", "/external"));

    // The first probe switched away from the initial display, so the
    // second argument is the one that names it.
    let (initial_arg, other_arg) = calibration_roles(true, first, second);
    assert_eq!((initial_arg, other_arg), ("/external", "/internal"));

    let mut writer = ConfigsWriter::load(Properties::empty());
    record_calibration(
        &mut writer,
        Display::Monitor,
        "monitor-device",
        "tv-device",
        initial_arg,
        other_arg,
    );
    let configs = Configs::load(Properties::from_file_content(&writer.save()).unwrap());
    assert_eq!(
        configs.get_display_by_device_id("tv-device").unwrap(),
        Display::TV
    );
    assert_eq!(
        configs.get_display_switch_arg(Display::Monitor).unwrap(),
        "/external"
    );
}

#[test]
fn arg_error_reports_message_and_token() {
    let e = my_reboot::args::script_args::parse("os:windows", &vec!["os:linux".to_string()])
        .err()
        .expect("result should be Err(_)");
    let text = e.text();
    assert!(text.contains("não pode ser usada mais de uma vez"));
    assert!(text.contains("os:linux"));
}

#[test]
fn configuration_error_names_the_configure_host() {
    assert_eq!(
        configuration_error("Configuração 'x' não encontrada", OperatingSystem::Windows),
        "Configuração 'x' não encontrada. Execute 'my-reboot configure' no Windows"
    );
}
