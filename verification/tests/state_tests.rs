use my_reboot::configs::{Configs, ConfigsWriter};
use my_reboot::errors::ErrorCategory;
use my_reboot::grubenv::{Grubenv, GRUBENV_CONTENT_LENGTH};
use my_reboot::options_types::{Display, OperatingSystem, RebootAction};
use my_reboot::properties::Properties;
use my_reboot::script::{Script, ScriptExecutor, SetOrUnset, SwitchDecision, SwitchToDisplay};
use my_reboot::state::StateProvider;

fn configured_props() -> Properties {
    let mut props = Properties::empty();
    props.set("windows.grubEntry", "Windows-entry");
    props.set("linux.grubEntry", "Linux-entry");
    props.set("monitor.deviceId", "monitor-device");
    props.set("tv.deviceId", "tv-device");
    props.set("monitor.displaySwitchArg", "/internal");
    props.set("tv.displaySwitchArg", "/external");
    props
}

fn configured_configs() -> Configs {
    Configs::load(configured_props())
}

#[test]
fn mapping_resolution_finds_the_matching_value() {
    let configs = configured_configs();

    assert_eq!(
        configs.get_operating_system_by_grub_entry("Linux-entry").unwrap(),
        OperatingSystem::Linux
    );
    assert_eq!(
        configs.get_operating_system_by_grub_entry("Windows-entry").unwrap(),
        OperatingSystem::Windows
    );
}

#[test]
fn mapping_resolution_fails_fatally_on_unknown_value() {
    let configs = configured_configs();

    let e = configs
        .get_operating_system_by_grub_entry("nonexistent")
        .err()
        .expect("result should be Err(_)");
    assert_eq!(e.category, ErrorCategory::Integrity);
    assert!(e.message().contains("nonexistent"));
    assert!(e.message().contains("configure"));
}

#[test]
fn missing_mapping_key_is_fatal_and_names_the_host() {
    let configs = Configs::load(Properties::empty());

    let e = configs
        .get_grub_entry(OperatingSystem::Windows)
        .err()
        .expect("result should be Err(_)");
    assert_eq!(e.category, ErrorCategory::Integrity);
    assert!(e.message().contains("windows.grubEntry"));
    assert!(e.message().contains("Linux"));

    let e = configs
        .get_display_switch_arg(Display::TV)
        .err()
        .expect("result should be Err(_)");
    assert_eq!(e.category, ErrorCategory::Integrity);
    assert!(e.message().contains("tv.displaySwitchArg"));
    assert!(e.message().contains("Windows"));
}

#[test]
fn configs_writer_records_all_three_attributes() {
    let mut writer = ConfigsWriter::load(Properties::empty());

    writer.set_grub_entry(OperatingSystem::Windows, "Windows-entry");
    writer.set_device_id(Display::Monitor, "monitor-device");
    writer.set_display_switch_arg(Display::Monitor, "/internal");

    let content = writer.save();
    let reloaded = Configs::load(Properties::from_file_content(&content).unwrap());
    assert_eq!(
        reloaded.get_grub_entry(OperatingSystem::Windows).unwrap(),
        "Windows-entry"
    );
    assert_eq!(
        reloaded.get_display_by_device_id("monitor-device").unwrap(),
        Display::Monitor
    );
    assert_eq!(
        reloaded.get_display_switch_arg(Display::Monitor).unwrap(),
        "/internal"
    );
}

fn provider_with(saved_display: Option<Display>) -> StateProvider {
    let grubenv = Grubenv::empty();
    let mut options = Properties::empty();
    if let Some(d) = saved_display {
        options.set(
            "windows.display",
            match d {
                Display::Monitor => "monitor",
                Display::TV => "tv",
            },
        );
    }
    StateProvider::new(grubenv, options, configured_configs())
}

#[test]
fn end_to_end_set_next_boot_operating_system() {
    // An empty options store and a boot block with no saved entry.
    let provider = provider_with(None);
    let mut executor = ScriptExecutor::new(provider, true);

    let boot_block_content = executor
        .apply_next_boot_operating_system(&SetOrUnset::Assign(OperatingSystem::Windows))
        .unwrap();

    assert_eq!(boot_block_content.len(), GRUBENV_CONTENT_LENGTH);
    assert!(boot_block_content.contains("saved_entry=Windows-entry\n"));

    let provider = executor.into_state_provider();
    let state = provider.get_state(None).unwrap();
    assert_eq!(
        state.next_boot_operating_system,
        Some(OperatingSystem::Windows)
    );
    assert_eq!(state.next_windows_boot_display, None);
    assert_eq!(state.current_display, None);

    // The block written back parses to the same state and stays full
    // size.
    let reloaded = Grubenv::from_file_content(&boot_block_content).unwrap();
    assert_eq!(reloaded.get("saved_entry").unwrap().as_str(), "Windows-entry");
    assert_eq!(
        reloaded.to_file_content().unwrap().len(),
        GRUBENV_CONTENT_LENGTH
    );
}

#[test]
fn unset_next_boot_operating_system_clears_the_entry() {
    let provider = provider_with(None);
    let mut executor = ScriptExecutor::new(provider, true);
    executor
        .apply_next_boot_operating_system(&SetOrUnset::Assign(OperatingSystem::Linux))
        .unwrap();

    let content = executor
        .apply_next_boot_operating_system(&SetOrUnset::Unset)
        .unwrap();

    assert!(!content.contains("saved_entry"));
    let provider = executor.into_state_provider();
    assert_eq!(provider.get_next_boot_operating_system().unwrap(), None);
}

#[test]
fn apply_next_windows_boot_display_saves_the_code() {
    let provider = provider_with(None);
    let mut executor = ScriptExecutor::new(provider, true);

    let options_content =
        executor.apply_next_windows_boot_display(&SetOrUnset::Assign(Display::TV));

    assert!(options_content.contains("windows.display=tv\n"));
    let provider = executor.into_state_provider();
    assert_eq!(provider.get_next_windows_boot_display(), Some(Display::TV));
}

#[test]
fn stale_display_code_reads_as_unset() {
    let grubenv = Grubenv::empty();
    let mut options = Properties::empty();
    options.set("windows.display", "beamer");
    let provider = StateProvider::new(grubenv, options, configured_configs());

    assert_eq!(provider.get_next_windows_boot_display(), None);
}

#[test]
fn saved_entry_with_no_mapping_is_fatal() {
    let mut grubenv = Grubenv::empty();
    grubenv.set("saved_entry", "Stale-entry");
    let provider = StateProvider::new(grubenv, Properties::empty(), configured_configs());

    let e = provider
        .get_next_boot_operating_system()
        .err()
        .expect("result should be Err(_)");
    assert_eq!(e.category, ErrorCategory::Integrity);
}

#[test]
fn switch_without_display_support_is_a_user_error() {
    let provider = provider_with(None);
    let executor = ScriptExecutor::new(provider, true);

    let e = executor
        .decide_switch_to_display(&SwitchToDisplay::Other, None)
        .err()
        .expect("result should be Err(_)");
    assert_eq!(e.category, ErrorCategory::User);
}

#[test]
fn switch_to_other_targets_the_one_other_display() {
    let provider = provider_with(None);
    let executor = ScriptExecutor::new(provider, true);

    let decision = executor
        .decide_switch_to_display(&SwitchToDisplay::Other, Some("monitor-device"))
        .unwrap();

    match decision {
        SwitchDecision::Switch {
            to,
            switch_arg,
            consume_saved,
        } => {
            assert_eq!(to, Display::TV);
            assert_eq!(switch_arg, "/external");
            assert!(!consume_saved);
        }
        _ => panic!("decision should be Switch"),
    }
}

#[test]
fn switch_to_current_display_is_a_no_op() {
    let provider = provider_with(None);
    let executor = ScriptExecutor::new(provider, true);

    let decision = executor
        .decide_switch_to_display(
            &SwitchToDisplay::Display(Display::Monitor),
            Some("monitor-device"),
        )
        .unwrap();

    assert!(matches!(
        decision,
        SwitchDecision::AlreadyCurrent(Display::Monitor)
    ));
}

#[test]
fn switch_to_saved_without_saved_display_is_a_no_op() {
    // No next-Windows-boot display is saved.
    let provider = provider_with(None);
    let executor = ScriptExecutor::new(provider, true);

    let decision = executor
        .decide_switch_to_display(&SwitchToDisplay::Saved, Some("monitor-device"))
        .unwrap();

    assert!(matches!(decision, SwitchDecision::SavedUndefined));
    // Nothing was mutated: the state still shows no saved display.
    let provider = executor.into_state_provider();
    assert_eq!(provider.get_next_windows_boot_display(), None);
}

#[test]
fn switch_to_saved_switches_and_consumes_the_preference() {
    // The saved display is the TV and the current one is the monitor.
    let provider = provider_with(Some(Display::TV));
    let mut executor = ScriptExecutor::new(provider, true);

    let decision = executor
        .decide_switch_to_display(&SwitchToDisplay::Saved, Some("monitor-device"))
        .unwrap();

    match decision {
        SwitchDecision::Switch {
            to,
            switch_arg,
            consume_saved,
        } => {
            assert_eq!(to, Display::TV);
            assert_eq!(switch_arg, "/external");
            assert!(consume_saved);
        }
        _ => panic!("decision should be Switch"),
    }

    // After the host reports a successful switch, the preference is
    // consumed.
    let options_content = executor.finish_saved_display_switch();
    assert!(!options_content.contains("windows.display"));
    let provider = executor.into_state_provider();
    assert_eq!(provider.get_next_windows_boot_display(), None);
}

#[test]
fn switch_to_saved_display_already_current_keeps_the_preference() {
    let provider = provider_with(Some(Display::Monitor));
    let executor = ScriptExecutor::new(provider, true);

    let decision = executor
        .decide_switch_to_display(&SwitchToDisplay::Saved, Some("monitor-device"))
        .unwrap();

    assert!(matches!(
        decision,
        SwitchDecision::SavedAlreadyCurrent(Display::Monitor)
    ));
    let provider = executor.into_state_provider();
    assert_eq!(
        provider.get_next_windows_boot_display(),
        Some(Display::Monitor)
    );
}

#[test]
fn current_display_resolves_through_the_device_id_mapping() {
    let provider = provider_with(None);

    assert_eq!(
        provider.get_current_display(Some("tv-device")).unwrap(),
        Some(Display::TV)
    );
    assert_eq!(provider.get_current_display(None).unwrap(), None);

    let e = provider
        .get_current_display(Some("unknown-device"))
        .err()
        .expect("result should be Err(_)");
    assert_eq!(e.category, ErrorCategory::Integrity);
}

#[test]
fn dry_run_suppresses_the_reboot_action() {
    let executor = ScriptExecutor::new(provider_with(None), true);
    assert!(!executor.should_perform_reboot_action());

    let executor = ScriptExecutor::new(provider_with(None), false);
    assert!(executor.should_perform_reboot_action());
}

#[test]
fn script_execute_runs_every_axis_in_order() {
    // Empty options store, boot block with no saved entry.
    let provider = provider_with(None);
    let mut executor = ScriptExecutor::new(provider, true);
    let mut script = Script::new();
    script.next_boot_operating_system = Some(SetOrUnset::Assign(OperatingSystem::Windows));
    script.next_windows_boot_display = Some(SetOrUnset::Assign(Display::TV));
    script.reboot_action = Some(RebootAction::Reboot);

    let outcome = script.execute(&mut executor, None);

    assert!(outcome.error.is_none());
    let boot = outcome.boot_block_content.expect("boot block should be written");
    assert_eq!(boot.len(), GRUBENV_CONTENT_LENGTH);
    assert!(boot.contains("saved_entry=Windows-entry\n"));
    let options = outcome.options_content.expect("options should be written");
    assert!(options.contains("windows.display=tv\n"));
    assert!(outcome.switch.is_none());
    assert_eq!(outcome.reboot_action, Some(RebootAction::Reboot));
    assert!(!outcome.perform_reboot_action);

    let provider = executor.into_state_provider();
    let state = provider.get_state(None).unwrap();
    assert_eq!(
        state.next_boot_operating_system,
        Some(OperatingSystem::Windows)
    );
    assert_eq!(state.next_windows_boot_display, Some(Display::TV));
}

#[test]
fn script_execute_keeps_earlier_changes_when_a_later_axis_fails() {
    let provider = provider_with(None);
    let mut executor = ScriptExecutor::new(provider, true);
    let mut script = Script::new();
    script.next_boot_operating_system = Some(SetOrUnset::Assign(OperatingSystem::Linux));
    script.switch_to_display = Some(SwitchToDisplay::Other);

    // No display support on this host: the switch axis fails, but the
    // boot axis already produced its write.
    let outcome = script.execute(&mut executor, None);

    assert!(outcome.boot_block_content.is_some());
    assert!(outcome.switch.is_none());
    assert!(outcome.reboot_action.is_none());
    let e = outcome.error.expect("the switch axis should fail");
    assert_eq!(e.category, ErrorCategory::User);
}
