use brightness::windows::{
    brightness_devices, check_status, flag_set, get_device_info_map, lookup_technology,
    to_win32_error, wchar_to_string, BrightnessExt, Command, DdcciBrightnessValues, DisplayBrightness,
    DisplayDevice, DisplayDeviceRecord, IoctlSupportedBrightnessLevels, ModeInfo, MonitorRecord,
    OpenOutcome, Reading, SetInput, SysError, TargetInfo, DISPLAYCONFIG_MODE_INFO_TYPE_TARGET,
    DISPLAYCONFIG_OUTPUT_TECHNOLOGY_INTERNAL, DISPLAYPOLICY_BOTH, E_ACCESSDENIED,
};
use brightness::{Cause, Error};

fn s(text: &str) -> String {
    text.to_string()
}

const HDMI: u32 = 5;

fn values(min: u32, current: u32, max: u32) -> DdcciBrightnessValues {
    DdcciBrightnessValues { min, current, max }
}

#[test]
fn flags_and_status_codes() {
    assert!(flag_set(0b1011, 0b0011));
    assert!(!flag_set(0b1001, 0b0011));
    assert!(flag_set(7, 0));
    assert_eq!(to_win32_error(5), 5);
    assert_eq!(to_win32_error(-1), u32::MAX);
    assert_eq!(check_status(0), Ok(()));
    assert_eq!(check_status(87), Err(87));
}

#[test]
fn ddcci_percentage_rounds_half_up() {
    assert_eq!(values(0, 50, 100).get_current_percentage(), 50);
    assert_eq!(values(0, 50, 99).get_current_percentage(), 51);
    assert_eq!(values(0, 1, 200).get_current_percentage(), 1);
    assert_eq!(values(0, 127, 255).get_current_percentage(), 50);
    assert_eq!(values(20, 20, 120).get_current_percentage(), 0);
    assert_eq!(values(20, 120, 120).get_current_percentage(), 100);
}

#[test]
fn ddcci_percentage_edge_readings() {
    assert_eq!(values(10, 10, 10).get_current_percentage(), 0);
    assert_eq!(values(10, 5, 110).get_current_percentage(), 0);
    assert_eq!(values(10, 500, 110).get_current_percentage(), 100);
    assert_eq!(values(0, u32::MAX, u32::MAX).get_current_percentage(), 100);
}

#[test]
fn ddcci_raw_value_rounds_half_up() {
    assert_eq!(values(0, 0, 100).percentage_to_current(50), 50);
    assert_eq!(values(0, 0, 255).percentage_to_current(50), 128);
    assert_eq!(values(20, 0, 120).percentage_to_current(30), 50);
    assert_eq!(values(0, 0, 255).percentage_to_current(100), 255);
    assert_eq!(values(7, 0, 7).percentage_to_current(60), 7);
    assert_eq!(values(0, 0, u32::MAX).percentage_to_current(100), u32::MAX);
}

#[test]
fn ddcci_requests_above_hundred_are_clamped() {
    assert_eq!(values(0, 0, 100).percentage_to_current(150), 100);
    assert_eq!(values(20, 0, 120).percentage_to_current(u32::MAX), 120);
}

#[test]
fn ddcci_round_trip_is_within_one() {
    for (min, max) in [(0u32, 100u32), (0, 255), (10, 110), (3, 65535), (0, 101)] {
        for p in 0..=100u32 {
            let raw = values(min, 0, max).percentage_to_current(p);
            let back = values(min, raw, max).get_current_percentage();
            assert!(back + 1 >= p && back <= p + 1, "{} {} {}", min, max, p);
        }
    }
}

#[test]
fn nearest_level_prefers_smaller_distance() {
    let levels = IoctlSupportedBrightnessLevels(vec![0, 20, 50, 80, 100]);
    assert_eq!(levels.get_nearest(60), 50);
    assert_eq!(levels.get_nearest(70), 80);
    assert_eq!(levels.get_nearest(1000), 100);
}

#[test]
fn nearest_level_tie_goes_to_first_listed() {
    assert_eq!(IoctlSupportedBrightnessLevels(vec![40, 60]).get_nearest(50), 40);
    assert_eq!(IoctlSupportedBrightnessLevels(vec![60, 40]).get_nearest(50), 60);
}

#[test]
fn nearest_level_of_no_levels_is_zero() {
    assert_eq!(IoctlSupportedBrightnessLevels(vec![]).get_nearest(50), 0);
}

fn device(technology: u32) -> DisplayDevice {
    DisplayDevice {
        physical_monitor: 11,
        file_handle: 12,
        device_name: s("\\\\.\\DISPLAY1\\Monitor0"),
        device_description: s("Generic PnP Monitor"),
        device_key: s("\\Registry\\Machine\\System\\Monitor0"),
        device_path: s("\\\\?\\DISPLAY#ABC#1"),
        output_technology: technology,
    }
}

#[test]
fn ioctl_reading_follows_policy() {
    let dev = device(DISPLAYCONFIG_OUTPUT_TECHNOLOGY_INTERNAL);
    assert!(dev.is_internal());
    let ac = DisplayBrightness { policy: 1, ac: 70, dc: 30 };
    let dc = DisplayBrightness { policy: 2, ac: 70, dc: 30 };
    let both = DisplayBrightness { policy: 3, ac: 70, dc: 30 };
    assert_eq!(dev.percentage(Reading::Panel(Ok(ac))), Ok(70));
    assert_eq!(dev.percentage(Reading::Panel(Ok(dc))), Ok(30));
    assert_eq!(
        dev.percentage(Reading::Panel(Ok(both))),
        Err(SysError::IoctlQueryDisplayBrightnessUnexpectedResponse {
            device_name: dev.device_name.clone()
        })
    );
    assert_eq!(
        dev.percentage(Reading::Panel(Err(31))),
        Err(SysError::IoctlQueryDisplayBrightnessFailed {
            device_name: dev.device_name.clone(),
            code: 31
        })
    );
}

#[test]
fn ddcci_reading_gives_percentage() {
    let dev = device(HDMI);
    assert!(!dev.is_internal());
    assert_eq!(dev.percentage(Reading::Monitor(Ok(values(0, 30, 60)))), Ok(50));
    assert_eq!(
        dev.percentage(Reading::Monitor(Err(0xC026_2582))),
        Err(SysError::GettingMonitorBrightnessFailed {
            device_name: dev.device_name.clone(),
            code: 0xC026_2582
        })
    );
}

#[test]
fn reading_a_display_twice_gives_the_same_result() {
    let dev = device(HDMI);
    let reading = Reading::Monitor(Ok(values(0, 42, 255)));
    assert_eq!(dev.percentage(reading), dev.percentage(reading));
}

#[test]
fn panel_command_snaps_and_sets_both_policies() {
    let dev = device(DISPLAYCONFIG_OUTPUT_TECHNOLOGY_INTERNAL);
    let cmd = dev.set_command(SetInput::Levels(Ok(vec![0, 20, 50, 80, 100])), 60);
    assert_eq!(
        cmd,
        Ok(Command::Panel(DisplayBrightness { policy: DISPLAYPOLICY_BOTH, ac: 50, dc: 50 }))
    );
    let cmd = dev.set_command(SetInput::Levels(Ok(vec![10, 100, 120])), 150);
    assert_eq!(
        cmd,
        Ok(Command::Panel(DisplayBrightness { policy: DISPLAYPOLICY_BOTH, ac: 100, dc: 100 }))
    );
    assert_eq!(
        dev.set_command(SetInput::Levels(Err(1)), 60),
        Err(SysError::IoctlQuerySupportedBrightnessFailed {
            device_name: dev.device_name.clone(),
            code: 1
        })
    );
}

#[test]
fn monitor_command_scales_into_range() {
    let dev = device(HDMI);
    assert_eq!(dev.set_command(SetInput::Monitor(Ok(values(0, 3, 255))), 50), Ok(Command::Monitor(128)));
    assert_eq!(dev.set_command(SetInput::Monitor(Ok(values(0, 3, 255))), 400), Ok(Command::Monitor(255)));
    assert_eq!(
        dev.set_command(SetInput::Monitor(Err(2)), 50),
        Err(SysError::GettingMonitorBrightnessFailed {
            device_name: dev.device_name.clone(),
            code: 2
        })
    );
}

#[test]
fn command_outcomes() {
    let dev = device(HDMI);
    let panel = Command::Panel(DisplayBrightness { policy: DISPLAYPOLICY_BOTH, ac: 5, dc: 5 });
    let monitor = Command::Monitor(5);
    assert_eq!(dev.command_outcome(&panel, Ok(())), Ok(()));
    assert_eq!(
        dev.command_outcome(&panel, Err(6)),
        Err(SysError::IoctlSetBrightnessFailed { device_name: dev.device_name.clone(), code: 6 })
    );
    assert_eq!(
        dev.command_outcome(&monitor, Err(6)),
        Err(SysError::SettingBrightnessFailed { device_name: dev.device_name.clone(), code: 6 })
    );
}

fn mode(info_type: u32, status: i32, path: &str, technology: u32) -> ModeInfo {
    ModeInfo { info_type, status, device_path: s(path), output_technology: technology }
}

#[test]
fn info_map_keeps_granted_targets() {
    let modes = vec![
        mode(1, 0, "source", 0),
        mode(DISPLAYCONFIG_MODE_INFO_TYPE_TARGET, 0, "a", HDMI),
        mode(DISPLAYCONFIG_MODE_INFO_TYPE_TARGET, 5, "denied", HDMI),
        mode(DISPLAYCONFIG_MODE_INFO_TYPE_TARGET, 0, "b", DISPLAYCONFIG_OUTPUT_TECHNOLOGY_INTERNAL),
    ];
    assert_eq!(
        get_device_info_map(&modes),
        Ok(vec![
            TargetInfo { device_path: s("a"), output_technology: HDMI },
            TargetInfo {
                device_path: s("b"),
                output_technology: DISPLAYCONFIG_OUTPUT_TECHNOLOGY_INTERNAL
            },
        ])
    );
}

#[test]
fn info_map_stops_at_failed_query() {
    let modes = vec![
        mode(DISPLAYCONFIG_MODE_INFO_TYPE_TARGET, 0, "a", HDMI),
        mode(1, 87, "source", 0),
        mode(DISPLAYCONFIG_MODE_INFO_TYPE_TARGET, 87, "b", HDMI),
        mode(DISPLAYCONFIG_MODE_INFO_TYPE_TARGET, 31, "c", HDMI),
    ];
    assert_eq!(get_device_info_map(&modes), Err(SysError::DisplayConfigGetDeviceInfoFailed(87)));
}

#[test]
fn later_entry_wins_lookup() {
    let entries = vec![
        TargetInfo { device_path: s("a"), output_technology: 1 },
        TargetInfo { device_path: s("b"), output_technology: 2 },
        TargetInfo { device_path: s("a"), output_technology: 3 },
    ];
    assert_eq!(lookup_technology(&entries, &s("a")), Some(3));
    assert_eq!(lookup_technology(&entries, &s("b")), Some(2));
    assert_eq!(lookup_technology(&entries, &s("c")), None);
}

fn record(name: &str, id: &str, state_flags: u32, open: OpenOutcome) -> DisplayDeviceRecord {
    DisplayDeviceRecord {
        device_name: s(name),
        device_string: s("Generic PnP Monitor"),
        device_key: format!("key-{}", name),
        device_id: s(id),
        state_flags,
        open,
    }
}

fn config() -> Result<Vec<ModeInfo>, SysError> {
    Ok(vec![
        mode(DISPLAYCONFIG_MODE_INFO_TYPE_TARGET, 0, "path-a", HDMI),
        mode(DISPLAYCONFIG_MODE_INFO_TYPE_TARGET, 0, "path-b", DISPLAYCONFIG_OUTPUT_TECHNOLOGY_INTERNAL),
    ])
}

#[test]
fn mismatched_monitor_fails_alone() {
    let mismatched = MonitorRecord {
        physical_monitors: Ok(vec![101, 102]),
        display_devices: Ok(vec![
            record("A0", "path-a", 1, OpenOutcome::Opened(201)),
            record("A1", "path-x", 0, OpenOutcome::Opened(202)),
        ]),
    };
    let paired = MonitorRecord {
        physical_monitors: Ok(vec![103]),
        display_devices: Ok(vec![record("B0", "path-b", 1, OpenOutcome::Opened(203))]),
    };
    let found = brightness_devices(config(), Ok(vec![mismatched, paired]));
    assert_eq!(found.len(), 2);
    assert_eq!(found[0], Err(SysError::EnumerationMismatch));
    let dev = found[1].clone().unwrap();
    assert_eq!(dev.physical_monitor, 103);
    assert_eq!(dev.file_handle, 203);
    assert_eq!(dev.device_name, "B0");
    assert_eq!(dev.device_path, "path-b");
    assert_eq!(dev.device_key, "key-B0");
    assert!(dev.is_internal());
}

#[test]
fn pairs_follow_position_among_active_records() {
    let monitor = MonitorRecord {
        physical_monitors: Ok(vec![101, 102]),
        display_devices: Ok(vec![
            record("A0", "path-b", 1, OpenOutcome::Opened(201)),
            record("idle", "path-x", 2, OpenOutcome::Opened(299)),
            record("A1", "path-a", 3, OpenOutcome::Opened(202)),
        ]),
    };
    let found = brightness_devices(config(), Ok(vec![monitor]));
    let names: Vec<(u64, u64, String, u32)> = found
        .into_iter()
        .map(|r| r.unwrap())
        .map(|d| (d.physical_monitor, d.file_handle, d.device_name, d.output_technology))
        .collect();
    assert_eq!(
        names,
        vec![
            (101, 201, s("A0"), DISPLAYCONFIG_OUTPUT_TECHNOLOGY_INTERNAL),
            (102, 202, s("A1"), HDMI),
        ]
    );
}

#[test]
fn denied_interfaces_are_skipped_and_other_failures_reported() {
    let monitor = MonitorRecord {
        physical_monitors: Ok(vec![101, 102, 103]),
        display_devices: Ok(vec![
            record("virtual", "path-a", 1, OpenOutcome::Failed(E_ACCESSDENIED)),
            record("broken", "path-a", 1, OpenOutcome::Failed(0x8007_0002)),
            record("unknown", "path-z", 1, OpenOutcome::Opened(203)),
        ]),
    };
    let found = brightness_devices(config(), Ok(vec![monitor]));
    assert_eq!(
        found,
        vec![
            Err(SysError::OpeningMonitorDeviceInterfaceHandleFailed {
                device_name: s("broken"),
                code: 0x8007_0002
            }),
            Err(SysError::DeviceInfoMissing),
        ]
    );
}

#[test]
fn monitor_query_failures_are_reported_per_monitor() {
    let no_physical = MonitorRecord {
        physical_monitors: Err(1),
        display_devices: Ok(vec![]),
    };
    let no_info = MonitorRecord { physical_monitors: Ok(vec![]), display_devices: Err(2) };
    let empty = MonitorRecord { physical_monitors: Ok(vec![]), display_devices: Ok(vec![]) };
    let found = brightness_devices(config(), Ok(vec![no_physical, no_info, empty]));
    assert_eq!(
        found,
        vec![Err(SysError::GetPhysicalMonitorsFailed(1)), Err(SysError::GetMonitorInfoFailed(2))]
    );
}

#[test]
fn global_failures_are_one_error() {
    assert_eq!(
        brightness_devices(Err(SysError::QueryDisplayConfigFailed(8)), Ok(vec![])),
        vec![Err(SysError::QueryDisplayConfigFailed(8))]
    );
    let bad_config = Ok(vec![mode(DISPLAYCONFIG_MODE_INFO_TYPE_TARGET, 31, "a", HDMI)]);
    assert_eq!(
        brightness_devices(bad_config, Ok(vec![])),
        vec![Err(SysError::DisplayConfigGetDeviceInfoFailed(31))]
    );
    assert_eq!(
        brightness_devices(config(), Err(1400)),
        vec![Err(SysError::EnumDisplayMonitorsFailed(1400))]
    );
}

#[test]
fn display_extension_getters() {
    let dev = device(HDMI);
    assert_eq!(dev.device_description(), Ok(s("Generic PnP Monitor")));
    assert_eq!(dev.device_registry_key(), Ok(s("\\Registry\\Machine\\System\\Monitor0")));
    assert_eq!(dev.device_path(), Ok(s("\\\\?\\DISPLAY#ABC#1")));
}

#[test]
fn display_errors_map_to_three_kinds() {
    let listing = [
        SysError::EnumDisplayMonitorsFailed(1),
        SysError::GetDisplayConfigBufferSizesFailed(1),
        SysError::QueryDisplayConfigFailed(1),
        SysError::DisplayConfigGetDeviceInfoFailed(1),
        SysError::GetMonitorInfoFailed(1),
        SysError::GetPhysicalMonitorsFailed(1),
        SysError::EnumerationMismatch,
        SysError::DeviceInfoMissing,
        SysError::OpeningMonitorDeviceInterfaceHandleFailed { device_name: s("d"), code: 1 },
    ];
    for e in listing {
        assert_eq!(Error::from(e.clone()), Error::ListingDevicesFailed(Cause::Display(e)));
    }
    let getting = [
        SysError::IoctlQuerySupportedBrightnessFailed { device_name: s("d"), code: 1 },
        SysError::IoctlQueryDisplayBrightnessFailed { device_name: s("d"), code: 1 },
        SysError::IoctlQueryDisplayBrightnessUnexpectedResponse { device_name: s("d") },
        SysError::GettingMonitorBrightnessFailed { device_name: s("d"), code: 1 },
    ];
    for e in getting {
        assert_eq!(
            Error::from(e.clone()),
            Error::GettingDeviceInfoFailed { device: s("d"), source: Cause::Display(e) }
        );
    }
    let setting = [
        SysError::IoctlSetBrightnessFailed { device_name: s("d"), code: 1 },
        SysError::SettingBrightnessFailed { device_name: s("d"), code: 1 },
    ];
    for e in setting {
        assert_eq!(
            Error::from(e.clone()),
            Error::SettingBrightnessFailed { device: s("d"), source: Cause::Display(e) }
        );
    }
}

#[test]
fn wide_text_stops_at_nul() {
    assert_eq!(wchar_to_string(&[0x41, 0x42, 0, 0x43]), "AB");
    assert_eq!(wchar_to_string(&[0x48, 0x69]), "Hi");
    assert_eq!(wchar_to_string(&[0, 0x41]), "");
    assert_eq!(wchar_to_string(&[]), "");
    assert_eq!(wchar_to_string(&[0xE9, 0x20AC, 0]), "\u{e9}\u{20ac}");
    assert_eq!(wchar_to_string(&[0xD800, 0x41]), "\u{fffd}A");
}
