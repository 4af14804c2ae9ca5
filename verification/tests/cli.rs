use xm125_radar_monitor::cli::get_gpio_pins;
use xm125_radar_monitor::cli::get_i2c_device_path;
use xm125_radar_monitor::cli::parse_i2c_address;
use xm125_radar_monitor::cli::FirmwareAction;
use xm125_radar_monitor::device_manager::DeviceManager;
use xm125_radar_monitor::error::RadarError;
use xm125_radar_monitor::fifo::FifoFormat;
use xm125_radar_monitor::fifo::FifoWriter;
use xm125_radar_monitor::firmware::FirmwareType;
use xm125_radar_monitor::gpio::XM125GpioPins;

#[test]
fn an_i2c_address_is_decimal_or_hexadecimal() {
    assert_eq!(parse_i2c_address("0x52"), Ok(0x52));
    assert_eq!(parse_i2c_address("0x48"), Ok(72));
    assert_eq!(parse_i2c_address("82"), Ok(82));
    assert_eq!(parse_i2c_address("0"), Ok(0));
    assert_eq!(parse_i2c_address("65535"), Ok(65535));
    assert_eq!(parse_i2c_address("0xFFFF"), Ok(65535));
    assert_eq!(parse_i2c_address("0xff"), Ok(255));
}

#[test]
fn a_bad_i2c_address_is_repeated_in_the_error() {
    assert_eq!(parse_i2c_address("0xZZ"), Err("Invalid hex I2C address: 0xZZ".to_string()));
    assert_eq!(parse_i2c_address("0x"), Err("Invalid hex I2C address: 0x".to_string()));
    assert_eq!(parse_i2c_address("0x10000"), Err("Invalid hex I2C address: 0x10000".to_string()));
    assert_eq!(parse_i2c_address("abc"), Err("Invalid I2C address: abc".to_string()));
    assert_eq!(parse_i2c_address("65536"), Err("Invalid I2C address: 65536".to_string()));
    assert_eq!(parse_i2c_address(""), Err("Invalid I2C address: ".to_string()));
    assert_eq!(parse_i2c_address("0X52"), Err("Invalid I2C address: 0X52".to_string()));
    assert_eq!(parse_i2c_address("52h"), Err("Invalid I2C address: 52h".to_string()));
}

#[test]
fn the_device_path_comes_from_the_bus_unless_it_is_given() {
    assert_eq!(get_i2c_device_path(None, 2), "/dev/i2c-2");
    assert_eq!(get_i2c_device_path(None, 10), "/dev/i2c-10");
    assert_eq!(get_i2c_device_path(Some("/dev/i2c-7"), 2), "/dev/i2c-7");
    assert_eq!(
        get_gpio_pins(1, 2, 3, 4),
        XM125GpioPins { reset: 1, mcu_interrupt: 2, wake_up: 3, boot: 4 }
    );
}

#[test]
fn some_firmware_actions_do_without_the_radar() {
    assert!(FirmwareAction::Check.needs_radar());
    assert!(FirmwareAction::Update {
        firmware_type: FirmwareType::Presence,
        force: false,
        verify: true
    }
    .needs_radar());
    assert!(FirmwareAction::Verify { expected: None }.needs_radar());
    assert!(!FirmwareAction::Erase { confirm: true }.needs_radar());
    assert!(!FirmwareAction::Checksum { selected: None, verbose: false }.needs_radar());
    assert!(!FirmwareAction::Bootloader { test_mode: false }.needs_radar());
}

#[test]
fn fifo_formats_are_named_in_any_case() {
    assert_eq!(FifoFormat::from_name("simple"), Some(FifoFormat::Simple));
    assert_eq!(FifoFormat::from_name("SIMPLE"), Some(FifoFormat::Simple));
    assert_eq!(FifoFormat::from_name("json"), Some(FifoFormat::Json));
    assert_eq!(FifoFormat::from_name("Json"), Some(FifoFormat::Json));
    assert_eq!(FifoFormat::from_name("xml"), None);
    assert_eq!(FifoFormat::from_name(""), None);
    assert_eq!(FifoFormat::from_name("json "), None);
    assert_eq!(FifoFormat::from_name("simpl"), None);
}

#[test]
fn the_fifo_is_written_once_per_interval() {
    let mut writer = FifoWriter::new(5000);
    assert!(writer.should_write(1000));
    assert_eq!(writer.last_write, Some(1000));
    assert!(!writer.should_write(1001));
    assert!(!writer.should_write(5999));
    assert_eq!(writer.last_write, Some(1000));
    assert!(writer.should_write(6000));
    assert_eq!(writer.last_write, Some(6000));
    assert!(!writer.should_write(500));
    let mut always = FifoWriter::new(0);
    assert!(always.should_write(0));
    assert!(always.should_write(0));
    assert_eq!(always.last_write, None);
}

#[test]
fn the_bus_number_is_read_from_the_device_path() {
    let bus = |path: &str| DeviceManager::new(path, 0x52, "/fw", "/ctl").extract_i2c_bus_number();
    assert_eq!(bus("/dev/i2c-2"), 2);
    assert_eq!(bus("/dev/i2c-10"), 10);
    assert_eq!(bus("/dev/i2c-255"), 255);
    assert_eq!(bus("/dev/i2c-0"), 0);
    assert_eq!(bus("7"), 7);
    assert_eq!(bus("/dev/i2c-256"), 2);
    assert_eq!(bus("/dev/i2c-"), 2);
    assert_eq!(bus("/dev/i2c"), 2);
    assert_eq!(bus("/dev/i2c-x"), 2);
    assert_eq!(bus("/dev/my-bus/i2c-5"), 5);
    assert_eq!(bus(""), 2);
}

#[test]
fn a_bus_scan_shows_the_module_at_either_address() {
    let manager = DeviceManager::new("/dev/i2c-2", 0x52, "/fw", "/ctl");
    let run_mode = b"     0  1  2  3\n50: -- -- 52 -- -- --\n";
    let bootloader = b"40: -- -- -- -- -- -- -- -- 48 -- --\n";
    let empty = b"50: -- -- -- -- \n";
    assert!(manager.scan_shows_device(run_mode));
    assert!(manager.scan_shows_device(bootloader));
    assert!(!manager.scan_shows_device(empty));
    let other = DeviceManager::new("/dev/i2c-2", 0x1a, "/fw", "/ctl");
    assert!(!other.scan_shows_device(run_mode));
    assert!(other.scan_shows_device(b"10: -- 1a -- "));
    assert!(!other.scan_shows_device(b"10: -- 1A -- "));
    assert_eq!(other.i2c_address(), 0x1a);
}

#[test]
fn a_module_that_was_not_seen_is_absent_and_needs_a_reset() {
    let manager = DeviceManager::new("/dev/i2c-2", 0x52, "/fw", "/ctl");
    let seen = manager.check_device_presence(true);
    assert!(seen.is_present && seen.is_responsive && !seen.needs_reset);
    assert_eq!(seen.firmware_type, None);
    assert_eq!(DeviceManager::require_present(&seen), Ok(()));
    let absent = manager.check_device_presence(false);
    assert!(!absent.is_present && !absent.is_responsive && absent.needs_reset);
    assert_eq!(DeviceManager::require_present(&absent), Err(RadarError::ModuleNotProgrammed));
    assert_eq!(
        manager.get_device_info(&absent),
        "Device Present: NO\nDevice Responsive: NO\nNeeds Reset: YES"
    );
}

#[test]
fn an_update_counts_only_when_the_module_runs_the_target() {
    let manager = DeviceManager::new("/dev/i2c-2", 0x52, "/fw", "/ctl");
    let unknown = manager.check_device_presence(true);
    assert!(DeviceManager::update_needed(&unknown, FirmwareType::Presence));
    let presence = DeviceManager::identified(2);
    assert_eq!(presence.firmware_type, Some(FirmwareType::Presence));
    assert_eq!(presence.app_id, Some(2));
    assert!(!DeviceManager::update_needed(&presence, FirmwareType::Presence));
    assert!(DeviceManager::update_needed(&presence, FirmwareType::Distance));
    assert_eq!(DeviceManager::update_outcome(FirmwareType::Presence, &presence), Ok(()));
    assert_eq!(
        DeviceManager::update_outcome(FirmwareType::Distance, &presence),
        Err(RadarError::FirmwareError {
            cause: xm125_radar_monitor::error::FirmwareFault::ApplicationMismatch {
                expected: 1,
                actual: 2
            }
        })
    );
    assert_eq!(
        DeviceManager::update_outcome(FirmwareType::Distance, &unknown),
        Err(RadarError::FirmwareError {
            cause: xm125_radar_monitor::error::FirmwareFault::Unverified
        })
    );
}

#[test]
fn an_unknown_application_never_counts_as_an_update() {
    for id in [0u32, 4, 7, u32::MAX] {
        let state = DeviceManager::identified(id);
        assert_eq!(state.firmware_type, None);
        assert_eq!(state.app_id, Some(id));
        assert!(state.is_present && state.is_responsive && !state.needs_reset);
        for target in [FirmwareType::Distance, FirmwareType::Presence, FirmwareType::Breathing] {
            assert!(DeviceManager::update_needed(&state, target));
            assert!(!DeviceManager::runs(&state, target));
            assert_eq!(
                DeviceManager::update_outcome(target, &state),
                Err(RadarError::FirmwareError {
                    cause: xm125_radar_monitor::error::FirmwareFault::ApplicationMismatch {
                        expected: target.application_id(),
                        actual: id
                    }
                })
            );
        }
    }
    for target in [FirmwareType::Distance, FirmwareType::Presence, FirmwareType::Breathing] {
        let state = DeviceManager::identified(target.application_id());
        assert_eq!(state.firmware_type, Some(target));
        assert!(DeviceManager::runs(&state, target));
        assert_eq!(DeviceManager::update_outcome(target, &state), Ok(()));
    }
}

#[test]
fn the_application_id_decides_where_it_is_known() {
    let mut state = DeviceManager::identified(2);
    state.firmware_type = Some(FirmwareType::Distance);
    assert!(!DeviceManager::runs(&state, FirmwareType::Distance));
    assert!(DeviceManager::runs(&state, FirmwareType::Presence));
    state.app_id = None;
    assert!(DeviceManager::runs(&state, FirmwareType::Distance));
    assert_eq!(
        DeviceManager::update_outcome(FirmwareType::Presence, &state),
        Err(RadarError::FirmwareError {
            cause: xm125_radar_monitor::error::FirmwareFault::ApplicationMismatch {
                expected: 2,
                actual: 1
            }
        })
    );
}

#[test]
fn monitoring_goes_on_until_the_count_is_reached() {
    use_count(Some(3), &[true, true, true, false, false]);
    use_count(Some(0), &[false]);
    use_count(None, &[true, true, true, true]);
    assert!(!xm125_radar_monitor::fifo::measurements_left(None, u32::MAX));
}

fn use_count(count: Option<u32>, expected: &[bool]) {
    for (taken, left) in expected.iter().enumerate() {
        assert_eq!(xm125_radar_monitor::fifo::measurements_left(count, taken as u32), *left);
    }
}
