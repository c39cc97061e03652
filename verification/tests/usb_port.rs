use shield_bsp::monitor::{
    AddressPin, MeasuredSignals, MonitorConfig, OperatingMode, Resolution, BusVoltageRange,
    ShuntVoltageRange,
};
use shield_bsp::usb_power::{
    enable_line_high, monitor_address, monitor_settle_us, port_label, port_monitor_pin,
    status_from_flag, usb_monitor_config,
};

#[test]
fn monitor_addresses_of_the_ports() {
    assert_eq!(monitor_address(AddressPin::Vcc), 0x41);
    assert_eq!(monitor_address(AddressPin::Gnd), 0x40);
    assert_eq!(monitor_address(AddressPin::Sda), 0x42);
    assert_eq!(monitor_address(AddressPin::Scl), 0x43);
}

#[test]
fn port_wiring() {
    assert_eq!(port_monitor_pin(0), Some(AddressPin::Vcc));
    assert_eq!(port_monitor_pin(1), Some(AddressPin::Gnd));
    assert_eq!(port_monitor_pin(2), None);
}

#[test]
fn port_labels() {
    assert_eq!(port_label(AddressPin::Vcc), "0");
    assert_eq!(port_label(AddressPin::Gnd), "1");
    assert_eq!(port_label(AddressPin::Sda), "oops");
    assert_eq!(port_label(AddressPin::Scl), "oops");
}

#[test]
fn enable_line_is_active_low() {
    assert!(!enable_line_high(true));
    assert!(enable_line_high(false));
}

#[test]
fn fault_flag_is_active_low() {
    assert_eq!(status_from_flag(true), Ok(()));
    assert_eq!(status_from_flag(false), Err(()));
}

#[test]
fn usb_monitor_configuration() {
    let c = usb_monitor_config();
    assert_eq!(c.bus_voltage_range, BusVoltageRange::Fsr16v);
    assert_eq!(c.shunt_voltage_range, ShuntVoltageRange::Fsr160mv);
    assert_eq!(c.bus_resolution, Resolution::Res12Bit);
    assert_eq!(c.shunt_resolution, Resolution::Res12Bit);
    assert_eq!(c.operating_mode, OperatingMode::Continuous(MeasuredSignals::ShuntAndBusVoltage));
    // Two 12 bit conversions of 532 µs each.
    assert_eq!(c.conversion_time_us(), Some(1_064));
    assert_eq!(monitor_settle_us(&c), 1_064);
}

#[test]
fn conversion_times() {
    let base = usb_monitor_config();
    let c = MonitorConfig { operating_mode: OperatingMode::PowerDown, ..base };
    assert_eq!(c.conversion_time_us(), None);
    assert_eq!(monitor_settle_us(&c), 100);
    let c = MonitorConfig { operating_mode: OperatingMode::AdcOff, ..base };
    assert_eq!(monitor_settle_us(&c), 100);
    let c = MonitorConfig {
        shunt_resolution: Resolution::Avg128,
        bus_resolution: Resolution::Res9Bit,
        operating_mode: OperatingMode::Triggered(MeasuredSignals::ShuntVoltage),
        ..base
    };
    assert_eq!(c.conversion_time_us(), Some(68_100));
    let c = MonitorConfig { operating_mode: OperatingMode::Continuous(MeasuredSignals::BusVoltage), ..c };
    assert_eq!(c.conversion_time_us(), Some(84));
    let c = MonitorConfig {
        bus_resolution: Resolution::Avg128,
        operating_mode: OperatingMode::Continuous(MeasuredSignals::ShuntAndBusVoltage),
        ..c
    };
    assert_eq!(c.conversion_time_us(), Some(136_200));
    let table = [
        (Resolution::Res9Bit, 84),
        (Resolution::Res10Bit, 148),
        (Resolution::Res11Bit, 276),
        (Resolution::Res12Bit, 532),
        (Resolution::Avg2, 1_060),
        (Resolution::Avg4, 2_130),
        (Resolution::Avg8, 4_260),
        (Resolution::Avg16, 8_510),
        (Resolution::Avg32, 17_020),
        (Resolution::Avg64, 34_050),
        (Resolution::Avg128, 68_100),
    ];
    for (r, us) in table {
        let c = MonitorConfig {
            bus_resolution: r,
            operating_mode: OperatingMode::Triggered(MeasuredSignals::BusVoltage),
            ..base
        };
        assert_eq!(c.conversion_time_us(), Some(us));
    }
}
