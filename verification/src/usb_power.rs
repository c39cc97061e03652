//! One switched USB power port of the shield.
//!
//! The switch is enabled by driving its enable line low; its fault flag reads
//! high while the port is fine. The port's INA219 has A1 tied to ground and
//! A0 tied to a signal that differs between the ports.

use vstd::prelude::*;
use crate::monitor::{
    AddressPin, BusVoltageRange, MeasuredSignals, MonitorConfig, OperatingMode, Resolution,
    ShuntVoltageRange, address_pin_bits, config_conversion_time_us, ina_address_byte,
};

verus! {

/// Settling time in µs used when the monitor configuration names no
/// conversion time.
pub const FALLBACK_SETTLE_US: u64 = 100;

/// Number of switched USB power ports on the shield.
pub const USB_PORT_COUNT: usize = 2;

/// The configuration the shield writes to a port's monitor.
pub open spec fn usb_monitor_config_spec() -> MonitorConfig {
    MonitorConfig {
        bus_voltage_range: BusVoltageRange::Fsr16v,
        shunt_voltage_range: ShuntVoltageRange::Fsr160mv,
        bus_resolution: Resolution::Res12Bit,
        shunt_resolution: Resolution::Res12Bit,
        operating_mode: OperatingMode::Continuous(MeasuredSignals::ShuntAndBusVoltage),
    }
}

/// The configuration the shield writes to a port's monitor: 16 V bus range,
/// ±160 mV shunt range, 12 bit resolution for both, both measured
/// continuously.
pub fn usb_monitor_config() -> (c: MonitorConfig)
    ensures
        c == usb_monitor_config_spec(),
{
    MonitorConfig {
        bus_voltage_range: BusVoltageRange::Fsr16v,
        shunt_voltage_range: ShuntVoltageRange::Fsr160mv,
        bus_resolution: Resolution::Res12Bit,
        shunt_resolution: Resolution::Res12Bit,
        operating_mode: OperatingMode::Continuous(MeasuredSignals::ShuntAndBusVoltage),
    }
}

/// Time in µs that one full conversion under `config` takes, or
/// [`FALLBACK_SETTLE_US`] when the configuration names none.
pub fn monitor_settle_us(config: &MonitorConfig) -> (us: u64)
    ensures
        us == match config_conversion_time_us(*config) {
            Some(t) => t,
            None => FALLBACK_SETTLE_US as int,
        },
{
    match config.conversion_time_us() {
        Some(t) => t as u64,
        None => FALLBACK_SETTLE_US,
    }
}

/// The I2C address of a port's monitor, whose A0 is tied to `a0`.
pub open spec fn monitor_address_spec(a0: AddressPin) -> int {
    0x40 + address_pin_bits(a0)
}

/// The I2C address of a port's monitor, whose A0 is tied to `a0` (A1 is tied
/// to ground on this shield).
pub fn monitor_address(a0: AddressPin) -> (byte: u8)
    ensures
        byte == monitor_address_spec(a0),
{
    ina_address_byte(a0, AddressPin::Gnd)
}

/// The signal that A0 of the monitor of USB port `port` is tied to; `None`
/// for a port the shield does not have.
pub open spec fn port_monitor_pin_spec(port: int) -> Option<AddressPin> {
    if port == 0 {
        Some(AddressPin::Vcc)
    } else if port == 1 {
        Some(AddressPin::Gnd)
    } else {
        None
    }
}

/// The signal that A0 of the monitor of USB port `port` is tied to.
pub fn port_monitor_pin(port: usize) -> (p: Option<AddressPin>)
    ensures
        p == port_monitor_pin_spec(port as int),
{
    if port == 0 {
        Some(AddressPin::Vcc)
    } else if port == 1 {
        Some(AddressPin::Gnd)
    } else {
        None
    }
}

/// The port name used in messages about the monitor whose A0 is tied to
/// `a0`.
pub open spec fn port_label_spec(a0: AddressPin) -> Seq<char> {
    match a0 {
        AddressPin::Vcc => "0"@,
        AddressPin::Gnd => "1"@,
        _ => "oops"@,
    }
}

/// The port name used in messages about the monitor whose A0 is tied to
/// `a0`: "0" and "1" for the two ports, "oops" for a wiring the shield does
/// not have.
pub fn port_label(a0: AddressPin) -> (label: &'static str)
    ensures
        label@ == port_label_spec(a0),
{
    match a0 {
        AddressPin::Vcc => "0",
        AddressPin::Gnd => "1",
        _ => "oops",
    }
}

/// Whether the enable line of a power switch is driven high, for a switch
/// that is to be on (`enabled`) or off. The line is active low.
pub fn enable_line_high(enabled: bool) -> (high: bool)
    ensures
        high == !enabled,
{
    !enabled
}

/// The status of a port from the level of its fault flag, which is active
/// low: `Ok` while the flag reads high.
pub fn status_from_flag(flag_is_high: bool) -> (status: Result<(), ()>)
    ensures
        status is Ok <==> flag_is_high,
{
    if flag_is_high {
        Ok(())
    } else {
        Err(())
    }
}

/// The monitors of the shield's ports answer on different I2C addresses, and
/// each is a valid INA219 address.
pub proof fn law_port_addresses_distinct(p: int, q: int)
    requires
        0 <= p < USB_PORT_COUNT,
        0 <= q < USB_PORT_COUNT,
        p != q,
    ensures
        port_monitor_pin_spec(p) is Some,
        port_monitor_pin_spec(q) is Some,
        monitor_address_spec(port_monitor_pin_spec(p)->Some_0) != monitor_address_spec(
            port_monitor_pin_spec(q)->Some_0,
        ),
        0x40 <= monitor_address_spec(port_monitor_pin_spec(p)->Some_0) <= 0x4f,
{
}

/// The monitor answers on 0x40 with A0 on ground, 0x41 on the supply, 0x42
/// on SDA and 0x43 on SCL.
pub proof fn law_monitor_address_table(a0: AddressPin)
    ensures
        monitor_address_spec(a0) == match a0 {
            AddressPin::Gnd => 0x40int,
            AddressPin::Vcc => 0x41,
            AddressPin::Sda => 0x42,
            AddressPin::Scl => 0x43,
        },
{
}

/// Port 0's monitor is named "0" in messages and port 1's "1"; a monitor
/// wired to SDA or SCL, which the shield does not have, is named "oops".
pub proof fn law_port_label_names_the_port()
    ensures
        port_label_spec(port_monitor_pin_spec(0)->Some_0) == seq!['0'],
        port_label_spec(port_monitor_pin_spec(1)->Some_0) == seq!['1'],
        port_label_spec(AddressPin::Sda) == seq!['o', 'o', 'p', 's'],
        port_label_spec(AddressPin::Scl) == seq!['o', 'o', 'p', 's'],
{
    reveal_strlit("0");
    reveal_strlit("1");
    reveal_strlit("oops");
}

/// The shield's monitors convert both voltages at 12 bits, continuously,
/// so a full conversion takes 532 + 532 µs; that is also the settling time
/// used for them.
pub proof fn law_usb_monitor_timing()
    ensures
        config_conversion_time_us(usb_monitor_config_spec()) == Some(1_064int),
{
}

/// Each port of the shield has its own name in messages.
pub proof fn law_port_labels_distinct()
    ensures
        port_label_spec(port_monitor_pin_spec(0)->Some_0) != port_label_spec(
            port_monitor_pin_spec(1)->Some_0,
        ),
{
    reveal_strlit("0");
    reveal_strlit("1");
    assert(port_label_spec(AddressPin::Vcc).len() == 1);
    assert(port_label_spec(AddressPin::Gnd)[0] != port_label_spec(AddressPin::Vcc)[0]);
}

} // verus!
