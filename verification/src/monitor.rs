//! The INA219 power monitor of a USB port, seen from the shield.
//!
//! The values computed here come from the `ina219` driver crate; the
//! functions below hand it plain values and take plain values back.

use vstd::prelude::*;

verus! {

/// Signal that an address pin of the monitor is tied to.
#[derive(Clone, Copy, Debug, PartialEq, Eq)]
pub enum AddressPin {
    /// Tied to ground.
    Gnd,
    /// Tied to the supply.
    Vcc,
    /// Tied to the I2C data line.
    Sda,
    /// Tied to the I2C clock line.
    Scl,
}

/// The two address bits that tying a pin to this signal selects.
pub open spec fn address_pin_bits(p: AddressPin) -> int {
    match p {
        AddressPin::Gnd => 0,
        AddressPin::Vcc => 1,
        AddressPin::Sda => 2,
        AddressPin::Scl => 3,
    }
}

/// Calls `ina219::address::Address::from_pins(a0, a1)` and reads the result
/// back with `as_byte`. The crate's source sets the bits `0b100_0000`, the
/// bits of `a0` and the bits of `a1` shifted left by two, which is what the
/// contract states.
#[verifier::external_body]
pub(crate) fn ina_address_byte(a0: AddressPin, a1: AddressPin) -> (byte: u8)
    ensures
        byte == 0x40 + address_pin_bits(a0) + 4 * address_pin_bits(a1),
{
    let a0 = match a0 {
        AddressPin::Gnd => ina219::address::Pin::Gnd,
        AddressPin::Vcc => ina219::address::Pin::Vcc,
        AddressPin::Sda => ina219::address::Pin::Sda,
        AddressPin::Scl => ina219::address::Pin::Scl,
    };
    let a1 = match a1 {
        AddressPin::Gnd => ina219::address::Pin::Gnd,
        AddressPin::Vcc => ina219::address::Pin::Vcc,
        AddressPin::Sda => ina219::address::Pin::Sda,
        AddressPin::Scl => ina219::address::Pin::Scl,
    };
    ina219::address::Address::from_pins(a0, a1).as_byte()
}

/// Calls `ina219::measurements::ShuntVoltage::from_10uv(ten_uv)` and reads the
/// voltage back with `shunt_voltage_uv`. The crate's source computes
/// `i32::from(ten_uv) * 10`, which is what the contract states.
#[verifier::external_body]
pub(crate) fn ina_shunt_uv(ten_uv: i16) -> (uv: i32)
    ensures
        uv == ten_uv * 10,
{
    ina219::measurements::ShuntVoltage::from_10uv(ten_uv).shunt_voltage_uv()
}

/// A shunt voltage reading, given in the monitor's unit of 10 µV, in µV.
pub fn shunt_microvolts(ten_uv: i16) -> (uv: i32)
    ensures
        uv == ten_uv * 10,
{
    ina_shunt_uv(ten_uv)
}

/// Measurement range of the bus voltage.
#[derive(Clone, Copy, Debug, PartialEq, Eq)]
pub enum BusVoltageRange {
    /// Up to 16 V.
    Fsr16v,
    /// Up to 32 V.
    Fsr32v,
}

/// Measurement range of the shunt voltage.
#[derive(Clone, Copy, Debug, PartialEq, Eq)]
pub enum ShuntVoltageRange {
    /// ±40 mV.
    Fsr40mv,
    /// ±80 mV.
    Fsr80mv,
    /// ±160 mV.
    Fsr160mv,
    /// ±320 mV.
    Fsr320mv,
}

/// Resolution, or number of averaged samples, of a voltage measurement.
#[derive(Clone, Copy, Debug, PartialEq, Eq)]
pub enum Resolution {
    /// One 9 bit sample.
    Res9Bit,
    /// One 10 bit sample.
    Res10Bit,
    /// One 11 bit sample.
    Res11Bit,
    /// One 12 bit sample.
    Res12Bit,
    /// 2 averaged 12 bit samples.
    Avg2,
    /// 4 averaged 12 bit samples.
    Avg4,
    /// 8 averaged 12 bit samples.
    Avg8,
    /// 16 averaged 12 bit samples.
    Avg16,
    /// 32 averaged 12 bit samples.
    Avg32,
    /// 64 averaged 12 bit samples.
    Avg64,
    /// 128 averaged 12 bit samples.
    Avg128,
}

/// Signals measured in one conversion.
#[derive(Clone, Copy, Debug, PartialEq, Eq)]
pub enum MeasuredSignals {
    /// Only the shunt voltage.
    ShuntVoltage,
    /// Only the bus voltage.
    BusVoltage,
    /// Both voltages.
    ShuntAndBusVoltage,
}

/// Operating mode of the monitor.
#[derive(Clone, Copy, Debug, PartialEq, Eq)]
pub enum OperatingMode {
    /// Powered down.
    PowerDown,
    /// Converter off.
    AdcOff,
    /// One conversion on request.
    Triggered(MeasuredSignals),
    /// Conversions one after the other.
    Continuous(MeasuredSignals),
}

/// The settings written to the monitor's configuration register (the reset
/// bit is never set).
#[derive(Clone, Copy, Debug, PartialEq, Eq)]
pub struct MonitorConfig {
    /// Bus voltage range.
    pub bus_voltage_range: BusVoltageRange,
    /// Shunt voltage range.
    pub shunt_voltage_range: ShuntVoltageRange,
    /// Resolution of the bus voltage.
    pub bus_resolution: Resolution,
    /// Resolution of the shunt voltage.
    pub shunt_resolution: Resolution,
    /// What is measured, and when.
    pub operating_mode: OperatingMode,
}

/// Conversion time in µs of one measurement at this resolution (table 5 of
/// the INA219 datasheet, as the `ina219` crate gives it).
pub open spec fn resolution_time_us(r: Resolution) -> u32 {
    match r {
        Resolution::Res9Bit => 84,
        Resolution::Res10Bit => 148,
        Resolution::Res11Bit => 276,
        Resolution::Res12Bit => 532,
        Resolution::Avg2 => 1_060,
        Resolution::Avg4 => 2_130,
        Resolution::Avg8 => 4_260,
        Resolution::Avg16 => 8_510,
        Resolution::Avg32 => 17_020,
        Resolution::Avg64 => 34_050,
        Resolution::Avg128 => 68_100,
    }
}

/// Calls `ina219::configuration::Resolution::conversion_time_us` on the
/// variant of the same name. In the crate's source that function is the
/// table that [`resolution_time_us`] states.
#[verifier::external_body]
pub(crate) fn ina_resolution_time_us(r: Resolution) -> (us: u32)
    ensures
        us == resolution_time_us(r),
{
    let r = match r {
        Resolution::Res9Bit => ina219::configuration::Resolution::Res9Bit,
        Resolution::Res10Bit => ina219::configuration::Resolution::Res10Bit,
        Resolution::Res11Bit => ina219::configuration::Resolution::Res11Bit,
        Resolution::Res12Bit => ina219::configuration::Resolution::Res12Bit,
        Resolution::Avg2 => ina219::configuration::Resolution::Avg2,
        Resolution::Avg4 => ina219::configuration::Resolution::Avg4,
        Resolution::Avg8 => ina219::configuration::Resolution::Avg8,
        Resolution::Avg16 => ina219::configuration::Resolution::Avg16,
        Resolution::Avg32 => ina219::configuration::Resolution::Avg32,
        Resolution::Avg64 => ina219::configuration::Resolution::Avg64,
        Resolution::Avg128 => ina219::configuration::Resolution::Avg128,
    };
    r.conversion_time_us()
}

/// Total conversion time in µs of a configuration: none when the monitor
/// does not convert, else the time of each measured signal, added up.
pub open spec fn config_conversion_time_us(c: MonitorConfig) -> Option<int> {
    let signals = match c.operating_mode {
        OperatingMode::PowerDown => None,
        OperatingMode::AdcOff => None,
        OperatingMode::Triggered(s) => Some(s),
        OperatingMode::Continuous(s) => Some(s),
    };
    match signals {
        None => None,
        Some(MeasuredSignals::ShuntVoltage) => Some(resolution_time_us(c.shunt_resolution) as int),
        Some(MeasuredSignals::BusVoltage) => Some(resolution_time_us(c.bus_resolution) as int),
        Some(MeasuredSignals::ShuntAndBusVoltage) => Some(
            resolution_time_us(c.shunt_resolution) + resolution_time_us(c.bus_resolution),
        ),
    }
}

/// The same configuration with another operating mode.
pub open spec fn with_mode(c: MonitorConfig, m: OperatingMode) -> MonitorConfig {
    MonitorConfig { operating_mode: m, ..c }
}

/// A monitor that does not convert has no conversion time; triggered and
/// continuous conversions of the same signals take the same time.
pub proof fn law_conversion_time_by_mode(c: MonitorConfig, signals: MeasuredSignals)
    ensures
        config_conversion_time_us(with_mode(c, OperatingMode::PowerDown)) is None,
        config_conversion_time_us(with_mode(c, OperatingMode::AdcOff)) is None,
        config_conversion_time_us(with_mode(c, OperatingMode::Triggered(signals)))
            == config_conversion_time_us(with_mode(c, OperatingMode::Continuous(signals))),
        config_conversion_time_us(with_mode(c, OperatingMode::Continuous(signals))) is Some,
{
}

/// Measuring one signal takes the table time of that signal's resolution
/// alone; measuring both takes the sum of the two single-signal times.
pub proof fn law_conversion_time_by_signals(c: MonitorConfig)
    ensures
        config_conversion_time_us(with_mode(c, OperatingMode::Continuous(MeasuredSignals::ShuntVoltage)))
            == Some(resolution_time_us(c.shunt_resolution) as int),
        config_conversion_time_us(with_mode(c, OperatingMode::Continuous(MeasuredSignals::BusVoltage)))
            == Some(resolution_time_us(c.bus_resolution) as int),
        config_conversion_time_us(
            with_mode(c, OperatingMode::Continuous(MeasuredSignals::ShuntAndBusVoltage)),
        )->Some_0 == config_conversion_time_us(
            with_mode(c, OperatingMode::Continuous(MeasuredSignals::ShuntVoltage)),
        )->Some_0 + config_conversion_time_us(
            with_mode(c, OperatingMode::Continuous(MeasuredSignals::BusVoltage)),
        )->Some_0,
{
}

/// The resolution of a signal that is not measured, and the measurement
/// ranges, do not change the conversion time.
pub proof fn law_conversion_time_ignores_unmeasured(c: MonitorConfig, d: MonitorConfig)
    requires
        c.operating_mode == d.operating_mode,
    ensures
        (c.operating_mode == OperatingMode::Triggered(MeasuredSignals::ShuntVoltage)
            || c.operating_mode == OperatingMode::Continuous(MeasuredSignals::ShuntVoltage))
            && c.shunt_resolution == d.shunt_resolution ==> config_conversion_time_us(c)
            == config_conversion_time_us(d),
        (c.operating_mode == OperatingMode::Triggered(MeasuredSignals::BusVoltage)
            || c.operating_mode == OperatingMode::Continuous(MeasuredSignals::BusVoltage))
            && c.bus_resolution == d.bus_resolution ==> config_conversion_time_us(c)
            == config_conversion_time_us(d),
        c.shunt_resolution == d.shunt_resolution && c.bus_resolution == d.bus_resolution
            ==> config_conversion_time_us(c) == config_conversion_time_us(d),
{
}

/// Longer conversions of a measured signal never shorten the total: under
/// any converting mode, raising the shunt (or bus) resolution's table time
/// while it is measured raises the total by exactly the difference.
pub proof fn law_conversion_time_tracks_resolution(c: MonitorConfig, r: Resolution)
    ensures
        c.operating_mode == OperatingMode::Continuous(MeasuredSignals::ShuntAndBusVoltage) ==> (
        config_conversion_time_us(MonitorConfig { bus_resolution: r, ..c })->Some_0
            - config_conversion_time_us(c)->Some_0 == resolution_time_us(r) - resolution_time_us(
            c.bus_resolution,
        ) && config_conversion_time_us(MonitorConfig { shunt_resolution: r, ..c })->Some_0
            - config_conversion_time_us(c)->Some_0 == resolution_time_us(r) - resolution_time_us(
            c.shunt_resolution,
        )),
{
}

/// The per-resolution conversion times grow with the resolution and the
/// number of averaged samples.
pub proof fn law_resolution_times_grow()
    ensures
        resolution_time_us(Resolution::Res9Bit) < resolution_time_us(Resolution::Res10Bit),
        resolution_time_us(Resolution::Res10Bit) < resolution_time_us(Resolution::Res11Bit),
        resolution_time_us(Resolution::Res11Bit) < resolution_time_us(Resolution::Res12Bit),
        resolution_time_us(Resolution::Res12Bit) < resolution_time_us(Resolution::Avg2),
        resolution_time_us(Resolution::Avg2) < resolution_time_us(Resolution::Avg4),
        resolution_time_us(Resolution::Avg4) < resolution_time_us(Resolution::Avg8),
        resolution_time_us(Resolution::Avg8) < resolution_time_us(Resolution::Avg16),
        resolution_time_us(Resolution::Avg16) < resolution_time_us(Resolution::Avg32),
        resolution_time_us(Resolution::Avg32) < resolution_time_us(Resolution::Avg64),
        resolution_time_us(Resolution::Avg64) < resolution_time_us(Resolution::Avg128),
{
}

impl MonitorConfig {
    /// Total conversion time in µs, or `None` when the monitor does not
    /// convert.
    pub fn conversion_time_us(&self) -> (t: Option<u32>)
        ensures
            match config_conversion_time_us(*self) {
                None => t is None,
                Some(us) => t == Some(us as u32) && us == t->Some_0,
            },
    {
        let signals = match self.operating_mode {
            OperatingMode::PowerDown => None,
            OperatingMode::AdcOff => None,
            OperatingMode::Triggered(s) => Some(s),
            OperatingMode::Continuous(s) => Some(s),
        };
        match signals {
            None => None,
            Some(MeasuredSignals::ShuntVoltage) => Some(ina_resolution_time_us(self.shunt_resolution)),
            Some(MeasuredSignals::BusVoltage) => Some(ina_resolution_time_us(self.bus_resolution)),
            Some(MeasuredSignals::ShuntAndBusVoltage) => {
                let shunt = ina_resolution_time_us(self.shunt_resolution);
                let bus = ina_resolution_time_us(self.bus_resolution);
                Some(shunt + bus)
            },
        }
    }
}

} // verus!
