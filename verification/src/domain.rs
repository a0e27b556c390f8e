//! Domain model: one sensor observation, its derived classifications, and
//! the batch of observations produced by one acquisition cycle.

use vstd::prelude::*;
use vstd::string::StringExecFns;

use crate::text::{bool_text, spec_decimal, u32_to_string};

verus! {

/// Raw ADC reading at or above which the drainage tray counts as full.
pub const WATER_LEVEL_THRESHOLD: u16 = 3000;

/// Calibrated raw reading of fully wet soil (lower readings are clamped).
pub const MOISTURE_MIN: u16 = 800;

/// Calibrated raw reading of fully dry soil (higher readings are clamped).
pub const MOISTURE_MAX: u16 = 2150;

/// A batch never holds more than one reading slot per sensor type.
pub const MAX_BATCH_READINGS: usize = 7;

/// Qualitative soil-moisture classification, derived from the raw reading.
///
/// Normalized wetness is `(MOISTURE_MAX - clamped) / (MOISTURE_MAX -
/// MOISTURE_MIN)`; above 4/5 the soil counts as wet, below 3/20 as dry.
#[derive(Clone, Copy, Debug, PartialEq, Eq, Structural)]
pub enum MoistureLevel {
    Wet,
    Moist,
    Dry,
}

/// Binary drainage-tray water level, derived from a raw ADC reading.
#[derive(Clone, Copy, Debug, PartialEq, Eq, Structural)]
pub enum WaterLevel {
    Full,
    Empty,
}

/// Raw soil-moisture reading clamped to the calibrated operating range.
#[derive(Clone, Copy, Debug, PartialEq, Eq, Structural)]
pub struct SoilMoistureRawLevel(pub u16);

/// One sensor observation, tagged by sensor type.
#[derive(Clone, Copy, Debug, PartialEq, Eq, Structural)]
pub enum Sensor {
    WaterLevel(WaterLevel),
    AirTemperature(u8),
    AirHumidity(u8),
    SoilMoisture(MoistureLevel),
    BatteryVoltage(u16),
    SoilMoistureRaw(SoilMoistureRawLevel),
    PumpTrigger(bool),
}

/// The readings of one acquisition cycle, in insertion order, plus the flag
/// saying whether the batch holds enough valid data to be worth publishing
/// (at least one valid battery sample).
#[derive(Clone, Debug)]
pub struct SensorData {
    pub data: Vec<Sensor>,
    pub publish: bool,
}

impl SensorData {
    /// A well-formed batch stays within one slot per sensor type.
    pub open spec fn wf(&self) -> bool {
        self.data@.len() <= MAX_BATCH_READINGS
    }
}

/// The unit shown next to a reading's value, or nothing.
pub open spec fn spec_unit_text(s: Sensor) -> Seq<char> {
    match s {
        Sensor::AirTemperature(_) => "°C"@,
        Sensor::AirHumidity(_) => "%"@,
        Sensor::BatteryVoltage(_) => "mV"@,
        Sensor::SoilMoistureRaw(_) => "mV"@,
        _ => Seq::<char>::empty(),
    }
}

/// One line of the display text: the reading's name, value and unit.
pub open spec fn spec_render_line(s: Sensor) -> Seq<char> {
    s.spec_name() + ": "@ + s.spec_value() + " "@ + spec_unit_text(s) + "\n"@
}

/// The display text of a whole batch: one line per reading, in order.
pub open spec fn spec_render_lines(data: Seq<Sensor>) -> Seq<char>
    decreases data.len(),
{
    if data.len() == 0 {
        Seq::<char>::empty()
    } else {
        spec_render_lines(data.drop_last()) + spec_render_line(data.last())
    }
}

impl SensorData {
    /// Render the batch as the multi-line text handed to the display
    /// collaborator: one line per reading, each with the reading's name,
    /// value and unit.
    pub fn render_multiline(&self) -> (r: String)
        ensures
            r@ == spec_render_lines(self.data@),
    {
        let ghost data = self.data@;
        let mut out = String::new();
        let mut i: usize = 0;
        proof {
            assert(data.take(0) =~= Seq::<Sensor>::empty());
        }
        while i < self.data.len()
            invariant
                i <= data.len(),
                self.data@ == data,
                out@ == spec_render_lines(data.take(i as int)),
            decreases data.len() - i,
        {
            let s = self.data[i];
            proof {
                assert(data.take(i + 1).drop_last() =~= data.take(i as int));
                assert(data.take(i + 1).last() == data[i as int]);
            }
            out.append(s.name());
            out.append(": ");
            let value = s.value();
            out.append(value.as_str());
            out.append(" ");
            match s.unit() {
                Some(u) => {
                    out.append(u);
                },
                None => {
                    proof {
                        assert(out@ + Seq::<char>::empty() =~= out@);
                    }
                },
            }
            out.append("\n");
            proof {
                assert(out@ =~= spec_render_lines(data.take(i + 1)));
            }
            i = i + 1;
        }
        proof {
            assert(data.take(data.len() as int) =~= data);
        }
        out
    }
}

impl Default for SensorData {
    /// An empty batch, not worth publishing.
    fn default() -> (r: Self)
        ensures
            r.data@ =~= Seq::<Sensor>::empty(),
            !r.publish,
            r.wf(),
    {
        SensorData { data: Vec::new(), publish: false }
    }
}

/// The raw soil-moisture reading clamped to the calibrated range.
pub open spec fn spec_clamp_soil_moisture(value: u16) -> u16 {
    if value < MOISTURE_MIN {
        MOISTURE_MIN
    } else if value > MOISTURE_MAX {
        MOISTURE_MAX
    } else {
        value
    }
}

/// Clamp a raw soil-moisture reading to the calibrated operating range, so
/// that derived classifications stay well-defined at the input extremes.
pub fn clamp_soil_moisture(value: u16) -> (r: u16)
    ensures
        r == spec_clamp_soil_moisture(value),
        MOISTURE_MIN <= r <= MOISTURE_MAX,
{
    if value < MOISTURE_MIN {
        MOISTURE_MIN
    } else if value > MOISTURE_MAX {
        MOISTURE_MAX
    } else {
        value
    }
}

/// Soil-moisture classification of a raw reading: clamp, then compare the
/// normalized wetness `(MOISTURE_MAX - clamped) / (MOISTURE_MAX -
/// MOISTURE_MIN)` against the wet threshold 4/5 and the dry threshold 3/20,
/// as exact rational comparisons.
pub open spec fn moisture_level_of(value: u16) -> MoistureLevel {
    let clamped = spec_clamp_soil_moisture(value);
    let wetness = (MOISTURE_MAX - clamped) as int;
    let span = (MOISTURE_MAX - MOISTURE_MIN) as int;
    if wetness * 5 > span * 4 {
        MoistureLevel::Wet
    } else if wetness * 20 < span * 3 {
        MoistureLevel::Dry
    } else {
        MoistureLevel::Moist
    }
}

impl From<u16> for MoistureLevel {
    fn from(value: u16) -> Self {
        let clamped = clamp_soil_moisture(value);
        let wetness: u32 = (MOISTURE_MAX - clamped) as u32;
        let span: u32 = (MOISTURE_MAX - MOISTURE_MIN) as u32;
        if wetness * 5 > span * 4 {
            MoistureLevel::Wet
        } else if wetness * 20 < span * 3 {
            MoistureLevel::Dry
        } else {
            MoistureLevel::Moist
        }
    }
}

impl vstd::std_specs::convert::FromSpecImpl<u16> for MoistureLevel {
    open spec fn obeys_from_spec() -> bool {
        true
    }

    open spec fn from_spec(value: u16) -> Self {
        moisture_level_of(value)
    }
}

/// A reading at or below the calibrated minimum always classifies as wet.
pub proof fn lemma_moisture_clamps_to_wet(value: u16)
    requires
        value <= MOISTURE_MIN,
    ensures
        moisture_level_of(value) == MoistureLevel::Wet,
{
}

/// A reading at or above the calibrated maximum always classifies as dry.
pub proof fn lemma_moisture_clamps_to_dry(value: u16)
    requires
        value >= MOISTURE_MAX,
    ensures
        moisture_level_of(value) == MoistureLevel::Dry,
{
}

/// Water-level classification of a raw reading: full at or above the
/// threshold, empty strictly below it.
pub open spec fn water_level_of(value: u16) -> WaterLevel {
    if value < WATER_LEVEL_THRESHOLD {
        WaterLevel::Empty
    } else {
        WaterLevel::Full
    }
}

impl From<u16> for WaterLevel {
    fn from(value: u16) -> Self {
        if value < WATER_LEVEL_THRESHOLD {
            WaterLevel::Empty
        } else {
            WaterLevel::Full
        }
    }
}

impl vstd::std_specs::convert::FromSpecImpl<u16> for WaterLevel {
    open spec fn obeys_from_spec() -> bool {
        true
    }

    open spec fn from_spec(value: u16) -> Self {
        water_level_of(value)
    }
}

impl From<u16> for SoilMoistureRawLevel {
    fn from(value: u16) -> Self {
        SoilMoistureRawLevel(clamp_soil_moisture(value))
    }
}

impl vstd::std_specs::convert::FromSpecImpl<u16> for SoilMoistureRawLevel {
    open spec fn obeys_from_spec() -> bool {
        true
    }

    open spec fn from_spec(value: u16) -> Self {
        SoilMoistureRawLevel(spec_clamp_soil_moisture(value))
    }
}

impl MoistureLevel {
    /// The classification as display text.
    pub fn as_str(&self) -> (r: &'static str)
        ensures
            r@ == self.spec_text(),
    {
        match self {
            MoistureLevel::Wet => "Wet",
            MoistureLevel::Moist => "Moist",
            MoistureLevel::Dry => "Dry",
        }
    }

    /// Display text of the classification.
    pub open spec fn spec_text(&self) -> Seq<char> {
        match self {
            MoistureLevel::Wet => "Wet"@,
            MoistureLevel::Moist => "Moist"@,
            MoistureLevel::Dry => "Dry"@,
        }
    }
}

impl WaterLevel {
    /// The classification as display text.
    pub fn as_str(&self) -> (r: &'static str)
        ensures
            r@ == self.spec_text(),
    {
        match self {
            WaterLevel::Full => "Full",
            WaterLevel::Empty => "Empty",
        }
    }

    /// Display text of the classification.
    pub open spec fn spec_text(&self) -> Seq<char> {
        match self {
            WaterLevel::Full => "Full"@,
            WaterLevel::Empty => "Empty"@,
        }
    }
}

impl Sensor {
    /// The physical unit of the sensor value, where it has one.
    pub fn unit(&self) -> (r: Option<&'static str>)
        ensures
            match self {
                Sensor::AirTemperature(_) => r matches Some(u) && u@ == "°C"@,
                Sensor::AirHumidity(_) => r matches Some(u) && u@ == "%"@,
                Sensor::BatteryVoltage(_) => r matches Some(u) && u@ == "mV"@,
                Sensor::SoilMoistureRaw(_) => r matches Some(u) && u@ == "mV"@,
                _ => r is None,
            },
    {
        match self {
            Sensor::AirTemperature(_) => Some("°C"),
            Sensor::AirHumidity(_) => Some("%"),
            Sensor::BatteryVoltage(_) => Some("mV"),
            Sensor::SoilMoistureRaw(_) => Some("mV"),
            _ => None,
        }
    }

    /// The device class understood by the home-automation server, where the
    /// sensor has one.
    pub fn device_class(&self) -> (r: Option<&'static str>)
        ensures
            match self {
                Sensor::AirTemperature(_) => r matches Some(c) && c@ == "temperature"@,
                Sensor::AirHumidity(_) => r matches Some(c) && c@ == "humidity"@,
                Sensor::BatteryVoltage(_) => r matches Some(c) && c@ == "voltage"@,
                Sensor::SoilMoistureRaw(_) => r matches Some(c) && c@ == "voltage"@,
                _ => r is None,
            },
    {
        match self {
            Sensor::AirTemperature(_) => Some("temperature"),
            Sensor::AirHumidity(_) => Some("humidity"),
            Sensor::BatteryVoltage(_) => Some("voltage"),
            Sensor::SoilMoistureRaw(_) => Some("voltage"),
            _ => None,
        }
    }

    /// The stable topic key the reading is published under.
    pub fn topic(&self) -> (r: &'static str)
        ensures
            r@ == self.spec_topic(),
    {
        match self {
            Sensor::AirTemperature(_) => "temperature",
            Sensor::AirHumidity(_) => "humidity",
            Sensor::SoilMoisture(_) => "moisture",
            Sensor::WaterLevel(_) => "waterlevel",
            Sensor::BatteryVoltage(_) => "batteryvoltage",
            Sensor::SoilMoistureRaw(_) => "moistureraw",
            Sensor::PumpTrigger(_) => "pumptrigger",
        }
    }

    /// Topic key of the reading.
    pub open spec fn spec_topic(&self) -> Seq<char> {
        match self {
            Sensor::AirTemperature(_) => "temperature"@,
            Sensor::AirHumidity(_) => "humidity"@,
            Sensor::SoilMoisture(_) => "moisture"@,
            Sensor::WaterLevel(_) => "waterlevel"@,
            Sensor::BatteryVoltage(_) => "batteryvoltage"@,
            Sensor::SoilMoistureRaw(_) => "moistureraw"@,
            Sensor::PumpTrigger(_) => "pumptrigger"@,
        }
    }

    /// The human-readable name of the sensor.
    pub fn name(&self) -> (r: &'static str)
        ensures
            r@ == self.spec_name(),
    {
        match self {
            Sensor::AirTemperature(_) => "Room temperature",
            Sensor::AirHumidity(_) => "Room humidity",
            Sensor::SoilMoisture(_) => "Soil moisture",
            Sensor::WaterLevel(_) => "Water level",
            Sensor::BatteryVoltage(_) => "Battery voltage",
            Sensor::SoilMoistureRaw(_) => "Soil moisture (mV)",
            Sensor::PumpTrigger(_) => "Pump trigger",
        }
    }

    /// Human-readable name of the sensor.
    pub open spec fn spec_name(&self) -> Seq<char> {
        match self {
            Sensor::AirTemperature(_) => "Room temperature"@,
            Sensor::AirHumidity(_) => "Room humidity"@,
            Sensor::SoilMoisture(_) => "Soil moisture"@,
            Sensor::WaterLevel(_) => "Water level"@,
            Sensor::BatteryVoltage(_) => "Battery voltage"@,
            Sensor::SoilMoistureRaw(_) => "Soil moisture (mV)"@,
            Sensor::PumpTrigger(_) => "Pump trigger"@,
        }
    }

    /// The sensor value rendered as text: numeric values in decimal,
    /// classifications and the pump trigger by their names.
    pub fn value(&self) -> (r: String)
        ensures
            r@ == self.spec_value(),
    {
        match self {
            Sensor::AirTemperature(v) => u32_to_string(*v as u32),
            Sensor::AirHumidity(v) => u32_to_string(*v as u32),
            Sensor::SoilMoisture(v) => String::from_str(v.as_str()),
            Sensor::WaterLevel(v) => String::from_str(v.as_str()),
            Sensor::BatteryVoltage(v) => u32_to_string(*v as u32),
            Sensor::SoilMoistureRaw(v) => u32_to_string(v.0 as u32),
            Sensor::PumpTrigger(v) => String::from_str(if *v {
                "true"
            } else {
                "false"
            }),
        }
    }

    /// Display text of the sensor value.
    pub open spec fn spec_value(&self) -> Seq<char> {
        match self {
            Sensor::AirTemperature(v) => spec_decimal(*v as nat),
            Sensor::AirHumidity(v) => spec_decimal(*v as nat),
            Sensor::SoilMoisture(v) => v.spec_text(),
            Sensor::WaterLevel(v) => v.spec_text(),
            Sensor::BatteryVoltage(v) => spec_decimal(*v as nat),
            Sensor::SoilMoistureRaw(v) => spec_decimal(v.0 as nat),
            Sensor::PumpTrigger(v) => bool_text(*v),
        }
    }
}

} // verus!
