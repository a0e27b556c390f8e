//! Per-cycle sensor acquisition logic: the per-channel sample buffers, the
//! pre-aggregation battery filter, and the assembly of one reading batch
//! from the aggregated channels.
//!
//! The hardware collaborator owns the pins and converters; it hands raw
//! readings in here one sample at a time and receives the finished batch.

use vstd::prelude::*;

use crate::aggregate::{
    calculate_average, lemma_min_max_within, lemma_trimmed_mean_bounds, trimmed_mean,
};
use crate::dht11::Measurement;
use crate::domain::{
    moisture_level_of, spec_clamp_soil_moisture, water_level_of, MoistureLevel, Sensor,
    SensorData, SoilMoistureRawLevel, WaterLevel,
};

verus! {

/// Number of boots between pump trigger events: the pump is enabled on
/// every boot whose counter is a whole multiple of this interval.
pub const PUMP_TRIGGER_INTERVAL: u32 = 10;

/// Scaled battery readings at or above this many millivolts come from the
/// USB charging supply, not from the battery.
pub const USB_CHARGING_VOLTAGE: u16 = 4100;

/// Warm-up delay before the first one-wire read, in milliseconds: the
/// sensor needs time after power-up.
pub const DHT11_WARMUP_DELAY_MILLISECONDS: u64 = 2000;

/// Warm-up delay between energizing an analog sensor rail and sampling it,
/// in milliseconds.
pub const SENSOR_WARMUP_DELAY_MILLISECONDS: u64 = 50;

/// Samples taken per channel and cycle; the aggregate drops the smallest
/// and the largest of them.
pub const SENSOR_SAMPLE_COUNT: usize = 5;

/// A raw battery reading scaled by the resistive-divider ratio, or nothing
/// when the scaled value reaches the USB charging voltage.
pub open spec fn spec_scale_battery_sample(raw: u16) -> Option<u16> {
    if 2 * raw < USB_CHARGING_VOLTAGE {
        Some((2 * raw) as u16)
    } else {
        None
    }
}

/// Scale a raw battery ADC reading by the known resistive-divider ratio
/// (times two) and discard it entirely when it reaches the USB charging
/// voltage: a charging supply reads anomalously high and must not be
/// reported as battery state. The filter runs before aggregation, so a
/// charging-voltage reading is never treated as a statistical outlier.
pub fn scale_battery_sample(raw: u16) -> (r: Option<u16>)
    ensures
        r == spec_scale_battery_sample(raw),
{
    let value: u32 = (raw as u32) * 2;
    if value < USB_CHARGING_VOLTAGE as u32 {
        Some(value as u16)
    } else {
        None
    }
}

/// A sample buffer after recording one more value: the value is appended
/// while the per-cycle budget has room, and dropped once it is full.
pub open spec fn spec_record(samples: Seq<u16>, value: u16) -> Seq<u16> {
    if samples.len() < SENSOR_SAMPLE_COUNT {
        samples.push(value)
    } else {
        samples
    }
}

/// The per-channel sample sets collected over one acquisition cycle.
pub struct SampleBuffers {
    pub air_humidity: Vec<u16>,
    pub air_temperature: Vec<u16>,
    pub soil_moisture: Vec<u16>,
    pub water_level: Vec<u16>,
    pub battery_voltage: Vec<u16>,
}

impl SampleBuffers {
    /// Well-formed buffers stay within the per-cycle sample budget, and the
    /// climate channels hold byte-sized readings.
    pub open spec fn wf(&self) -> bool {
        &&& self.air_humidity@.len() <= SENSOR_SAMPLE_COUNT
        &&& self.air_temperature@.len() <= SENSOR_SAMPLE_COUNT
        &&& self.soil_moisture@.len() <= SENSOR_SAMPLE_COUNT
        &&& self.water_level@.len() <= SENSOR_SAMPLE_COUNT
        &&& self.battery_voltage@.len() <= SENSOR_SAMPLE_COUNT
        &&& forall|i: int|
            0 <= i < self.air_humidity@.len() ==> #[trigger] self.air_humidity@[i] <= u8::MAX
        &&& forall|i: int|
            0 <= i < self.air_temperature@.len() ==> #[trigger] self.air_temperature@[i]
                <= u8::MAX
    }

    /// Empty buffers for a fresh acquisition cycle.
    pub fn new() -> (r: Self)
        ensures
            r.air_humidity@ =~= Seq::<u16>::empty(),
            r.air_temperature@ =~= Seq::<u16>::empty(),
            r.soil_moisture@ =~= Seq::<u16>::empty(),
            r.water_level@ =~= Seq::<u16>::empty(),
            r.battery_voltage@ =~= Seq::<u16>::empty(),
            r.wf(),
    {
        SampleBuffers {
            air_humidity: Vec::new(),
            air_temperature: Vec::new(),
            soil_moisture: Vec::new(),
            water_level: Vec::new(),
            battery_voltage: Vec::new(),
        }
    }

    /// Record one successful one-wire reading: its humidity and temperature
    /// go to their channels while the budget has room.
    pub fn record_climate(&mut self, m: &Measurement)
        requires
            old(self).wf(),
        ensures
            final(self).wf(),
            final(self).air_humidity@ == spec_record(old(self).air_humidity@, m.humidity as u16),
            final(self).air_temperature@ == spec_record(
                old(self).air_temperature@,
                m.temperature as u16,
            ),
            final(self).soil_moisture@ == old(self).soil_moisture@,
            final(self).water_level@ == old(self).water_level@,
            final(self).battery_voltage@ == old(self).battery_voltage@,
    {
        if self.air_humidity.len() < SENSOR_SAMPLE_COUNT {
            self.air_humidity.push(m.humidity as u16);
        }
        if self.air_temperature.len() < SENSOR_SAMPLE_COUNT {
            self.air_temperature.push(m.temperature as u16);
        }
    }

    /// Record one raw soil-moisture reading while the budget has room.
    pub fn record_soil_moisture(&mut self, raw: u16)
        requires
            old(self).wf(),
        ensures
            final(self).wf(),
            final(self).soil_moisture@ == spec_record(old(self).soil_moisture@, raw),
            final(self).air_humidity@ == old(self).air_humidity@,
            final(self).air_temperature@ == old(self).air_temperature@,
            final(self).water_level@ == old(self).water_level@,
            final(self).battery_voltage@ == old(self).battery_voltage@,
    {
        if self.soil_moisture.len() < SENSOR_SAMPLE_COUNT {
            self.soil_moisture.push(raw);
        }
    }

    /// Record one raw drainage water-level reading while the budget has
    /// room.
    pub fn record_water_level(&mut self, raw: u16)
        requires
            old(self).wf(),
        ensures
            final(self).wf(),
            final(self).water_level@ == spec_record(old(self).water_level@, raw),
            final(self).air_humidity@ == old(self).air_humidity@,
            final(self).air_temperature@ == old(self).air_temperature@,
            final(self).soil_moisture@ == old(self).soil_moisture@,
            final(self).battery_voltage@ == old(self).battery_voltage@,
    {
        if self.water_level.len() < SENSOR_SAMPLE_COUNT {
            self.water_level.push(raw);
        }
    }

    /// Record one raw battery reading: it is scaled and filtered first, and
    /// only a sample that passes the charging-voltage filter is kept.
    pub fn record_battery(&mut self, raw: u16)
        requires
            old(self).wf(),
        ensures
            final(self).wf(),
            final(self).battery_voltage@ == match spec_scale_battery_sample(raw) {
                Some(v) => spec_record(old(self).battery_voltage@, v),
                None => old(self).battery_voltage@,
            },
            final(self).air_humidity@ == old(self).air_humidity@,
            final(self).air_temperature@ == old(self).air_temperature@,
            final(self).soil_moisture@ == old(self).soil_moisture@,
            final(self).water_level@ == old(self).water_level@,
    {
        if let Some(value) = scale_battery_sample(raw) {
            if self.battery_voltage.len() < SENSOR_SAMPLE_COUNT {
                self.battery_voltage.push(value);
            }
        }
    }
}

/// The air-humidity reading an aggregated channel yields, if any.
pub open spec fn spec_humidity_reading(samples: Seq<u16>) -> Seq<Sensor> {
    if samples.len() >= 3 {
        seq![Sensor::AirHumidity(trimmed_mean(samples) as u8)]
    } else {
        seq![]
    }
}

/// The air-temperature reading an aggregated channel yields, if any.
pub open spec fn spec_temperature_reading(samples: Seq<u16>) -> Seq<Sensor> {
    if samples.len() >= 3 {
        seq![Sensor::AirTemperature(trimmed_mean(samples) as u8)]
    } else {
        seq![]
    }
}

/// The water-level reading an aggregated channel yields, if any.
pub open spec fn spec_water_level_reading(samples: Seq<u16>) -> Seq<Sensor> {
    if samples.len() >= 3 {
        seq![Sensor::WaterLevel(water_level_of(trimmed_mean(samples) as u16))]
    } else {
        seq![]
    }
}

/// The pair of soil-moisture readings (raw and qualitative) an aggregated
/// channel yields, if any.
pub open spec fn spec_moisture_readings(samples: Seq<u16>) -> Seq<Sensor> {
    if samples.len() >= 3 {
        seq![
            Sensor::SoilMoistureRaw(
                SoilMoistureRawLevel(spec_clamp_soil_moisture(trimmed_mean(samples) as u16)),
            ),
            Sensor::SoilMoisture(moisture_level_of(trimmed_mean(samples) as u16)),
        ]
    } else {
        seq![]
    }
}

/// The battery-voltage reading an aggregated channel yields, if any.
pub open spec fn spec_battery_reading(samples: Seq<u16>) -> Seq<Sensor> {
    if samples.len() >= 3 {
        seq![Sensor::BatteryVoltage(trimmed_mean(samples) as u16)]
    } else {
        seq![]
    }
}

/// Whether the pump trigger fires for the given boot counter.
pub open spec fn spec_pump_trigger(boot_count: u32) -> bool {
    boot_count % PUMP_TRIGGER_INTERVAL == 0
}

/// All readings one cycle's sample buffers yield, in insertion order: the
/// aggregated channels (each omitted when it has too few samples), the
/// boot-counter pump trigger, and the aggregated battery voltage.
pub open spec fn spec_batch_readings(samples: SampleBuffers, boot_count: u32) -> Seq<Sensor> {
    spec_humidity_reading(samples.air_humidity@) + spec_temperature_reading(
        samples.air_temperature@,
    ) + spec_water_level_reading(samples.water_level@) + spec_moisture_readings(
        samples.soil_moisture@,
    ) + seq![Sensor::PumpTrigger(spec_pump_trigger(boot_count))] + spec_battery_reading(
        samples.battery_voltage@,
    )
}

/// Assemble the batch of one acquisition cycle from its sample buffers and
/// the persisted boot counter. Every channel with enough samples
/// contributes its outlier-trimmed mean; a channel with too few samples is
/// simply omitted and never aborts the cycle. The batch is worth publishing
/// exactly when at least one valid battery sample was obtained.
pub fn build_sensor_data(samples: &SampleBuffers, boot_count: u32) -> (r: SensorData)
    requires
        samples.wf(),
    ensures
        r.data@ == spec_batch_readings(*samples, boot_count),
        r.publish == (samples.battery_voltage@.len() > 0),
        r.wf(),
{
    let mut data: Vec<Sensor> = Vec::new();

    if let Some(avg) = calculate_average(&samples.air_humidity) {
        proof {
            lemma_trimmed_mean_bounds(samples.air_humidity@);
            lemma_min_max_within(samples.air_humidity@, 0, u8::MAX as int);
        }
        data.push(Sensor::AirHumidity(avg as u8));
    }

    if let Some(avg) = calculate_average(&samples.air_temperature) {
        proof {
            lemma_trimmed_mean_bounds(samples.air_temperature@);
            lemma_min_max_within(samples.air_temperature@, 0, u8::MAX as int);
        }
        data.push(Sensor::AirTemperature(avg as u8));
    }

    if let Some(avg) = calculate_average(&samples.water_level) {
        data.push(Sensor::WaterLevel(WaterLevel::from(avg)));
    }

    if let Some(avg) = calculate_average(&samples.soil_moisture) {
        data.push(Sensor::SoilMoistureRaw(SoilMoistureRawLevel::from(avg)));
        data.push(Sensor::SoilMoisture(MoistureLevel::from(avg)));
    }

    data.push(Sensor::PumpTrigger(boot_count % PUMP_TRIGGER_INTERVAL == 0));

    if let Some(avg) = calculate_average(&samples.battery_voltage) {
        data.push(Sensor::BatteryVoltage(avg));
    }

    let publish = samples.battery_voltage.len() > 0;
    proof {
        assert(data@ =~= spec_batch_readings(*samples, boot_count));
    }
    SensorData { data, publish }
}

} // verus!
