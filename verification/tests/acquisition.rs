//! Tests of the acquisition pipeline: sample recording, the pre-aggregation
//! battery filter, and batch assembly.

use plant_care::dht11::Measurement;
use plant_care::domain::{MoistureLevel, Sensor, SoilMoistureRawLevel, WaterLevel};
use plant_care::sensors::{build_sensor_data, scale_battery_sample, SampleBuffers};
use plant_care::update::readings_to_publish;

#[test]
fn battery_filter_scales_by_divider_ratio() {
    assert_eq!(scale_battery_sample(1000), Some(2000));
    assert_eq!(scale_battery_sample(0), Some(0));
    assert_eq!(scale_battery_sample(2049), Some(4098));
}

#[test]
fn battery_filter_discards_charging_voltage() {
    assert_eq!(scale_battery_sample(2050), None);
    assert_eq!(scale_battery_sample(4000), None);
    assert_eq!(scale_battery_sample(65535), None);
}

#[test]
fn charging_sample_is_filtered_before_aggregation_not_trimmed() {
    // One anomalous raw sample among five: the charging-voltage filter must
    // drop it before aggregation, so the remaining four scaled samples
    // [2000, 2010, 2020, 2016] are trimmed to [2010, 2016] and average to
    // 2013. Had the 8000 mV sample reached the aggregator, it would have
    // been trimmed as the maximum and the result would differ.
    let mut buffers = SampleBuffers::new();
    for raw in [1000u16, 1005, 1010, 4000, 1008] {
        buffers.record_battery(raw);
    }
    assert_eq!(buffers.battery_voltage, vec![2000, 2010, 2020, 2016]);

    let batch = build_sensor_data(&buffers, 7);
    assert!(batch.publish);
    assert!(batch.data.contains(&Sensor::BatteryVoltage(2013)));
}

#[test]
fn batch_without_valid_battery_samples_is_not_published() {
    let mut buffers = SampleBuffers::new();
    // Every battery sample reads as USB charging and is discarded.
    for raw in [4000u16, 4000, 4000, 4000, 4000] {
        buffers.record_battery(raw);
    }
    // Other channels are fine.
    for raw in [1500u16, 1510, 1505] {
        buffers.record_soil_moisture(raw);
    }
    let batch = build_sensor_data(&buffers, 7);
    assert!(!batch.publish);
    assert!(!batch.data.iter().any(|s| matches!(s, Sensor::BatteryVoltage(_))));
    // The reporting collaborator forwards nothing from such a batch.
    assert!(readings_to_publish(&batch).is_none());
}

#[test]
fn full_cycle_assembles_readings_in_order() {
    let mut buffers = SampleBuffers::new();
    for (h, t) in [(54u8, 21u8), (55, 21), (56, 22), (55, 21), (55, 21)] {
        buffers.record_climate(&Measurement {
            temperature: t,
            humidity: h,
        });
    }
    for raw in [1000u16, 1010, 1020, 1010, 1010] {
        buffers.record_soil_moisture(raw);
    }
    for raw in [3100u16, 3105, 3110, 3100, 3105] {
        buffers.record_water_level(raw);
    }
    for raw in [1600u16, 1605, 1610, 1600, 1605] {
        buffers.record_battery(raw);
    }

    // Boot count 20 is a multiple of the trigger interval.
    let batch = build_sensor_data(&buffers, 20);
    assert!(batch.publish);
    assert_eq!(
        batch.data,
        vec![
            Sensor::AirHumidity(55),
            Sensor::AirTemperature(21),
            Sensor::WaterLevel(WaterLevel::Full),
            Sensor::SoilMoistureRaw(SoilMoistureRawLevel(1010)),
            Sensor::SoilMoisture(MoistureLevel::Wet),
            Sensor::PumpTrigger(true),
            // Scaled samples [3200, 3210, 3220, 3200, 3210], trimmed and
            // averaged: 9620 / 3 = 3206.
            Sensor::BatteryVoltage(3206),
        ]
    );
}

#[test]
fn failed_channels_are_omitted_without_aborting_the_cycle() {
    let mut buffers = SampleBuffers::new();
    // Only two one-wire reads succeeded: too few to aggregate.
    for (h, t) in [(54u8, 21u8), (55, 21)] {
        buffers.record_climate(&Measurement {
            temperature: t,
            humidity: h,
        });
    }
    for raw in [1600u16, 1605, 1610] {
        buffers.record_battery(raw);
    }
    let batch = build_sensor_data(&buffers, 3);
    assert_eq!(
        batch.data,
        vec![Sensor::PumpTrigger(false), Sensor::BatteryVoltage(3210)]
    );
    assert!(batch.publish);
}

#[test]
fn sample_budget_is_capped_per_cycle() {
    let mut buffers = SampleBuffers::new();
    for _ in 0..10 {
        buffers.record_soil_moisture(1500);
    }
    assert_eq!(buffers.soil_moisture.len(), 5);
}
