//! Tests of the reporting-path decisions: the pump interlock, the publish
//! gate, remote command handling, and the task-fabric primitives.

use plant_care::domain::{MoistureLevel, Sensor, SensorData, WaterLevel};
use plant_care::fabric::{PumpSignal, ReadingChannel, READING_CHANNEL_CAPACITY};
use plant_care::update::{
    process_received_mqtt_message, pump_command, readings_to_publish, update_pump_state,
};

fn batch(data: Vec<Sensor>, publish: bool) -> SensorData {
    SensorData { data, publish }
}

#[test]
fn interlock_overrides_trigger_when_tray_is_full() {
    let b = batch(
        vec![
            Sensor::PumpTrigger(true),
            Sensor::WaterLevel(WaterLevel::Full),
        ],
        true,
    );
    assert_eq!(pump_command(&b), Some(false));
}

#[test]
fn trigger_runs_pump_when_tray_is_empty() {
    let b = batch(
        vec![
            Sensor::WaterLevel(WaterLevel::Empty),
            Sensor::PumpTrigger(true),
        ],
        true,
    );
    assert_eq!(pump_command(&b), Some(true));
}

#[test]
fn missing_water_level_reading_keeps_pump_off() {
    let b = batch(vec![Sensor::PumpTrigger(true)], true);
    assert_eq!(pump_command(&b), Some(false));
}

#[test]
fn false_trigger_keeps_pump_off_even_with_empty_tray() {
    let b = batch(
        vec![
            Sensor::WaterLevel(WaterLevel::Empty),
            Sensor::PumpTrigger(false),
        ],
        true,
    );
    assert_eq!(pump_command(&b), Some(false));
}

#[test]
fn batch_without_trigger_commands_nothing() {
    let b = batch(
        vec![
            Sensor::WaterLevel(WaterLevel::Empty),
            Sensor::SoilMoisture(MoistureLevel::Dry),
        ],
        true,
    );
    assert_eq!(pump_command(&b), None);
}

#[test]
fn publish_gate_forwards_only_published_batches() {
    let readings = vec![Sensor::AirTemperature(21), Sensor::BatteryVoltage(3210)];
    let published = batch(readings.clone(), true);
    assert_eq!(readings_to_publish(&published), Some(&readings));
    let unpublished = batch(readings, false);
    assert_eq!(readings_to_publish(&unpublished), None);
}

#[test]
fn open_command_turns_pump_on_and_clears_retained() {
    let d = process_received_mqtt_message("dev/pump/set", b"OPEN", "dev/pump/set");
    assert_eq!(d.pump_command, Some(true));
    assert!(d.clear_retained);
}

#[test]
fn other_text_turns_pump_off_without_clearing() {
    let d = process_received_mqtt_message("dev/pump/set", b"CLOSE", "dev/pump/set");
    assert_eq!(d.pump_command, Some(false));
    assert!(!d.clear_retained);
    // Case matters.
    let d = process_received_mqtt_message("dev/pump/set", b"open", "dev/pump/set");
    assert_eq!(d.pump_command, Some(false));
}

#[test]
fn empty_message_is_the_cleared_retained_echo_and_is_ignored() {
    let d = process_received_mqtt_message("dev/pump/set", b"", "dev/pump/set");
    assert_eq!(d.pump_command, None);
    assert!(!d.clear_retained);
}

#[test]
fn invalid_utf8_is_ignored() {
    let d = process_received_mqtt_message("dev/pump/set", &[0xff, 0xfe], "dev/pump/set");
    assert_eq!(d.pump_command, None);
    assert!(!d.clear_retained);
}

#[test]
fn messages_on_other_topics_are_ignored() {
    let d = process_received_mqtt_message("dev/other", b"OPEN", "dev/pump/set");
    assert_eq!(d.pump_command, None);
    assert!(!d.clear_retained);
}

#[test]
fn pump_signal_keeps_only_the_latest_decision() {
    let signal = PumpSignal::new();
    assert_eq!(signal.try_take(), None);
    update_pump_state(&signal, true);
    update_pump_state(&signal, false);
    assert_eq!(signal.try_take(), Some(false));
    assert_eq!(signal.try_take(), None);
}

#[test]
fn reading_channel_queues_batches_in_order_up_to_capacity() {
    let channel = ReadingChannel::new();
    assert!(channel.try_receive().is_none());
    assert_eq!(channel.len(), 0);

    for i in 0..READING_CHANNEL_CAPACITY as u8 {
        let b = batch(vec![Sensor::AirTemperature(i)], true);
        assert!(channel.try_send(b).is_ok());
    }
    assert_eq!(channel.len(), READING_CHANNEL_CAPACITY);

    // The queue is full: the fourth batch comes back unchanged.
    let overflow = batch(vec![Sensor::AirTemperature(99)], true);
    match channel.try_send(overflow) {
        Err(b) => assert_eq!(b.data, vec![Sensor::AirTemperature(99)]),
        Ok(()) => panic!("queue accepted a fourth batch"),
    }

    // Batches come out in insertion order.
    for i in 0..READING_CHANNEL_CAPACITY as u8 {
        let received = channel.try_receive().expect("queued batch");
        assert_eq!(received.data, vec![Sensor::AirTemperature(i)]);
    }
    assert!(channel.try_receive().is_none());
}
