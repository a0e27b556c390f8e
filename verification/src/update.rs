//! Decision logic of the reporting path: which readings go onto the wire,
//! what pump state the batch commands once the drainage-water safety
//! interlock has its say, and what a received remote command means.
//!
//! The wire protocol client itself is a collaborator; it calls in here with
//! plain values and performs whatever these decisions tell it to.

use vstd::prelude::*;
use vstd::utf8::{decode_utf8, valid_utf8};

use crate::aggregate::trimmed_mean;
use crate::domain::{water_level_of, Sensor, SensorData, WaterLevel};
use crate::fabric::PumpSignal;
use crate::sensors::{
    spec_batch_readings, spec_battery_reading, spec_humidity_reading, spec_moisture_readings,
    spec_pump_trigger, spec_temperature_reading, spec_water_level_reading, SampleBuffers,
};

verus! {

/// The error of decoding invalid UTF-8.
#[verifier::external_type_specification]
#[verifier::external_body]
pub struct ExUtf8Error(core::str::Utf8Error);

/// Relies on core::str::from_utf8: it succeeds exactly on valid UTF-8 and
/// returns the string slice whose characters decode those bytes.
pub assume_specification<'a>[ core::str::from_utf8 ](v: &'a [u8]) -> (r: Result<
    &'a str,
    core::str::Utf8Error,
>)
    ensures
        r is Ok <==> valid_utf8(v@),
        r matches Ok(s) ==> s@ == decode_utf8(v@),
;

/// Compare two string slices by their characters.
fn str_eq(a: &str, b: &str) -> (r: bool)
    ensures
        r == (a@ == b@),
{
    let owned_a = a.to_owned();
    let owned_b = b.to_owned();
    owned_a == owned_b
}

/// Whether the batch allows the pump to run at all: only a drainage tray
/// that reads empty does; standing water, or no water-level reading at all,
/// keeps the pump off.
pub open spec fn spec_allows_pump(data: Seq<Sensor>) -> bool {
    exists|i: int| 0 <= i < data.len() && data[i] == Sensor::WaterLevel(WaterLevel::Empty)
}

/// The last pump-trigger reading of the batch, if it has one.
pub open spec fn spec_last_trigger(data: Seq<Sensor>) -> Option<bool>
    decreases data.len(),
{
    if data.len() == 0 {
        None
    } else {
        match data.last() {
            Sensor::PumpTrigger(t) => Some(t),
            _ => spec_last_trigger(data.drop_last()),
        }
    }
}

/// The pump state one batch commands: the trigger decision, force-disabled
/// by the safety interlock unless the drainage tray reads empty; nothing
/// when the batch carries no trigger.
pub open spec fn spec_pump_command(data: Seq<Sensor>) -> Option<bool> {
    match spec_last_trigger(data) {
        Some(t) => Some(t && spec_allows_pump(data)),
        None => None,
    }
}

/// Compute the pump state a batch commands. The acquisition loop's trigger
/// is only a request; the drainage-water interlock evaluated here can veto
/// it, never the other way around.
pub fn pump_command(batch: &SensorData) -> (r: Option<bool>)
    ensures
        r == spec_pump_command(batch.data@),
{
    let ghost data = batch.data@;
    let n = batch.data.len();
    let mut allow = false;
    let mut trigger: Option<bool> = None;
    let mut i: usize = 0;
    proof {
        assert(data.take(0) =~= Seq::<Sensor>::empty());
    }
    while i < n
        invariant
            i <= n,
            n == data.len(),
            batch.data@ == data,
            allow == spec_allows_pump(data.take(i as int)),
            trigger == spec_last_trigger(data.take(i as int)),
        decreases n - i,
    {
        let ghost prefix = data.take(i as int);
        let ghost next = data.take(i + 1);
        proof {
            assert(next.drop_last() =~= prefix);
            assert(next.last() == data[i as int]);
        }
        match &batch.data[i] {
            Sensor::WaterLevel(WaterLevel::Empty) => {
                allow = true;
            },
            Sensor::PumpTrigger(t) => {
                trigger = Some(*t);
            },
            _ => {},
        }
        proof {
            if spec_allows_pump(prefix) {
                let j = choose|j: int|
                    0 <= j < prefix.len() && prefix[j] == Sensor::WaterLevel(WaterLevel::Empty);
                assert(next[j] == Sensor::WaterLevel(WaterLevel::Empty));
            }
            if data[i as int] == Sensor::WaterLevel(WaterLevel::Empty) {
                assert(next[i as int] == Sensor::WaterLevel(WaterLevel::Empty));
            }
            if spec_allows_pump(next) {
                let j = choose|j: int|
                    0 <= j < next.len() && next[j] == Sensor::WaterLevel(WaterLevel::Empty);
                if j < i {
                    assert(prefix[j] == Sensor::WaterLevel(WaterLevel::Empty));
                }
            }
        }
        i = i + 1;
    }
    proof {
        assert(data.take(n as int) =~= data);
    }
    match trigger {
        Some(t) => Some(t && allow),
        None => None,
    }
}

/// The safety interlock overrides the trigger: a batch in which the
/// drainage tray never reads empty commands the pump off, whatever its
/// trigger said.
pub proof fn lemma_interlock_overrides_trigger(data: Seq<Sensor>)
    requires
        forall|i: int|
            0 <= i < data.len() ==> #[trigger] data[i] != Sensor::WaterLevel(WaterLevel::Empty),
    ensures
        spec_pump_command(data) is Some ==> spec_pump_command(data) == Some(false),
{
}

/// End to end, from acquisition to actuation: a batch built from one
/// cycle's sample buffers always commands a pump state, and that state is
/// on exactly when the boot-counter trigger fires and the drainage tray was
/// read and read as empty. In particular a tray that reads full, or was not
/// read at all, keeps the pump off whatever the trigger said.
pub proof fn lemma_built_batch_pump_command(samples: SampleBuffers, boot_count: u32)
    ensures
        spec_pump_command(spec_batch_readings(samples, boot_count)) == Some(
            spec_pump_trigger(boot_count) && samples.water_level@.len() >= 3 && water_level_of(
                trimmed_mean(samples.water_level@) as u16,
            ) == WaterLevel::Empty,
        ),
{
    let a = spec_humidity_reading(samples.air_humidity@);
    let b = spec_temperature_reading(samples.air_temperature@);
    let c = spec_water_level_reading(samples.water_level@);
    let d = spec_moisture_readings(samples.soil_moisture@);
    let tr = spec_pump_trigger(boot_count);
    let p = seq![Sensor::PumpTrigger(tr)];
    let e = spec_battery_reading(samples.battery_voltage@);
    let batch = spec_batch_readings(samples, boot_count);
    assert(batch =~= a + b + c + d + p + e);

    let front = a + b + c + d;
    let with_trigger = front + p;

    // The batch always carries the trigger, as its last reading or right
    // before the battery reading.
    assert(with_trigger.last() == Sensor::PumpTrigger(tr));
    assert(spec_last_trigger(with_trigger) == Some(tr));
    if e.len() == 0 {
        assert(batch =~= with_trigger);
    } else {
        assert(batch.last() == e[0]);
        assert(batch.drop_last() =~= with_trigger);
    }
    assert(spec_last_trigger(batch) == Some(tr));

    // The only reading that can open the interlock is a water-level reading
    // of an empty tray, and the batch holds one exactly when the channel
    // was aggregated and classified empty.
    let tray_empty = samples.water_level@.len() >= 3 && water_level_of(
        trimmed_mean(samples.water_level@) as u16,
    ) == WaterLevel::Empty;
    if tray_empty {
        assert(batch[a.len() + b.len() as int] == Sensor::WaterLevel(WaterLevel::Empty));
        assert(spec_allows_pump(batch));
    }
    if spec_allows_pump(batch) {
        let i = choose|i: int|
            0 <= i < batch.len() && batch[i] == Sensor::WaterLevel(WaterLevel::Empty);
        assert(c.len() > 0 && batch[i] == c[i - a.len() - b.len()]);
        assert(tray_empty);
    }
}

/// The readings the reporting collaborator forwards onto the wire: all of
/// them for a batch marked worth publishing, none at all otherwise.
pub fn readings_to_publish(batch: &SensorData) -> (r: Option<&Vec<Sensor>>)
    ensures
        batch.publish ==> (r matches Some(v) && v@ == batch.data@),
        !batch.publish ==> r is None,
{
    if batch.publish {
        Some(&batch.data)
    } else {
        None
    }
}

/// What the reporting collaborator should do with one received control
/// message.
#[derive(Clone, Copy, Debug, PartialEq)]
pub struct MqttDirective {
    /// The pump state the message commands, if it commands one.
    pub pump_command: Option<bool>,
    /// Whether the retained copy of the command must be cleared afterwards.
    pub clear_retained: bool,
}

/// The directive a received message yields: a message on any other topic, a
/// message that is not valid UTF-8, and the empty message (the echo of a
/// cleared retained command) are all ignored; any other text commands the
/// pump on exactly when it spells "OPEN", and an "OPEN" command also has
/// its retained copy cleared.
pub open spec fn spec_mqtt_directive(
    topic: Seq<char>,
    data: Seq<u8>,
    pump_set_topic: Seq<char>,
) -> MqttDirective {
    if topic != pump_set_topic {
        MqttDirective { pump_command: None, clear_retained: false }
    } else if !valid_utf8(data) {
        MqttDirective { pump_command: None, clear_retained: false }
    } else if decode_utf8(data).len() == 0 {
        MqttDirective { pump_command: None, clear_retained: false }
    } else {
        let state = decode_utf8(data) == "OPEN"@;
        MqttDirective { pump_command: Some(state), clear_retained: state }
    }
}

/// Interpret one message received from the remote broker.
pub fn process_received_mqtt_message(topic: &str, data: &[u8], pump_set_topic: &str) -> (r:
    MqttDirective)
    ensures
        r == spec_mqtt_directive(topic@, data@, pump_set_topic@),
{
    if !str_eq(topic, pump_set_topic) {
        return MqttDirective { pump_command: None, clear_retained: false };
    }
    match core::str::from_utf8(data) {
        Err(_) => MqttDirective { pump_command: None, clear_retained: false },
        Ok(message) => {
            if message.is_empty() {
                MqttDirective { pump_command: None, clear_retained: false }
            } else {
                let state = str_eq(message, "OPEN");
                MqttDirective { pump_command: Some(state), clear_retained: state }
            }
        },
    }
}

/// Push a pump decision to the relay collaborator through the single-slot
/// signal; a newer decision overwrites an unread older one.
pub fn update_pump_state(signal: &PumpSignal, state: bool) {
    signal.signal_pump(state);
}

} // verus!
