//! Tests of the one-wire frame decoder and the full bit-banged read path,
//! driven by a scripted line.

use std::collections::VecDeque;

use plant_care::dht11::{decode_bit, decode_frame, pack_bits, Dht11, Error, Measurement, OneWireLine};

/// A line whose successive sensed levels follow a script; once the script
/// runs out, the line stays at a fixed idle level.
struct ScriptedLine {
    levels: VecDeque<bool>,
    idle: bool,
    fail: bool,
}

impl ScriptedLine {
    fn new(levels: Vec<bool>, idle: bool) -> Self {
        ScriptedLine {
            levels: levels.into_iter().collect(),
            idle,
            fail: false,
        }
    }
}

impl OneWireLine for ScriptedLine {
    type GpioError = u8;

    fn set_high(&mut self) -> Result<(), u8> {
        if self.fail {
            Err(7)
        } else {
            Ok(())
        }
    }

    fn set_low(&mut self) -> Result<(), u8> {
        Ok(())
    }

    fn is_high(&mut self) -> Result<bool, u8> {
        Ok(self.levels.pop_front().unwrap_or(self.idle))
    }

    fn delay_us(&mut self, _us: u32) {}

    fn delay_ms(&mut self, _ms: u32) {}
}

/// Append the polling script of one transmitted bit: a short low pulse,
/// then a high pulse that is longer for a one and shorter for a zero.
fn push_bit(script: &mut Vec<bool>, bit: bool) {
    if bit {
        // Low for one poll, high for two polls.
        script.extend([false, true, true, true, false]);
    } else {
        // Low for two polls, high for none.
        script.extend([false, false, true, false]);
    }
}

/// The polling script of one whole read: acknowledgement pulse, forty data
/// bits (most significant bit first), then the idle line.
fn read_script(frame: [u8; 5]) -> Vec<bool> {
    let mut script = Vec::new();
    // Acknowledgement pulse, consumed like a data bit.
    push_bit(&mut script, true);
    for byte in frame {
        for i in (0..8).rev() {
            push_bit(&mut script, byte & (1 << i) != 0);
        }
    }
    // The line goes idle high.
    script.push(true);
    script
}

#[test]
fn bit_decodes_by_relative_pulse_duration() {
    assert!(decode_bit(30, 70));
    assert!(!decode_bit(70, 26));
    // An equally long high pulse decodes as zero.
    assert!(!decode_bit(50, 50));
    assert!(decode_bit(0, 1));
}

#[test]
fn bits_pack_most_significant_first() {
    let msb_only = vec![true, false, false, false, false, false, false, false];
    assert_eq!(pack_bits(&msb_only), 128);
    let lsb_only = vec![false, false, false, false, false, false, false, true];
    assert_eq!(pack_bits(&lsb_only), 1);
    let mixed = vec![false, true, true, false, true, false, true, true];
    assert_eq!(pack_bits(&mixed), 107);
    assert_eq!(pack_bits(&vec![true; 8]), 255);
    assert_eq!(pack_bits(&vec![false; 8]), 0);
}

#[test]
fn decode_accepts_valid_frame() {
    let frame = [42u8, 0, 25, 0, 67];
    let r: Result<Measurement, Error<()>> = decode_frame(&frame);
    assert_eq!(
        r,
        Ok(Measurement {
            temperature: 25,
            humidity: 42
        })
    );
}

#[test]
fn decode_checksum_wraps_modulo_256() {
    // 200 + 100 + 50 + 30 = 380, and 380 mod 256 = 124.
    let frame = [200u8, 100, 50, 30, 124];
    let r: Result<Measurement, Error<()>> = decode_frame(&frame);
    assert_eq!(
        r,
        Ok(Measurement {
            temperature: 50,
            humidity: 200
        })
    );
}

#[test]
fn decode_rejects_bad_checksum_as_mismatch_not_timeout() {
    let frame = [42u8, 0, 25, 0, 68];
    let r: Result<Measurement, Error<()>> = decode_frame(&frame);
    assert_eq!(r, Err(Error::CrcMismatch));
    let frame = [0u8, 0, 0, 0, 1];
    let r: Result<Measurement, Error<()>> = decode_frame(&frame);
    assert_eq!(r, Err(Error::CrcMismatch));
}

#[test]
fn decode_exhaustive_single_byte_frames() {
    // For every humidity byte, exactly the matching checksum decodes.
    for b0 in 0..=255u8 {
        let good = [b0, 0, 0, 0, b0];
        let r: Result<Measurement, Error<()>> = decode_frame(&good);
        assert_eq!(
            r,
            Ok(Measurement {
                temperature: 0,
                humidity: b0
            })
        );
        let bad = [b0, 0, 0, 0, b0.wrapping_add(1)];
        let r: Result<Measurement, Error<()>> = decode_frame(&bad);
        assert_eq!(r, Err(Error::CrcMismatch));
    }
}

#[test]
fn read_decodes_scripted_transmission() {
    let frame = [55u8, 3, 21, 2, 81];
    assert_eq!(55u16 + 3 + 21 + 2, 81);
    let line = ScriptedLine::new(read_script(frame), true);
    let mut sensor = Dht11::new(line);
    assert_eq!(
        sensor.read(),
        Ok(Measurement {
            temperature: 21,
            humidity: 55
        })
    );
}

#[test]
fn read_reports_checksum_mismatch_from_scripted_transmission() {
    let frame = [55u8, 3, 21, 2, 80];
    let line = ScriptedLine::new(read_script(frame), true);
    let mut sensor = Dht11::new(line);
    assert_eq!(sensor.read(), Err(Error::CrcMismatch));
}

#[test]
fn read_times_out_on_stuck_line() {
    // The line never leaves the low level, so the first wait for a high
    // pulse exhausts its polling budget.
    let line = ScriptedLine::new(Vec::new(), false);
    let mut sensor = Dht11::new(line);
    assert_eq!(sensor.read(), Err(Error::Timeout));
}

#[test]
fn read_propagates_gpio_error() {
    let mut line = ScriptedLine::new(Vec::new(), true);
    line.fail = true;
    let mut sensor = Dht11::new(line);
    assert_eq!(sensor.read(), Err(Error::Gpio(7)));
}
