//! Decoder for the combined temperature/humidity sensor that shares a
//! single bidirectional data line with the host.
//!
//! The host signals a read request by pulling the line low, then the sensor
//! answers with an acknowledgement pulse and forty data bits. Each bit is a
//! low pulse followed by a high pulse; the bit is one exactly when the high
//! pulse outlasts the low pulse. The bits pack most-significant-bit first
//! into five bytes: humidity, a reserved byte, temperature, a reserved
//! byte, and a checksum.

use vstd::prelude::*;

verus! {

/// How many one-microsecond polling steps to wait for a pulse edge before
/// giving up. This bounds worst-case blocking of a read to about one
/// millisecond per edge.
pub const TIMEOUT_US: u16 = 1000;

/// Error of one sensor read attempt.
#[derive(Debug, PartialEq)]
pub enum Error<E> {
    /// The line did not reach the expected level within the polling budget.
    Timeout,
    /// The received frame contradicts its checksum.
    CrcMismatch,
    /// The underlying line driver failed.
    Gpio(E),
}

/// Result of one successful sensor read.
#[derive(Clone, Copy, Debug, Default, PartialEq, Eq, Structural)]
pub struct Measurement {
    /// The measured temperature in whole degrees Celsius.
    pub temperature: u8,
    /// The measured relative humidity in percent.
    pub humidity: u8,
}

/// One bidirectional open-drain data line together with the microsecond
/// timer needed to drive it. Implementations own the physical pin; the
/// library assumes nothing about what the hardware returns.
pub trait OneWireLine {
    /// Error of the underlying pin driver.
    type GpioError;

    /// Stop driving the line and let the pull-up raise it.
    fn set_high(&mut self) -> Result<(), Self::GpioError>;

    /// Drive the line low.
    fn set_low(&mut self) -> Result<(), Self::GpioError>;

    /// Sense the current level of the line.
    fn is_high(&mut self) -> Result<bool, Self::GpioError>;

    /// Busy-wait for the given number of microseconds.
    fn delay_us(&mut self, us: u32);

    /// Busy-wait for the given number of milliseconds.
    fn delay_ms(&mut self, ms: u32);
}

/// Checksum of a frame: the sum of its first four bytes, modulo 256.
pub open spec fn spec_checksum(b0: u8, b1: u8, b2: u8, b3: u8) -> u8 {
    ((b0 + b1 + b2 + b3) % 256) as u8
}

/// A five-byte frame is valid when its last byte equals the checksum of the
/// first four.
pub open spec fn frame_ok(f: Seq<u8>) -> bool
    recommends
        f.len() == 5,
{
    f[4] == spec_checksum(f[0], f[1], f[2], f[3])
}

/// The measurement carried by a valid frame: humidity in the first byte,
/// temperature in the third.
pub open spec fn measurement_of(f: Seq<u8>) -> Measurement
    recommends
        f.len() == 5,
{
    Measurement { temperature: f[2], humidity: f[0] }
}

/// Decode a received five-byte frame: succeeds with the carried measurement
/// exactly when the frame satisfies its checksum, and fails with a checksum
/// mismatch (never a timeout) otherwise.
pub fn decode_frame<E>(frame: &[u8; 5]) -> (r: Result<Measurement, Error<E>>)
    ensures
        frame_ok(frame@) ==> r == Ok::<Measurement, Error<E>>(measurement_of(frame@)),
        !frame_ok(frame@) ==> r == Err::<Measurement, Error<E>>(Error::<E>::CrcMismatch),
{
    let crc = frame[0].wrapping_add(frame[1]).wrapping_add(frame[2]).wrapping_add(frame[3]);
    proof {
        assert(crc == spec_checksum(frame@[0], frame@[1], frame@[2], frame@[3]));
    }
    if crc != frame[4] {
        return Err(Error::CrcMismatch);
    }
    Ok(Measurement { temperature: frame[2], humidity: frame[0] })
}

/// One where the bit is set, zero where it is not.
pub open spec fn bit_val(b: bool) -> int {
    if b {
        1
    } else {
        0
    }
}

/// The byte eight bits encode, most significant bit first.
pub open spec fn spec_pack_bits(bits: Seq<bool>) -> u8
    recommends
        bits.len() == 8,
{
    (128 * bit_val(bits[0]) + 64 * bit_val(bits[1]) + 32 * bit_val(bits[2]) + 16 * bit_val(bits[3])
        + 8 * bit_val(bits[4]) + 4 * bit_val(bits[5]) + 2 * bit_val(bits[6]) + bit_val(
        bits[7],
    )) as u8
}

/// Decode one data bit from the durations of its two pulses: the bit is one
/// exactly when the high pulse outlasts the low pulse — the relative
/// duration encodes the value.
pub fn decode_bit(low: u16, high: u16) -> (bit: bool)
    ensures
        bit == (high > low),
{
    high > low
}

/// Pack eight received data bits into one byte, most significant bit first.
pub fn pack_bits(bits: &Vec<bool>) -> (byte: u8)
    requires
        bits@.len() == 8,
    ensures
        byte == spec_pack_bits(bits@),
{
    let mut byte: u8 = 0;
    if bits[0] {
        byte = byte + 128;
    }
    if bits[1] {
        byte = byte + 64;
    }
    if bits[2] {
        byte = byte + 32;
    }
    if bits[3] {
        byte = byte + 16;
    }
    if bits[4] {
        byte = byte + 8;
    }
    if bits[5] {
        byte = byte + 4;
    }
    if bits[6] {
        byte = byte + 2;
    }
    if bits[7] {
        byte = byte + 1;
    }
    byte
}

/// The one-wire sensor, owning its data line.
pub struct Dht11<L> {
    /// The concrete line implementation.
    line: L,
}

impl<L: OneWireLine> Dht11<L> {
    /// Create a new sensor connected through the given line.
    pub fn new(line: L) -> Dht11<L> {
        Dht11 { line }
    }

    /// Perform one reading of the sensor. On success the returned
    /// measurement was decoded from a frame that satisfied its checksum; a
    /// frame that contradicts its checksum is reported as a checksum
    /// mismatch, a line stuck at the wrong level as a timeout, and a pin
    /// driver failure is wrapped and propagated. A failed read leaves no
    /// other trace.
    pub fn read(&mut self) -> (r: Result<Measurement, Error<L::GpioError>>)
        ensures
            r matches Ok(m) ==> exists|f: Seq<u8>|
                f.len() == 5 && #[trigger] frame_ok(f) && m == measurement_of(f),
    {
        self.perform_handshake()?;
        let b0 = self.read_byte()?;
        let b1 = self.read_byte()?;
        let b2 = self.read_byte()?;
        let b3 = self.read_byte()?;
        let b4 = self.read_byte()?;

        // Finally wait for the line to go idle again.
        self.wait_for_pulse(true)?;

        let frame: [u8; 5] = [b0, b1, b2, b3, b4];
        let r = decode_frame(&frame);
        proof {
            assert(r matches Ok(m) ==> frame@.len() == 5 && frame_ok(frame@) && m
                == measurement_of(frame@));
        }
        r
    }

    /// Signal a read request: release the line, pull it low for at least
    /// 18 ms, release it again, then consume the sensor's acknowledgement
    /// pulse (80 us low, 80 us high). The line stage can time out or fail
    /// at the pin, never report a checksum mismatch.
    fn perform_handshake(&mut self) -> (r: Result<(), Error<L::GpioError>>)
        ensures
            r matches Err(e) ==> (e is Timeout || e is Gpio),
    {
        match self.line.set_high() {
            Ok(()) => (),
            Err(e) => {
                return Err(Error::Gpio(e));
            },
        }
        self.line.delay_ms(1);

        match self.line.set_low() {
            Ok(()) => (),
            Err(e) => {
                return Err(Error::Gpio(e));
            },
        }
        self.line.delay_ms(20);

        match self.line.set_high() {
            Ok(()) => (),
            Err(e) => {
                return Err(Error::Gpio(e));
            },
        }
        self.line.delay_us(40);

        match self.read_bit() {
            Ok(_) => (),
            Err(e) => {
                return Err(e);
            },
        }
        Ok(())
    }

    /// Read one byte: eight data bits, packed most significant bit first by
    /// the contract of [`pack_bits`].
    fn read_byte(&mut self) -> (r: Result<u8, Error<L::GpioError>>)
        ensures
            r matches Ok(byte) ==> exists|bits: Seq<bool>|
                bits.len() == 8 && byte == #[trigger] spec_pack_bits(bits),
            r matches Err(e) ==> (e is Timeout || e is Gpio),
    {
        let mut bits: Vec<bool> = Vec::new();
        let mut i: usize = 0;
        while i < 8
            invariant
                i <= 8,
                bits@.len() == i,
            decreases 8 - i,
        {
            let bit = match self.read_bit() {
                Ok(b) => b,
                Err(e) => {
                    return Err(e);
                },
            };
            bits.push(bit);
            i = i + 1;
        }
        Ok(pack_bits(&bits))
    }

    /// Read one data bit: a low pulse followed by a high pulse, decoded by
    /// their relative duration per the contract of [`decode_bit`].
    fn read_bit(&mut self) -> (r: Result<bool, Error<L::GpioError>>)
        ensures
            r matches Err(e) ==> (e is Timeout || e is Gpio),
    {
        let low = match self.wait_for_pulse(true) {
            Ok(c) => c,
            Err(e) => {
                return Err(e);
            },
        };
        let high = match self.wait_for_pulse(false) {
            Ok(c) => c,
            Err(e) => {
                return Err(e);
            },
        };
        Ok(decode_bit(low, high))
    }

    /// Busy-poll in one-microsecond steps until the line reaches the given
    /// level, returning how many steps it took, or a timeout once the
    /// polling budget is spent. The wait itself never reports a checksum
    /// mismatch.
    fn wait_for_pulse(&mut self, level: bool) -> (r: Result<u16, Error<L::GpioError>>)
        ensures
            r matches Ok(c) ==> c <= TIMEOUT_US,
            r matches Err(e) ==> (e is Timeout || e is Gpio),
    {
        let mut count: u16 = 0;
        loop
            invariant
                count <= TIMEOUT_US,
            decreases TIMEOUT_US - count,
        {
            let lvl = match self.line.is_high() {
                Ok(v) => v,
                Err(e) => {
                    return Err(Error::Gpio(e));
                },
            };
            if lvl == level {
                return Ok(count);
            }
            count = count + 1;
            if count > TIMEOUT_US {
                return Err(Error::Timeout);
            }
            self.line.delay_us(1);
        }
    }
}

} // verus!
