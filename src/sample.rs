//! Motion samples: the X/Y pixel-velocity pair read from the delta registers.
use vstd::prelude::*;
use byteorder::{ByteOrder, LittleEndian};
use crate::protocol::{
    bank_answers, batch_read_outcome, read_frames, read_frames_of, read_responses, read_values,
    reads_acknowledged, Frame, Pmw3901Error,
};

verus! {

/// Motion output of the sensor.
#[derive(Debug, Clone, Copy, PartialEq, Eq, Structural)]
pub struct Pmw3901Sample {
    /// Unit is pixel velocity.
    pub x: i16,
    /// Unit is pixel velocity.
    pub y: i16,
}

/// Register that latches the motion counters; its value is discarded.
pub const MOTION: u8 = 0x02;

/// Low byte of the X delta.
pub const DELTA_X_L: u8 = 0x03;

/// High byte of the X delta.
pub const DELTA_X_H: u8 = 0x04;

/// Low byte of the Y delta.
pub const DELTA_Y_L: u8 = 0x05;

/// High byte of the Y delta.
pub const DELTA_Y_H: u8 = 0x06;

/// Registers read, in this order, for one sample.
pub open spec fn sample_registers() -> Seq<u8> {
    seq![0x02u8, 0x03u8, 0x04u8, 0x05u8, 0x06u8]
}

/// Signed 16-bit value whose little-endian two's-complement bytes are `lo`, `hi`.
pub open spec fn le_i16(lo: u8, hi: u8) -> int {
    let u = lo as int + 256 * hi as int;
    if u < 0x8000 {
        u
    } else {
        u - 0x10000
    }
}

/// The sample carried by the values of the sample registers, in their order.
pub open spec fn sample_of_values(v: Seq<u8>) -> Pmw3901Sample {
    Pmw3901Sample { x: le_i16(v[1], v[2]) as i16, y: le_i16(v[3], v[4]) as i16 }
}

/// Outcome of a sample read given the responses to its five read frames.
pub open spec fn sample_outcome(rx: Seq<Frame>) -> Result<Pmw3901Sample, Pmw3901Error> {
    match batch_read_outcome(rx) {
        Ok(v) => Ok(sample_of_values(v)),
        Err(e) => Err(e),
    }
}

/// Relies on byteorder's `LittleEndian::read_i16`: the first byte is the low
/// half of a two's-complement 16-bit value, the second the high half.
#[verifier::external_body]
fn read_i16_le(lo: u8, hi: u8) -> (r: i16)
    ensures
        r as int == le_i16(lo, hi),
{
    LittleEndian::read_i16(&[lo, hi])
}

/// Request frames for one sample: a read of each sample register, in order.
pub fn sample_request() -> (v: Vec<Frame>)
    ensures
        v@ == read_frames_of(sample_registers()),
{
    let addrs: [u8; 5] = [MOTION, DELTA_X_L, DELTA_X_H, DELTA_Y_L, DELTA_Y_H];
    assert(addrs@ =~= sample_registers());
    read_frames(addrs.as_slice())
}

/// Assembles a sample from the responses to the frames of `sample_request`.
///
/// One response without the handshake fails the whole sample.
pub fn sample_from_responses(rx: &[Frame]) -> (r: Result<Pmw3901Sample, Pmw3901Error>)
    requires
        rx@.len() == 5,
    ensures
        r == sample_outcome(rx@),
{
    let v = read_responses(rx)?;
    let x = read_i16_le(v[1], v[2]);
    let y = read_i16_le(v[3], v[4]);
    Ok(Pmw3901Sample { x, y })
}

/// Reading a sample is repeatable: two reads from devices whose delta
/// registers (0x03 to 0x06) hold the same values, such as one device read
/// twice with no write in between, give the same sample, namely the one those
/// registers encode.
pub proof fn lemma_sample_repeatable(bank1: spec_fn(u8) -> u8, bank2: spec_fn(u8) -> u8)
    requires
        forall|a: u8| 0x03 <= a <= 0x06 ==> #[trigger] bank1(a) == bank2(a),
    ensures
        sample_outcome(bank_answers(bank1, read_frames_of(sample_registers()))) == sample_outcome(
            bank_answers(bank2, read_frames_of(sample_registers())),
        ),
        sample_outcome(bank_answers(bank1, read_frames_of(sample_registers()))) == Ok::<
            Pmw3901Sample,
            Pmw3901Error,
        >(
            Pmw3901Sample {
                x: le_i16(bank1(0x03), bank1(0x04)) as i16,
                y: le_i16(bank1(0x05), bank1(0x06)) as i16,
            },
        ),
{
    let rx1 = bank_answers(bank1, read_frames_of(sample_registers()));
    let rx2 = bank_answers(bank2, read_frames_of(sample_registers()));
    assert(reads_acknowledged(rx1));
    assert(reads_acknowledged(rx2));
    let v1 = read_values(rx1);
    let v2 = read_values(rx2);
    assert(v1[1] == bank1(0x03) && v1[2] == bank1(0x04) && v1[3] == bank1(0x05) && v1[4] == bank1(0x06));
    assert(v2[1] == bank2(0x03) && v2[2] == bank2(0x04) && v2[3] == bank2(0x05) && v2[4] == bank2(0x06));
}

} // verus!
