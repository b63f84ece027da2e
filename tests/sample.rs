use pmw3901::protocol::HANDSHAKE;
use pmw3901::sample::{sample_from_responses, sample_request};
use pmw3901::{Frame, Pmw3901Error, Pmw3901Sample};

fn answer(regs: &[u8; 128], frames: &[Frame]) -> Vec<Frame> {
    frames.iter().map(|f| (HANDSHAKE, regs[(f.0 & 0x7F) as usize])).collect()
}

fn bank(x_lo: u8, x_hi: u8, y_lo: u8, y_hi: u8) -> [u8; 128] {
    let mut regs = [0u8; 128];
    regs[0x02] = 0x80;
    regs[0x03] = x_lo;
    regs[0x04] = x_hi;
    regs[0x05] = y_lo;
    regs[0x06] = y_hi;
    regs
}

#[test]
fn sample_request_reads_motion_then_deltas() {
    assert_eq!(sample_request(), vec![(0x02, 0), (0x03, 0), (0x04, 0), (0x05, 0), (0x06, 0)]);
}

#[test]
fn sample_assembles_little_endian_signed_values() {
    let regs = bank(0x10, 0x00, 0xF0, 0xFF);
    let s = sample_from_responses(&answer(&regs, &sample_request())).unwrap();
    assert_eq!(s, Pmw3901Sample { x: 16, y: -16 });
}

#[test]
fn sample_extremes() {
    let regs = bank(0xFF, 0x7F, 0x00, 0x80);
    let s = sample_from_responses(&answer(&regs, &sample_request())).unwrap();
    assert_eq!(s.x, i16::MAX);
    assert_eq!(s.y, i16::MIN);
    let regs = bank(0x34, 0x12, 0xFF, 0xFF);
    let s = sample_from_responses(&answer(&regs, &sample_request())).unwrap();
    assert_eq!(s, Pmw3901Sample { x: 0x1234, y: -1 });
}

#[test]
fn sample_read_twice_is_the_same() {
    let regs = bank(0x21, 0x03, 0x9C, 0xFE);
    let first = sample_from_responses(&answer(&regs, &sample_request())).unwrap();
    let second = sample_from_responses(&answer(&regs, &sample_request())).unwrap();
    assert_eq!(first, second);
    assert_eq!(first, Pmw3901Sample { x: 0x0321, y: -356 });
}

#[test]
fn sample_fails_on_bad_handshake() {
    let regs = bank(0x10, 0x00, 0xF0, 0xFF);
    for k in 0..5 {
        let mut rx = answer(&regs, &sample_request());
        rx[k].0 = 0x00;
        assert_eq!(sample_from_responses(&rx), Err(Pmw3901Error::UnexpectedHandshake));
    }
}
