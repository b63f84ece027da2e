use pmw3901::protocol::{
    read_frame, read_frames, read_response, read_responses, write_frame, write_frames,
    write_response, write_responses, HANDSHAKE, WRITE_FLAG,
};
use pmw3901::{Frame, Pmw3901Error};

/// Answers each frame with the handshake and the value of the addressed register.
fn answer(regs: &[u8; 128], frames: &[Frame]) -> Vec<Frame> {
    frames.iter().map(|f| (HANDSHAKE, regs[(f.0 & 0x7F) as usize])).collect()
}

#[test]
fn read_frame_keeps_address_and_pads_with_zero() {
    assert_eq!(read_frame(0x00), (0x00, 0x00));
    assert_eq!(read_frame(0x5F), (0x5F, 0x00));
}

#[test]
fn write_frame_sets_the_write_bit() {
    assert_eq!(write_frame(0x3A, 0x5A), Ok((0xBA, 0x5A)));
    assert_eq!(write_frame(0x00, 0x01), Ok((0x80, 0x01)));
    assert_eq!(write_frame(0x7F, 0xFF), Ok((0xFF, 0xFF)));
}

#[test]
fn write_frame_refuses_address_with_write_bit_set() {
    for addr in 0u8..=0x7F {
        assert_eq!(write_frame(addr | WRITE_FLAG, 0x12), Err(Pmw3901Error::WriteBitSet));
        assert!(write_frame(addr, 0x12).is_ok());
    }
}

#[test]
fn read_response_returns_second_byte_after_handshake() {
    assert_eq!(read_response((0xFF, 0x49)), Ok(0x49));
    assert_eq!(read_response((0xFF, 0x00)), Ok(0x00));
}

#[test]
fn read_response_refuses_bad_handshake() {
    for first in 0u8..0xFF {
        assert_eq!(read_response((first, 0x49)), Err(Pmw3901Error::UnexpectedHandshake));
    }
}

#[test]
fn write_response_echoes_written_value() {
    for val in [0x00u8, 0x5A, 0xB3, 0xFF] {
        assert_eq!(write_response((0xFF, 0xFF), val), Ok(val));
    }
}

#[test]
fn write_response_checks_both_bytes() {
    assert_eq!(write_response((0x00, 0xFF), 0x5A), Err(Pmw3901Error::UnexpectedHandshake));
    assert_eq!(write_response((0xFF, 0x00), 0x5A), Err(Pmw3901Error::UnexpectedHandshake));
}

#[test]
fn batched_read_keeps_address_order() {
    let mut regs = [0u8; 128];
    for (i, r) in regs.iter_mut().enumerate() {
        *r = (i as u8).wrapping_mul(3).wrapping_add(1);
    }
    let addrs = [0x05u8, 0x00, 0x7F, 0x05, 0x22];
    let frames = read_frames(&addrs);
    assert_eq!(frames, vec![(0x05, 0), (0x00, 0), (0x7F, 0), (0x05, 0), (0x22, 0)]);
    let values = read_responses(&answer(&regs, &frames)).unwrap();
    assert_eq!(values.len(), addrs.len());
    for (v, a) in values.iter().zip(addrs.iter()) {
        assert_eq!(*v, regs[*a as usize]);
    }
    assert_eq!(values, vec![16, 1, 126, 16, 103]);
}

#[test]
fn batched_read_of_nothing_is_empty() {
    assert_eq!(read_frames(&[]), Vec::<Frame>::new());
    assert_eq!(read_responses(&[]), Ok(Vec::new()));
}

#[test]
fn batched_read_fails_whole_call_on_any_bad_frame() {
    let good = vec![(0xFF, 1), (0xFF, 2), (0xFF, 3), (0xFF, 4)];
    for k in 0..good.len() {
        let mut rx = good.clone();
        rx[k].0 = 0xFE;
        assert_eq!(read_responses(&rx), Err(Pmw3901Error::UnexpectedHandshake));
    }
    assert_eq!(read_responses(&good), Ok(vec![1, 2, 3, 4]));
}

#[test]
fn batched_write_frames_in_order() {
    let pairs = [(0x7Fu8, 0x00u8), (0x61, 0xAD), (0x7F, 0x03)];
    assert_eq!(write_frames(&pairs), Ok(vec![(0xFF, 0x00), (0xE1, 0xAD), (0xFF, 0x03)]));
}

#[test]
fn batched_write_refuses_any_address_with_write_bit() {
    let pairs = [(0x7Fu8, 0x00u8), (0xE1, 0xAD)];
    assert_eq!(write_frames(&pairs), Err(Pmw3901Error::WriteBitSet));
}

#[test]
fn batched_write_checks_both_bytes_of_every_frame() {
    assert_eq!(write_responses(&[(0xFF, 0xFF), (0xFF, 0xFF)]), Ok(()));
    assert_eq!(write_responses(&[(0xFF, 0xFF), (0xFF, 0x00)]), Err(Pmw3901Error::UnexpectedHandshake));
    assert_eq!(write_responses(&[(0x00, 0xFF), (0xFF, 0xFF)]), Err(Pmw3901Error::UnexpectedHandshake));
    assert_eq!(write_responses(&[]), Ok(()));
}
