//! Two-byte register frames: how requests are encoded and responses checked.
use vstd::prelude::*;

verus! {

/// Byte that the device sends back in every valid response slot.
pub const HANDSHAKE: u8 = 0xFF;

/// Bit of the first request byte that marks a write.
pub const WRITE_FLAG: u8 = 0x80;

/// A request or response frame: the two bytes exchanged in one transfer.
pub type Frame = (u8, u8);

/// Errors decided by the register protocol and the bring-up sequence.
#[derive(Debug, Clone, Copy, PartialEq, Eq, Structural)]
pub enum Pmw3901Error {
    /// A response frame did not carry the handshake byte where it must.
    UnexpectedHandshake,
    /// The product ID or its inverse did not match the expected silicon.
    IdentityMismatch,
    /// The caller passed a register address that already has the write bit set.
    WriteBitSet,
}

/// Request frame that reads register `addr`.
pub open spec fn read_frame_of(addr: u8) -> Frame {
    (addr, 0u8)
}

/// Request frame that writes `val` to register `addr` (write bit set).
pub open spec fn write_frame_of(addr: u8, val: u8) -> Frame {
    ((addr + 0x80) as u8, val)
}

/// Whether `addr` can be used in a write request.
pub open spec fn writable(addr: u8) -> bool {
    addr < 0x80
}

/// Outcome of a single read given its response frame.
pub open spec fn read_outcome(rx: Frame) -> Result<u8, Pmw3901Error> {
    if rx.0 == HANDSHAKE {
        Ok(rx.1)
    } else {
        Err(Pmw3901Error::UnexpectedHandshake)
    }
}

/// Whether a write response carries the handshake in both bytes.
pub open spec fn write_acknowledged(rx: Frame) -> bool {
    rx.0 == HANDSHAKE && rx.1 == HANDSHAKE
}

/// Builds the request frame that reads register `addr`.
pub fn read_frame(addr: u8) -> (f: Frame)
    ensures
        f == read_frame_of(addr),
{
    (addr, 0)
}

/// Builds the request frame that writes `val` to register `addr`.
///
/// An address whose write bit is already set is refused before any frame is
/// built.
pub fn write_frame(addr: u8, val: u8) -> (r: Result<Frame, Pmw3901Error>)
    ensures
        writable(addr) ==> r == Ok::<Frame, Pmw3901Error>(write_frame_of(addr, val)),
        !writable(addr) ==> r == Err::<Frame, Pmw3901Error>(Pmw3901Error::WriteBitSet),
{
    if addr & WRITE_FLAG != 0 {
        assert(addr & 0x80 != 0 ==> addr >= 0x80) by (bit_vector);
        Err(Pmw3901Error::WriteBitSet)
    } else {
        assert(addr & 0x80 == 0 ==> addr < 0x80 && (addr | 0x80) == addr + 0x80) by (bit_vector);
        Ok((addr | WRITE_FLAG, val))
    }
}

/// Checks the response to a single read and returns the register value.
pub fn read_response(rx: Frame) -> (r: Result<u8, Pmw3901Error>)
    ensures
        r == read_outcome(rx),
{
    if rx.0 == HANDSHAKE {
        Ok(rx.1)
    } else {
        Err(Pmw3901Error::UnexpectedHandshake)
    }
}

/// Checks the response to a single write of `val`; on success the written
/// value is echoed back.
pub fn write_response(rx: Frame, val: u8) -> (r: Result<u8, Pmw3901Error>)
    ensures
        write_acknowledged(rx) ==> r == Ok::<u8, Pmw3901Error>(val),
        !write_acknowledged(rx) ==> r == Err::<u8, Pmw3901Error>(Pmw3901Error::UnexpectedHandshake),
{
    if rx.0 == HANDSHAKE && rx.1 == HANDSHAKE {
        Ok(val)
    } else {
        Err(Pmw3901Error::UnexpectedHandshake)
    }
}

/// Request frames that read each of `addrs`, in order.
pub open spec fn read_frames_of(addrs: Seq<u8>) -> Seq<Frame> {
    addrs.map_values(|a: u8| read_frame_of(a))
}

/// Request frames that write each `(addr, val)` pair, in order.
pub open spec fn write_frames_of(pairs: Seq<(u8, u8)>) -> Seq<Frame> {
    pairs.map_values(|p: (u8, u8)| write_frame_of(p.0, p.1))
}

/// Whether every address of a batch of writes can be used.
pub open spec fn all_writable(pairs: Seq<(u8, u8)>) -> bool {
    forall|i: int| 0 <= i < pairs.len() ==> writable(#[trigger] pairs[i].0)
}

/// Whether every response of a batch of reads carries the handshake.
pub open spec fn reads_acknowledged(rx: Seq<Frame>) -> bool {
    forall|i: int| 0 <= i < rx.len() ==> (#[trigger] rx[i]).0 == HANDSHAKE
}

/// Whether every response of a batch of writes carries the handshake twice.
pub open spec fn writes_acknowledged(rx: Seq<Frame>) -> bool {
    forall|i: int| 0 <= i < rx.len() ==> write_acknowledged(#[trigger] rx[i])
}

/// Register values carried by a batch of read responses, in order.
pub open spec fn read_values(rx: Seq<Frame>) -> Seq<u8> {
    rx.map_values(|f: Frame| f.1)
}

/// Outcome of a batch of reads given its responses: every value in order, or
/// an error if any frame lacks the handshake.
pub open spec fn batch_read_outcome(rx: Seq<Frame>) -> Result<Seq<u8>, Pmw3901Error> {
    if reads_acknowledged(rx) {
        Ok(read_values(rx))
    } else {
        Err(Pmw3901Error::UnexpectedHandshake)
    }
}

/// Builds one read request frame per address, in the order given.
pub fn read_frames(addrs: &[u8]) -> (v: Vec<Frame>)
    ensures
        v@ == read_frames_of(addrs@),
{
    let mut v: Vec<Frame> = Vec::new();
    let mut i: usize = 0;
    while i < addrs.len()
        invariant
            i <= addrs@.len(),
            v@ == read_frames_of(addrs@.subrange(0, i as int)),
        decreases addrs@.len() - i,
    {
        v.push(read_frame(addrs[i]));
        assert(addrs@.subrange(0, i + 1) =~= addrs@.subrange(0, i as int).push(addrs@[i as int]));
        i = i + 1;
    }
    assert(addrs@.subrange(0, i as int) =~= addrs@);
    v
}

/// Builds one write request frame per `(addr, val)` pair, in the order given.
///
/// The whole batch is refused if any address already has the write bit set.
pub fn write_frames(pairs: &[(u8, u8)]) -> (r: Result<Vec<Frame>, Pmw3901Error>)
    ensures
        all_writable(pairs@) ==> r is Ok && r->Ok_0@ == write_frames_of(pairs@),
        !all_writable(pairs@) ==> r == Err::<Vec<Frame>, Pmw3901Error>(Pmw3901Error::WriteBitSet),
{
    let mut v: Vec<Frame> = Vec::new();
    let mut i: usize = 0;
    while i < pairs.len()
        invariant
            i <= pairs@.len(),
            all_writable(pairs@.subrange(0, i as int)),
            v@ == write_frames_of(pairs@.subrange(0, i as int)),
        decreases pairs@.len() - i,
    {
        let (addr, val) = pairs[i];
        match write_frame(addr, val) {
            Ok(f) => v.push(f),
            Err(e) => {
                assert(!writable(pairs@[i as int].0));
                return Err(e);
            },
        }
        assert(pairs@.subrange(0, i + 1) =~= pairs@.subrange(0, i as int).push(pairs@[i as int]));
        i = i + 1;
    }
    assert(pairs@.subrange(0, i as int) =~= pairs@);
    Ok(v)
}

/// Checks the responses of a batch of reads and returns the values in order.
///
/// One frame without the handshake fails the whole batch.
pub fn read_responses(rx: &[Frame]) -> (r: Result<Vec<u8>, Pmw3901Error>)
    ensures
        r is Ok <==> reads_acknowledged(rx@),
        r is Ok ==> r->Ok_0@ == read_values(rx@),
        r is Err ==> r == Err::<Vec<u8>, Pmw3901Error>(Pmw3901Error::UnexpectedHandshake),
{
    let mut v: Vec<u8> = Vec::new();
    let mut i: usize = 0;
    while i < rx.len()
        invariant
            i <= rx@.len(),
            reads_acknowledged(rx@.subrange(0, i as int)),
            v@ == read_values(rx@.subrange(0, i as int)),
        decreases rx@.len() - i,
    {
        match read_response(rx[i]) {
            Ok(b) => v.push(b),
            Err(e) => {
                assert(rx@[i as int].0 != HANDSHAKE);
                return Err(e);
            },
        }
        assert(rx@.subrange(0, i + 1) =~= rx@.subrange(0, i as int).push(rx@[i as int]));
        i = i + 1;
    }
    assert(rx@.subrange(0, i as int) =~= rx@);
    Ok(v)
}

/// Checks the responses of a batch of writes.
///
/// One frame without the handshake in both bytes fails the whole batch.
pub fn write_responses(rx: &[Frame]) -> (r: Result<(), Pmw3901Error>)
    ensures
        writes_acknowledged(rx@) ==> r is Ok,
        !writes_acknowledged(rx@) ==> r == Err::<(), Pmw3901Error>(Pmw3901Error::UnexpectedHandshake),
{
    let mut i: usize = 0;
    while i < rx.len()
        invariant
            i <= rx@.len(),
            writes_acknowledged(rx@.subrange(0, i as int)),
        decreases rx@.len() - i,
    {
        if let Err(e) = write_response(rx[i], HANDSHAKE) {
            assert(!write_acknowledged(rx@[i as int]));
            return Err(e);
        }
        assert(rx@.subrange(0, i + 1) =~= rx@.subrange(0, i as int).push(rx@[i as int]));
        i = i + 1;
    }
    assert(rx@.subrange(0, i as int) =~= rx@);
    Ok(())
}

/// Responses of a device whose register `a` holds `bank(a)` and which
/// acknowledges every frame: the handshake, then the addressed register.
pub open spec fn bank_answers(bank: spec_fn(u8) -> u8, frames: Seq<Frame>) -> Seq<Frame> {
    frames.map_values(|f: Frame| (HANDSHAKE, bank(f.0)))
}

/// A batched read of `addrs` from a device that acknowledges every frame
/// yields one value per address, in the order of the addresses.
pub proof fn lemma_batch_read_in_order(bank: spec_fn(u8) -> u8, addrs: Seq<u8>)
    ensures
        batch_read_outcome(bank_answers(bank, read_frames_of(addrs))) == Ok::<
            Seq<u8>,
            Pmw3901Error,
        >(addrs.map_values(|a: u8| bank(a))),
{
    let rx = bank_answers(bank, read_frames_of(addrs));
    assert(reads_acknowledged(rx));
    assert(read_values(rx) =~= addrs.map_values(|a: u8| bank(a)));
}

/// A batched read fails as a whole, returning no value, as soon as any one of
/// its response frames lacks the handshake.
pub proof fn lemma_batch_read_fails_on_any_bad_frame(rx: Seq<Frame>, k: int)
    requires
        0 <= k < rx.len(),
        rx[k].0 != HANDSHAKE,
    ensures
        batch_read_outcome(rx) == Err::<Seq<u8>, Pmw3901Error>(Pmw3901Error::UnexpectedHandshake),
{
}

} // verus!
