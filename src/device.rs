//! Device bring-up: identity checks and the two-stage configuration load.
//!
//! The sequence is a state machine. Each stage asks for one action: an
//! exchange of frames over the bus, a settling pause, or the end of the
//! sequence. The caller performs the action and reports back, and the machine
//! decides the next stage from what came back.
use vstd::prelude::*;
use crate::protocol::{
    all_writable, read_frame, read_frame_of, read_response, read_outcome,
    write_frame_of, write_frames, write_frames_of, write_responses,
    write_acknowledged, writes_acknowledged, Frame, Pmw3901Error, HANDSHAKE,
};

verus! {

/// Register written to trigger a power-on reset.
pub const POWER_UP_RESET: u8 = 0x3A;

/// Value written to the power-on reset register.
pub const RESET_VALUE: u8 = 0x5A;

/// Register holding the product ID.
pub const PRODUCT_ID_REG: u8 = 0x00;

/// Expected product ID.
pub const PRODUCT_ID: u8 = 0x49;

/// Register holding the bitwise inverse of the product ID.
pub const INVERSE_PRODUCT_ID_REG: u8 = 0x5F;

/// Expected inverse product ID.
pub const INVERSE_PRODUCT_ID: u8 = 0xB6;

/// Milliseconds to wait between the two configuration batches.
pub const SETTLE_MS: u64 = 100;

/// First configuration batch, as (register, value) pairs in write order.
pub open spec fn config_first() -> Seq<(u8, u8)> {
    seq![
        (0x7Fu8, 0x00u8), (0x61u8, 0xADu8), (0x7Fu8, 0x03u8), (0x40u8, 0x00u8),
        (0x7Fu8, 0x05u8), (0x41u8, 0xB3u8), (0x43u8, 0xF1u8), (0x45u8, 0x14u8),
        (0x5Bu8, 0x32u8), (0x5Fu8, 0x34u8), (0x7Bu8, 0x08u8), (0x7Fu8, 0x06u8),
        (0x44u8, 0x1Bu8), (0x40u8, 0xBFu8), (0x4Eu8, 0x3Fu8), (0x7Fu8, 0x08u8),
        (0x65u8, 0x20u8), (0x6Au8, 0x18u8), (0x7Fu8, 0x09u8), (0x4Fu8, 0xAFu8),
        (0x5Fu8, 0x40u8), (0x48u8, 0x80u8), (0x49u8, 0x80u8), (0x57u8, 0x77u8),
        (0x60u8, 0x78u8), (0x61u8, 0x78u8), (0x62u8, 0x08u8), (0x63u8, 0x50u8),
        (0x7Fu8, 0x0Au8), (0x45u8, 0x60u8), (0x7Fu8, 0x00u8), (0x4Du8, 0x11u8),
        (0x55u8, 0x80u8), (0x74u8, 0x1Fu8), (0x75u8, 0x1Fu8), (0x4Au8, 0x78u8),
        (0x4Bu8, 0x78u8), (0x44u8, 0x08u8), (0x45u8, 0x50u8), (0x64u8, 0xFFu8),
        (0x65u8, 0x1Fu8), (0x7Fu8, 0x14u8), (0x65u8, 0x60u8), (0x66u8, 0x08u8),
        (0x63u8, 0x78u8), (0x7Fu8, 0x15u8), (0x48u8, 0x58u8), (0x7Fu8, 0x07u8),
        (0x41u8, 0x0Du8), (0x43u8, 0x14u8), (0x4Bu8, 0x0Eu8), (0x45u8, 0x0Fu8),
        (0x44u8, 0x42u8), (0x4Cu8, 0x80u8), (0x7Fu8, 0x10u8), (0x5Bu8, 0x02u8),
        (0x7Fu8, 0x07u8), (0x40u8, 0x41u8), (0x70u8, 0x00u8),
    ]
}

/// Second configuration batch, written after the settling pause.
pub open spec fn config_second() -> Seq<(u8, u8)> {
    seq![
        (0x32u8, 0x44u8), (0x7Fu8, 0x07u8), (0x40u8, 0x40u8), (0x7Fu8, 0x06u8),
        (0x62u8, 0xF0u8), (0x63u8, 0x00u8), (0x7Fu8, 0x0Du8), (0x48u8, 0xC0u8),
        (0x6Fu8, 0xD5u8), (0x7Fu8, 0x00u8), (0x5Bu8, 0xA0u8), (0x4Eu8, 0xA8u8),
        (0x5Au8, 0x50u8), (0x40u8, 0x80u8),
    ]
}

/// Every register of both configuration batches can be written.
pub proof fn lemma_config_writable()
    ensures
        all_writable(config_first()),
        all_writable(config_second()),
{
    let a = config_first();
    let b = config_second();
    assert forall|i: int| 0 <= i < a.len() implies a[i].0 < 0x80 by {
        assert(0 <= i < 59);
    }
    assert forall|i: int| 0 <= i < b.len() implies b[i].0 < 0x80 by {
        assert(0 <= i < 14);
    }
}

/// The first configuration batch as an array.
fn config_first_table() -> (t: [(u8, u8); 59])
    ensures
        t@ == config_first(),
{
    let t: [(u8, u8); 59] = [
        (0x7F, 0x00), (0x61, 0xAD), (0x7F, 0x03), (0x40, 0x00),
        (0x7F, 0x05), (0x41, 0xB3), (0x43, 0xF1), (0x45, 0x14),
        (0x5B, 0x32), (0x5F, 0x34), (0x7B, 0x08), (0x7F, 0x06),
        (0x44, 0x1B), (0x40, 0xBF), (0x4E, 0x3F), (0x7F, 0x08),
        (0x65, 0x20), (0x6A, 0x18), (0x7F, 0x09), (0x4F, 0xAF),
        (0x5F, 0x40), (0x48, 0x80), (0x49, 0x80), (0x57, 0x77),
        (0x60, 0x78), (0x61, 0x78), (0x62, 0x08), (0x63, 0x50),
        (0x7F, 0x0A), (0x45, 0x60), (0x7F, 0x00), (0x4D, 0x11),
        (0x55, 0x80), (0x74, 0x1F), (0x75, 0x1F), (0x4A, 0x78),
        (0x4B, 0x78), (0x44, 0x08), (0x45, 0x50), (0x64, 0xFF),
        (0x65, 0x1F), (0x7F, 0x14), (0x65, 0x60), (0x66, 0x08),
        (0x63, 0x78), (0x7F, 0x15), (0x48, 0x58), (0x7F, 0x07),
        (0x41, 0x0D), (0x43, 0x14), (0x4B, 0x0E), (0x45, 0x0F),
        (0x44, 0x42), (0x4C, 0x80), (0x7F, 0x10), (0x5B, 0x02),
        (0x7F, 0x07), (0x40, 0x41), (0x70, 0x00),
    ];
    assert(t@ =~= config_first());
    t
}

/// The second configuration batch as an array.
fn config_second_table() -> (t: [(u8, u8); 14])
    ensures
        t@ == config_second(),
{
    let t: [(u8, u8); 14] = [
        (0x32, 0x44), (0x7F, 0x07), (0x40, 0x40), (0x7F, 0x06),
        (0x62, 0xF0), (0x63, 0x00), (0x7F, 0x0D), (0x48, 0xC0),
        (0x6F, 0xD5), (0x7F, 0x00), (0x5B, 0xA0), (0x4E, 0xA8),
        (0x5A, 0x50), (0x40, 0x80),
    ];
    assert(t@ =~= config_second());
    t
}

/// Stage of the bring-up sequence.
#[derive(Debug, Clone, Copy, PartialEq, Eq, Structural)]
pub enum BringupStage {
    /// The power-on reset write is due.
    Reset,
    /// The product ID read is due.
    ProductId,
    /// The inverse product ID read is due.
    InverseProductId,
    /// The first configuration batch is due.
    ConfigFirst,
    /// The settling pause between the batches is due.
    Settle,
    /// The second configuration batch is due.
    ConfigSecond,
    /// The device is configured; nothing is left to do.
    Configured,
    /// The sequence stopped on this error; the device must not be used.
    Failed(Pmw3901Error),
}

/// What the caller must do next to move the bring-up forward.
#[derive(Debug, Clone, Copy, PartialEq, Eq, Structural)]
pub enum Action {
    /// Exchange the frames of `Bringup::request` in one batch and report the
    /// responses with `Bringup::on_exchanged`.
    Exchange,
    /// Block for this many milliseconds, then call `Bringup::on_paused`.
    Pause(u64),
    /// The device is configured.
    Done,
    /// Bring-up failed with this error.
    Abort(Pmw3901Error),
}

/// The action that stage `s` asks for.
pub open spec fn action_of(s: BringupStage) -> Action {
    match s {
        BringupStage::Settle => Action::Pause(SETTLE_MS),
        BringupStage::Configured => Action::Done,
        BringupStage::Failed(e) => Action::Abort(e),
        _ => Action::Exchange,
    }
}

/// Frames that stage `s` sends; empty for stages that exchange nothing.
pub open spec fn request_of(s: BringupStage) -> Seq<Frame> {
    match s {
        BringupStage::Reset => seq![write_frame_of(POWER_UP_RESET, RESET_VALUE)],
        BringupStage::ProductId => seq![read_frame_of(PRODUCT_ID_REG)],
        BringupStage::InverseProductId => seq![read_frame_of(INVERSE_PRODUCT_ID_REG)],
        BringupStage::ConfigFirst => write_frames_of(config_first()),
        BringupStage::ConfigSecond => write_frames_of(config_second()),
        _ => Seq::empty(),
    }
}

/// Stage after a write exchange whose responses are `rx`.
pub open spec fn after_writes(rx: Seq<Frame>, next: BringupStage) -> BringupStage {
    if writes_acknowledged(rx) {
        next
    } else {
        BringupStage::Failed(Pmw3901Error::UnexpectedHandshake)
    }
}

/// Stage after an identity read whose responses are `rx`.
pub open spec fn after_identity(rx: Seq<Frame>, expected: u8, next: BringupStage) -> BringupStage {
    match read_outcome(rx[0]) {
        Ok(v) => if v == expected {
            next
        } else {
            BringupStage::Failed(Pmw3901Error::IdentityMismatch)
        },
        Err(e) => BringupStage::Failed(e),
    }
}

/// Stage that follows stage `s` once its frames were exchanged with responses `rx`.
pub open spec fn after_exchange(s: BringupStage, rx: Seq<Frame>) -> BringupStage {
    match s {
        BringupStage::Reset => after_writes(rx, BringupStage::ProductId),
        BringupStage::ProductId => after_identity(rx, PRODUCT_ID, BringupStage::InverseProductId),
        BringupStage::InverseProductId => after_identity(
            rx,
            INVERSE_PRODUCT_ID,
            BringupStage::ConfigFirst,
        ),
        BringupStage::ConfigFirst => after_writes(rx, BringupStage::Settle),
        BringupStage::ConfigSecond => after_writes(rx, BringupStage::Configured),
        _ => s,
    }
}

/// Stage that follows stage `s` once the settling pause has elapsed.
pub open spec fn after_pause(s: BringupStage) -> BringupStage {
    match s {
        BringupStage::Settle => BringupStage::ConfigSecond,
        _ => s,
    }
}

/// The bring-up sequence of one device: power-on reset, identity checks, the
/// first configuration batch, a settling pause, the second batch.
pub struct Bringup {
    stage: BringupStage,
}

impl Bringup {
    /// Current stage of the sequence.
    pub closed spec fn stage(&self) -> BringupStage {
        self.stage
    }

    /// A sequence that has not touched the device yet.
    pub fn new() -> (b: Bringup)
        ensures
            b.stage() == BringupStage::Reset,
    {
        Bringup { stage: BringupStage::Reset }
    }

    /// Current stage of the sequence.
    pub fn current_stage(&self) -> (s: BringupStage)
        ensures
            s == self.stage(),
    {
        self.stage
    }

    /// What the caller must do next.
    pub fn action(&self) -> (a: Action)
        ensures
            a == action_of(self.stage()),
    {
        match self.stage {
            BringupStage::Settle => Action::Pause(SETTLE_MS),
            BringupStage::Configured => Action::Done,
            BringupStage::Failed(e) => Action::Abort(e),
            _ => Action::Exchange,
        }
    }

    /// Frames to exchange in the current stage, in order.
    pub fn request(&self) -> (v: Vec<Frame>)
        ensures
            v@ == request_of(self.stage()),
    {
        proof {
            lemma_config_writable();
        }
        match self.stage {
            BringupStage::Reset => {
                let reset: [(u8, u8); 1] = [(POWER_UP_RESET, RESET_VALUE)];
                assert(reset@ =~= seq![(POWER_UP_RESET, RESET_VALUE)]);
                let v = batch_frames(reset.as_slice());
                assert(v@ =~= request_of(self.stage()));
                v
            },
            BringupStage::ProductId => {
                let mut v: Vec<Frame> = Vec::new();
                v.push(read_frame(PRODUCT_ID_REG));
                assert(v@ =~= request_of(self.stage()));
                v
            },
            BringupStage::InverseProductId => {
                let mut v: Vec<Frame> = Vec::new();
                v.push(read_frame(INVERSE_PRODUCT_ID_REG));
                assert(v@ =~= request_of(self.stage()));
                v
            },
            BringupStage::ConfigFirst => {
                let t = config_first_table();
                batch_frames(t.as_slice())
            },
            BringupStage::ConfigSecond => {
                let t = config_second_table();
                batch_frames(t.as_slice())
            },
            _ => Vec::new(),
        }
    }

    /// Records the responses to the frames of `request` and moves to the next
    /// stage.
    pub fn on_exchanged(&mut self, rx: &[Frame])
        requires
            action_of(old(self).stage()) == Action::Exchange,
            rx@.len() == request_of(old(self).stage()).len(),
        ensures
            final(self).stage() == after_exchange(old(self).stage(), rx@),
    {
        let next = match self.stage {
            BringupStage::Reset => match write_responses(rx) {
                Ok(()) => BringupStage::ProductId,
                Err(e) => BringupStage::Failed(e),
            },
            BringupStage::ProductId => check_identity(rx[0], PRODUCT_ID, BringupStage::InverseProductId),
            BringupStage::InverseProductId => check_identity(
                rx[0],
                INVERSE_PRODUCT_ID,
                BringupStage::ConfigFirst,
            ),
            BringupStage::ConfigFirst => match write_responses(rx) {
                Ok(()) => BringupStage::Settle,
                Err(e) => BringupStage::Failed(e),
            },
            BringupStage::ConfigSecond => match write_responses(rx) {
                Ok(()) => BringupStage::Configured,
                Err(e) => BringupStage::Failed(e),
            },
            _ => self.stage,
        };
        self.stage = next;
    }

    /// Records that the settling pause has elapsed.
    pub fn on_paused(&mut self)
        ensures
            final(self).stage() == after_pause(old(self).stage()),
    {
        if let BringupStage::Settle = self.stage {
            self.stage = BringupStage::ConfigSecond;
        }
    }
}

/// Write frames for a batch whose addresses are all known to be writable.
fn batch_frames(pairs: &[(u8, u8)]) -> (v: Vec<Frame>)
    requires
        all_writable(pairs@),
    ensures
        v@ == write_frames_of(pairs@),
{
    match write_frames(pairs) {
        Ok(v) => v,
        Err(_) => {
            assert(false);
            Vec::new()
        },
    }
}

/// Checks an identity read against the expected value.
fn check_identity(rx: Frame, expected: u8, next: BringupStage) -> (s: BringupStage)
    ensures
        s == after_identity(seq![rx], expected, next),
{
    match read_response(rx) {
        Ok(v) => if v == expected {
            next
        } else {
            BringupStage::Failed(Pmw3901Error::IdentityMismatch)
        },
        Err(e) => BringupStage::Failed(e),
    }
}

/// Responses of a device that answers each request frame `f` with `dev(f)`.
pub open spec fn exchange_with(dev: spec_fn(Frame) -> Frame, frames: Seq<Frame>) -> Seq<Frame> {
    frames.map_values(|f: Frame| dev(f))
}

/// The steps that the sequence takes from stage `s` against device `dev`:
/// each action with the frames it sends, up to the end of the sequence or
/// `fuel` steps.
pub open spec fn run(s: BringupStage, dev: spec_fn(Frame) -> Frame, fuel: nat) -> Seq<
    (Action, Seq<Frame>),
>
    decreases fuel,
{
    if fuel == 0 {
        Seq::empty()
    } else {
        match action_of(s) {
            Action::Exchange => seq![(Action::Exchange, request_of(s))] + run(
                after_exchange(s, exchange_with(dev, request_of(s))),
                dev,
                (fuel - 1) as nat,
            ),
            Action::Pause(ms) => seq![(Action::Pause(ms), Seq::empty())] + run(
                after_pause(s),
                dev,
                (fuel - 1) as nat,
            ),
            a => seq![(a, Seq::<Frame>::empty())],
        }
    }
}

/// Whether `dev` acknowledges every write frame with the handshake twice.
pub open spec fn acknowledges_writes(dev: spec_fn(Frame) -> Frame) -> bool {
    forall|f: Frame| f.0 >= 0x80 ==> write_acknowledged(#[trigger] dev(f))
}

proof fn lemma_batch_acknowledged(dev: spec_fn(Frame) -> Frame, pairs: Seq<(u8, u8)>)
    requires
        acknowledges_writes(dev),
        all_writable(pairs),
    ensures
        writes_acknowledged(exchange_with(dev, write_frames_of(pairs))),
{
    let rx = exchange_with(dev, write_frames_of(pairs));
    assert forall|i: int| 0 <= i < rx.len() implies write_acknowledged(#[trigger] rx[i]) by {
        assert(pairs[i].0 < 0x80);
        assert(write_frames_of(pairs)[i].0 >= 0x80);
    }
}

/// Against a device with the right product ID and inverse that acknowledges
/// every write, bring-up resets the device, reads both identity registers,
/// writes the first configuration batch in table order, pauses, writes the
/// second batch in table order, and ends configured.
pub proof fn lemma_bringup_sequence(dev: spec_fn(Frame) -> Frame)
    requires
        acknowledges_writes(dev),
        dev(read_frame_of(PRODUCT_ID_REG)) == (HANDSHAKE, PRODUCT_ID),
        dev(read_frame_of(INVERSE_PRODUCT_ID_REG)) == (HANDSHAKE, INVERSE_PRODUCT_ID),
    ensures
        run(BringupStage::Reset, dev, 7) == seq![
            (Action::Exchange, seq![write_frame_of(POWER_UP_RESET, RESET_VALUE)]),
            (Action::Exchange, seq![read_frame_of(PRODUCT_ID_REG)]),
            (Action::Exchange, seq![read_frame_of(INVERSE_PRODUCT_ID_REG)]),
            (Action::Exchange, write_frames_of(config_first())),
            (Action::Pause(SETTLE_MS), Seq::<Frame>::empty()),
            (Action::Exchange, write_frames_of(config_second())),
            (Action::Done, Seq::<Frame>::empty()),
        ],
{
    lemma_config_writable();
    let reset = seq![write_frame_of(POWER_UP_RESET, RESET_VALUE)];
    assert(write_acknowledged(dev(reset[0])));
    assert(after_exchange(BringupStage::Reset, exchange_with(dev, reset))
        == BringupStage::ProductId);
    let id = seq![read_frame_of(PRODUCT_ID_REG)];
    assert(exchange_with(dev, id)[0] == dev(id[0]));
    assert(after_exchange(BringupStage::ProductId, exchange_with(dev, id))
        == BringupStage::InverseProductId);
    let inv = seq![read_frame_of(INVERSE_PRODUCT_ID_REG)];
    assert(exchange_with(dev, inv)[0] == dev(inv[0]));
    assert(after_exchange(BringupStage::InverseProductId, exchange_with(dev, inv))
        == BringupStage::ConfigFirst);
    lemma_batch_acknowledged(dev, config_first());
    lemma_batch_acknowledged(dev, config_second());
    reveal_with_fuel(run, 8);
    assert(run(BringupStage::Reset, dev, 7) =~= seq![
        (Action::Exchange, seq![write_frame_of(POWER_UP_RESET, RESET_VALUE)]),
        (Action::Exchange, seq![read_frame_of(PRODUCT_ID_REG)]),
        (Action::Exchange, seq![read_frame_of(INVERSE_PRODUCT_ID_REG)]),
        (Action::Exchange, write_frames_of(config_first())),
        (Action::Pause(SETTLE_MS), Seq::<Frame>::empty()),
        (Action::Exchange, write_frames_of(config_second())),
        (Action::Done, Seq::<Frame>::empty()),
    ]);
}

/// Against a device that acknowledges the reset but reports a product ID
/// other than the expected one, bring-up aborts with an identity mismatch
/// right after that read, and no configuration write is ever sent.
pub proof fn lemma_bringup_rejects_wrong_product(dev: spec_fn(Frame) -> Frame, fuel: nat)
    requires
        acknowledges_writes(dev),
        dev(read_frame_of(PRODUCT_ID_REG)).0 == HANDSHAKE,
        dev(read_frame_of(PRODUCT_ID_REG)).1 != PRODUCT_ID,
        fuel >= 3,
    ensures
        run(BringupStage::Reset, dev, fuel) == seq![
            (Action::Exchange, seq![write_frame_of(POWER_UP_RESET, RESET_VALUE)]),
            (Action::Exchange, seq![read_frame_of(PRODUCT_ID_REG)]),
            (Action::Abort(Pmw3901Error::IdentityMismatch), Seq::<Frame>::empty()),
        ],
{
    let reset = seq![write_frame_of(POWER_UP_RESET, RESET_VALUE)];
    assert(write_acknowledged(dev(reset[0])));
    assert(after_exchange(BringupStage::Reset, exchange_with(dev, reset))
        == BringupStage::ProductId);
    let id = seq![read_frame_of(PRODUCT_ID_REG)];
    assert(exchange_with(dev, id)[0] == dev(id[0]));
    let failed = BringupStage::Failed(Pmw3901Error::IdentityMismatch);
    assert(after_exchange(BringupStage::ProductId, exchange_with(dev, id)) == failed);
    let f2 = (fuel - 2) as nat;
    assert(run(failed, dev, f2) == seq![(Action::Abort(Pmw3901Error::IdentityMismatch), Seq::<Frame>::empty())]);
    let f1 = (fuel - 1) as nat;
    assert(run(BringupStage::ProductId, dev, f1) =~= seq![(Action::Exchange, id)] + run(failed, dev, f2));
    assert(run(BringupStage::Reset, dev, fuel) =~= seq![(Action::Exchange, reset)] + run(BringupStage::ProductId, dev, f1));
    assert(run(BringupStage::Reset, dev, fuel) =~= seq![
        (Action::Exchange, seq![write_frame_of(POWER_UP_RESET, RESET_VALUE)]),
        (Action::Exchange, seq![read_frame_of(PRODUCT_ID_REG)]),
        (Action::Abort(Pmw3901Error::IdentityMismatch), Seq::<Frame>::empty()),
    ]);
}

} // verus!
