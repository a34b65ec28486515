//! Driver for the nRF24L01 radio.
//!
//! The chip is driven over SPI, with a chip-select line (CSN, active low)
//! framing each SPI transaction and a chip-enable line (CE) that switches
//! the radio on. Each operation of the driver is the plan of bus actions
//! that performs it, in order; the board code carries the plan out on the
//! SPI peripheral and the two pins, and hands back what the chip answered
//! to the full-duplex transfers.

use vstd::prelude::*;

use crate::constants::{
    default_address, spec_default_address, CMD_FLUSH_RX, CMD_FLUSH_TX, CMD_NOP, CMD_R_RX_PAYLOAD,
    CMD_W_REGISTER, CMD_W_TX_PAYLOAD, CONFIG_PWR_DOWN, CONFIG_RX_MODE, CONFIG_TX_MODE, EN_AA_PIPE0,
    EN_RXADDR_PIPE0, REG_CONFIG, REG_EN_AA, REG_EN_RXADDR, REG_RF_CH, REG_RF_SETUP, REG_RX_ADDR_P0,
    REG_RX_PW_P0, REG_SETUP_AW, REG_SETUP_RETR, REG_STATUS, REG_TX_ADDR, RF_CH_2402MHZ,
    RF_SETUP_1MBPS_0DBM, RX_PW_P0_32BYTES, SETUP_AW_5BYTES, SETUP_RETR_500US_15, STATUS_CLEAR_IRQ,
};

verus! {

/// Busy-wait cycles for the radio to power up: about 100 ms at 125 MHz.
pub const POWER_UP_DELAY_CYCLES: u32 = 12_500_000;

/// Busy-wait cycles for the receiver to settle: about 1.5 ms at 125 MHz.
pub const RX_SETTLE_DELAY_CYCLES: u32 = 187_500;

/// Busy-wait cycles of the CE pulse that starts a transmission: about 10 us at 125 MHz.
pub const CE_PULSE_DELAY_CYCLES: u32 = 1_250;

/// Bytes in one radio payload.
pub const PAYLOAD_LEN: usize = 32;

/// The radio's mode as the driver last set it.
#[derive(Debug, Clone, Copy, PartialEq, Eq, Structural)]
pub enum State {
    Receiver,
    Transmitter,
    Standby,
}

/// One action on the radio's bus.
#[derive(Debug, Clone, PartialEq, Eq)]
pub enum BusOp {
    /// Drive CE low.
    CeLow,
    /// Drive CE high.
    CeHigh,
    /// Drive CSN low: select the chip.
    CsnLow,
    /// Drive CSN high: deselect the chip.
    CsnHigh,
    /// Send these bytes over SPI.
    Write(Vec<u8>),
    /// Send these bytes over SPI and read as many back.
    Transfer(Vec<u8>),
    /// Busy-wait this many CPU cycles.
    Delay(u32),
}

/// A bus action as a plain value.
#[verifier::ext_equal]
pub enum BusStep {
    CeLow,
    CeHigh,
    CsnLow,
    CsnHigh,
    Write(Seq<u8>),
    Transfer(Seq<u8>),
    Delay(u32),
}

impl DeepView for BusOp {
    type V = BusStep;

    open spec fn deep_view(&self) -> BusStep {
        match self {
            BusOp::CeLow => BusStep::CeLow,
            BusOp::CeHigh => BusStep::CeHigh,
            BusOp::CsnLow => BusStep::CsnLow,
            BusOp::CsnHigh => BusStep::CsnHigh,
            BusOp::Write(bytes) => BusStep::Write(bytes@),
            BusOp::Transfer(bytes) => BusStep::Transfer(bytes@),
            BusOp::Delay(cycles) => BusStep::Delay(*cycles),
        }
    }
}

/// Every SPI write and transfer happens while the chip is selected, and the
/// chip is deselected at the end; `selected` is the chip select at the start.
pub open spec fn framed_from(steps: Seq<BusStep>, selected: bool) -> bool
    decreases steps.len(),
{
    if steps.len() == 0 {
        !selected
    } else {
        let rest = steps.drop_first();
        match steps[0] {
            BusStep::CsnLow => framed_from(rest, true),
            BusStep::CsnHigh => framed_from(rest, false),
            BusStep::Write(_) => selected && framed_from(rest, selected),
            BusStep::Transfer(_) => selected && framed_from(rest, selected),
            _ => framed_from(rest, selected),
        }
    }
}

/// A plan, started with the chip deselected, that keeps all SPI traffic
/// inside chip-select frames and ends with the chip deselected.
pub open spec fn chip_select_framed(steps: Seq<BusStep>) -> bool {
    framed_from(steps, false)
}

/// Writes one register: W_REGISTER with the address, then the value.
pub open spec fn register_write_steps(reg: u8, value: u8) -> Seq<BusStep> {
    seq![BusStep::CsnLow, BusStep::Write(seq![CMD_W_REGISTER | reg, value]), BusStep::CsnHigh]
}

/// Writes a multi-byte register: W_REGISTER with the address, then the bytes.
pub open spec fn register_multi_write_steps(reg: u8, data: Seq<u8>) -> Seq<BusStep> {
    seq![
        BusStep::CsnLow,
        BusStep::Write(seq![CMD_W_REGISTER | reg]),
        BusStep::Write(data),
        BusStep::CsnHigh,
    ]
}

/// Sends a one-byte command; the byte read back is the STATUS register.
pub open spec fn command_steps(cmd: u8) -> Seq<BusStep> {
    seq![BusStep::CsnLow, BusStep::Transfer(seq![cmd]), BusStep::CsnHigh]
}

/// The R_RX_PAYLOAD command followed by one padding byte per payload byte.
pub open spec fn read_payload_request() -> Seq<u8> {
    seq![CMD_R_RX_PAYLOAD] + Seq::new(PAYLOAD_LEN as nat, |i: int| 0u8)
}

/// Reads the received payload in one transfer.
pub open spec fn read_payload_steps() -> Seq<BusStep> {
    seq![BusStep::CsnLow, BusStep::Transfer(read_payload_request()), BusStep::CsnHigh]
}

/// Switches the radio to receive mode: CE low, CONFIG to RX mode, CE high.
pub open spec fn receiver_mode_steps() -> Seq<BusStep> {
    seq![BusStep::CeLow] + register_write_steps(REG_CONFIG, CONFIG_RX_MODE) + seq![BusStep::CeHigh]
}

/// Sends a payload: CE low, CONFIG to TX mode, W_TX_PAYLOAD with the
/// payload, then a CE pulse that starts the transmission.
pub open spec fn transmit_steps(payload: Seq<u8>) -> Seq<BusStep> {
    seq![BusStep::CeLow] + register_write_steps(REG_CONFIG, CONFIG_TX_MODE) + seq![
        BusStep::CsnLow,
        BusStep::Write(seq![CMD_W_TX_PAYLOAD]),
        BusStep::Write(payload),
        BusStep::CsnHigh,
        BusStep::CeHigh,
        BusStep::Delay(CE_PULSE_DELAY_CYCLES),
        BusStep::CeLow,
    ]
}

/// The configuration written at start-up, in order: power down, auto-ack
/// and receive address on pipe 0, 5-byte addresses, retransmission, channel,
/// data rate and power, cleared interrupt flags.
pub open spec fn setup_register_steps() -> Seq<BusStep> {
    register_write_steps(REG_CONFIG, CONFIG_PWR_DOWN)
        + register_write_steps(REG_EN_AA, EN_AA_PIPE0)
        + register_write_steps(REG_EN_RXADDR, EN_RXADDR_PIPE0)
        + register_write_steps(REG_SETUP_AW, SETUP_AW_5BYTES)
        + register_write_steps(REG_SETUP_RETR, SETUP_RETR_500US_15)
        + register_write_steps(REG_RF_CH, RF_CH_2402MHZ)
        + register_write_steps(REG_RF_SETUP, RF_SETUP_1MBPS_0DBM)
        + register_write_steps(REG_STATUS, STATUS_CLEAR_IRQ)
}

/// Start-up: CE low and CSN high, wait for power-up, configure, set the
/// receive and transmit addresses and the payload width, flush both FIFOs,
/// power up in receive mode, wait, and enable the receiver.
pub open spec fn init_steps() -> Seq<BusStep> {
    seq![BusStep::CeLow, BusStep::CsnHigh, BusStep::Delay(POWER_UP_DELAY_CYCLES)]
        + setup_register_steps()
        + register_multi_write_steps(REG_RX_ADDR_P0, spec_default_address())
        + register_multi_write_steps(REG_TX_ADDR, spec_default_address())
        + register_write_steps(REG_RX_PW_P0, RX_PW_P0_32BYTES)
        + command_steps(CMD_FLUSH_TX)
        + command_steps(CMD_FLUSH_RX)
        + register_write_steps(REG_CONFIG, CONFIG_RX_MODE)
        + seq![BusStep::Delay(RX_SETTLE_DELAY_CYCLES), BusStep::CeHigh]
}

/// A call on the driver, by the operation it performs.
pub enum RadioCall {
    Init,
    SetReceiverMode,
    Transmit,
    ReadPayload,
    ReadStatus,
    ClearInterrupts,
    SendCommand,
}

/// Whether a call sets the radio's mode.
pub open spec fn sets_mode(call: RadioCall) -> bool {
    match call {
        RadioCall::Init | RadioCall::SetReceiverMode | RadioCall::Transmit => true,
        _ => false,
    }
}

/// The mode that a mode-setting call leaves the radio in.
pub open spec fn mode_set_by(call: RadioCall) -> State {
    match call {
        RadioCall::Transmit => State::Transmitter,
        _ => State::Receiver,
    }
}

/// The mode after one call.
pub open spec fn after_call(state: State, call: RadioCall) -> State {
    if sets_mode(call) {
        mode_set_by(call)
    } else {
        state
    }
}

/// The mode after a sequence of calls on a new driver.
pub open spec fn mode_after(calls: Seq<RadioCall>) -> State
    decreases calls.len(),
{
    if calls.len() == 0 {
        State::Standby
    } else {
        after_call(mode_after(calls.drop_last()), calls.last())
    }
}

/// After any sequence of calls on a new driver, the mode is Standby if
/// none of `init`, `set_receiver_mode` and `transmit` was called, and
/// otherwise the mode that the last of them set: Receiver for `init` and
/// `set_receiver_mode`, Transmitter for `transmit`. The other operations
/// never change it (each operation's contract gives its call's effect as
/// `after_call`).
pub proof fn law_radio_mode(calls: Seq<RadioCall>)
    ensures
        (forall|i: int| 0 <= i < calls.len() ==> !sets_mode(#[trigger] calls[i])) ==> mode_after(calls)
            == State::Standby,
        forall|i: int|
            0 <= i < calls.len() && sets_mode(#[trigger] calls[i]) && (forall|j: int|
                i < j < calls.len() ==> !sets_mode(#[trigger] calls[j])) ==> mode_after(calls)
                == mode_set_by(calls[i]),
    decreases calls.len(),
{
    if calls.len() > 0 {
        let rest = calls.drop_last();
        law_radio_mode(rest);
        assert forall|i: int| 0 <= i < rest.len() implies rest[i] == calls[i] by {}
        let n = calls.len() - 1;
        if !sets_mode(calls[n]) {
            assert forall|i: int|
                0 <= i < calls.len() && sets_mode(#[trigger] calls[i]) && (forall|j: int|
                    i < j < calls.len() ==> !sets_mode(#[trigger] calls[j])) implies mode_after(calls)
                == mode_set_by(calls[i]) by {
                assert(i < n);
                assert(rest[i] == calls[i]);
                assert forall|j: int| i < j < rest.len() implies !sets_mode(#[trigger] rest[j]) by {
                    assert(rest[j] == calls[j]);
                }
            }
            assert((forall|i: int| 0 <= i < calls.len() ==> !sets_mode(#[trigger] calls[i])) ==> (
            forall|i: int| 0 <= i < rest.len() ==> !sets_mode(#[trigger] rest[i])));
        } else {
            assert forall|i: int|
                0 <= i < calls.len() && sets_mode(#[trigger] calls[i]) && (forall|j: int|
                    i < j < calls.len() ==> !sets_mode(#[trigger] calls[j])) implies mode_after(calls)
                == mode_set_by(calls[i]) by {
                if i < n {
                    assert(!sets_mode(calls[n]));
                }
            }
        }
    }
}

/// Two framed plans in a row are framed.
proof fn lemma_framed_concat(a: Seq<BusStep>, b: Seq<BusStep>, selected: bool)
    requires
        framed_from(a, selected),
        framed_from(b, false),
    ensures
        framed_from(a + b, selected),
    decreases a.len(),
{
    if a.len() == 0 {
        assert(a + b =~= b);
    } else {
        assert((a + b).drop_first() =~= a.drop_first() + b);
        assert((a + b)[0] == a[0]);
        match a[0] {
            BusStep::CsnLow => lemma_framed_concat(a.drop_first(), b, true),
            BusStep::CsnHigh => lemma_framed_concat(a.drop_first(), b, false),
            _ => lemma_framed_concat(a.drop_first(), b, selected),
        }
    }
}

/// The single transactions are framed.
proof fn lemma_pieces_framed()
    ensures
        forall|reg: u8, value: u8| chip_select_framed(#[trigger] register_write_steps(reg, value)),
        forall|reg: u8, data: Seq<u8>| chip_select_framed(#[trigger] register_multi_write_steps(reg, data)),
        forall|cmd: u8| chip_select_framed(#[trigger] command_steps(cmd)),
{
    reveal_with_fuel(framed_from, 5);
}

/// Plans one after the other.
pub open spec fn concat_all(pieces: Seq<Seq<BusStep>>) -> Seq<BusStep>
    decreases pieces.len(),
{
    if pieces.len() == 0 {
        Seq::empty()
    } else {
        concat_all(pieces.drop_last()) + pieces.last()
    }
}

/// Framed plans one after the other make a framed plan.
proof fn lemma_framed_pieces(pieces: Seq<Seq<BusStep>>)
    requires
        forall|i: int| 0 <= i < pieces.len() ==> chip_select_framed(#[trigger] pieces[i]),
    ensures
        chip_select_framed(concat_all(pieces)),
    decreases pieces.len(),
{
    if pieces.len() == 0 {
        reveal_with_fuel(framed_from, 1);
    } else {
        let rest = pieces.drop_last();
        assert forall|i: int| 0 <= i < rest.len() implies chip_select_framed(#[trigger] rest[i]) by {
            assert(rest[i] == pieces[i]);
        }
        lemma_framed_pieces(rest);
        assert(chip_select_framed(pieces[pieces.len() - 1]));
        lemma_framed_concat(concat_all(rest), pieces.last(), false);
    }
}

/// Appends one action to `ops`.
fn push_op(ops: &mut Vec<BusOp>, op: BusOp)
    ensures
        final(ops).deep_view() == old(ops).deep_view().push(op.deep_view()),
{
    let ghost step = op.deep_view();
    ops.push(op);
    assert(ops.deep_view() =~= old(ops).deep_view().push(step));
}

/// Appends `more` to `ops`.
fn append_ops(ops: &mut Vec<BusOp>, more: Vec<BusOp>)
    ensures
        final(ops).deep_view() == old(ops).deep_view() + more.deep_view(),
{
    let ghost more_steps = more.deep_view();
    let mut more = more;
    ops.append(&mut more);
    assert(ops.deep_view() =~~= old(ops).deep_view() + more_steps);
}

/// The nRF24L01 driver: the mode the radio was last put in.
pub struct NRF24L01 {
    state: State,
}

impl View for NRF24L01 {
    type V = State;

    closed spec fn view(&self) -> State {
        self.state
    }
}

impl NRF24L01 {
    /// A driver for a radio that has not been configured: standby.
    pub fn new() -> (radio: Self)
        ensures
            radio@ == State::Standby,
            radio@ == mode_after(Seq::empty()),
    {
        NRF24L01 { state: State::Standby }
    }

    /// Brings the radio up and leaves it listening: the radio is in receive mode after the plan.
    pub fn init(&mut self) -> (ops: Vec<BusOp>)
        ensures
            ops.deep_view() == init_steps(),
            chip_select_framed(ops.deep_view()),
            final(self)@ == State::Receiver,
            final(self)@ == after_call(old(self)@, RadioCall::Init),
    {
        let mut ops: Vec<BusOp> = Vec::new();
        push_op(&mut ops, BusOp::CeLow);
        push_op(&mut ops, BusOp::CsnHigh);
        push_op(&mut ops, BusOp::Delay(POWER_UP_DELAY_CYCLES));
        append_ops(&mut ops, Self::write_register(REG_CONFIG, CONFIG_PWR_DOWN));
        append_ops(&mut ops, Self::write_register(REG_EN_AA, EN_AA_PIPE0));
        append_ops(&mut ops, Self::write_register(REG_EN_RXADDR, EN_RXADDR_PIPE0));
        append_ops(&mut ops, Self::write_register(REG_SETUP_AW, SETUP_AW_5BYTES));
        append_ops(&mut ops, Self::write_register(REG_SETUP_RETR, SETUP_RETR_500US_15));
        append_ops(&mut ops, Self::write_register(REG_RF_CH, RF_CH_2402MHZ));
        append_ops(&mut ops, Self::write_register(REG_RF_SETUP, RF_SETUP_1MBPS_0DBM));
        append_ops(&mut ops, Self::write_register(REG_STATUS, STATUS_CLEAR_IRQ));
        let address = default_address();
        append_ops(&mut ops, Self::write_register_multi(REG_RX_ADDR_P0, &address));
        append_ops(&mut ops, Self::write_register_multi(REG_TX_ADDR, &address));
        append_ops(&mut ops, Self::write_register(REG_RX_PW_P0, RX_PW_P0_32BYTES));
        append_ops(&mut ops, self.send_command(CMD_FLUSH_TX));
        append_ops(&mut ops, self.send_command(CMD_FLUSH_RX));
        append_ops(&mut ops, Self::write_register(REG_CONFIG, CONFIG_RX_MODE));
        push_op(&mut ops, BusOp::Delay(RX_SETTLE_DELAY_CYCLES));
        push_op(&mut ops, BusOp::CeHigh);
        proof {
            assert(ops.deep_view() =~~= init_steps());
            lemma_pieces_framed();
            let head = seq![BusStep::CeLow, BusStep::CsnHigh, BusStep::Delay(POWER_UP_DELAY_CYCLES)];
            let tail = seq![BusStep::Delay(RX_SETTLE_DELAY_CYCLES), BusStep::CeHigh];
            assert(chip_select_framed(head) && chip_select_framed(tail)) by {
                reveal_with_fuel(framed_from, 4);
            }
            let pieces = seq![
                head,
                register_write_steps(REG_CONFIG, CONFIG_PWR_DOWN),
                register_write_steps(REG_EN_AA, EN_AA_PIPE0),
                register_write_steps(REG_EN_RXADDR, EN_RXADDR_PIPE0),
                register_write_steps(REG_SETUP_AW, SETUP_AW_5BYTES),
                register_write_steps(REG_SETUP_RETR, SETUP_RETR_500US_15),
                register_write_steps(REG_RF_CH, RF_CH_2402MHZ),
                register_write_steps(REG_RF_SETUP, RF_SETUP_1MBPS_0DBM),
                register_write_steps(REG_STATUS, STATUS_CLEAR_IRQ),
                register_multi_write_steps(REG_RX_ADDR_P0, spec_default_address()),
                register_multi_write_steps(REG_TX_ADDR, spec_default_address()),
                register_write_steps(REG_RX_PW_P0, RX_PW_P0_32BYTES),
                command_steps(CMD_FLUSH_TX),
                command_steps(CMD_FLUSH_RX),
                register_write_steps(REG_CONFIG, CONFIG_RX_MODE),
                tail,
            ];
            assert(init_steps() =~= concat_all(pieces)) by {
                reveal_with_fuel(concat_all, 17);
            }
            lemma_framed_pieces(pieces);
        }
        self.state = State::Receiver;
        ops
    }

    /// Writes a single-byte register.
    fn write_register(reg: u8, value: u8) -> (ops: Vec<BusOp>)
        ensures
            ops.deep_view() == register_write_steps(reg, value),
    {
        let mut ops: Vec<BusOp> = Vec::new();
        ops.push(BusOp::CsnLow);
        ops.push(BusOp::Write(vec![CMD_W_REGISTER | reg, value]));
        ops.push(BusOp::CsnHigh);
        assert(ops.deep_view() =~~= register_write_steps(reg, value));
        ops
    }

    /// Writes a multi-byte register.
    fn write_register_multi(reg: u8, data: &[u8]) -> (ops: Vec<BusOp>)
        ensures
            ops.deep_view() == register_multi_write_steps(reg, data@),
    {
        let mut ops: Vec<BusOp> = Vec::new();
        ops.push(BusOp::CsnLow);
        ops.push(BusOp::Write(vec![CMD_W_REGISTER | reg]));
        ops.push(BusOp::Write(vstd::slice::slice_to_vec(data)));
        ops.push(BusOp::CsnHigh);
        assert(ops.deep_view() =~~= register_multi_write_steps(reg, data@));
        ops
    }

    /// Reads the received payload: one transfer of R_RX_PAYLOAD and 32
    /// padding bytes; `payload_from_reply` takes the payload out of the answer.
    pub fn read_payload(&self) -> (ops: Vec<BusOp>)
        ensures
            ops.deep_view() == read_payload_steps(),
            chip_select_framed(ops.deep_view()),
    {
        let mut request: Vec<u8> = Vec::new();
        request.push(CMD_R_RX_PAYLOAD);
        let mut i: usize = 0;
        while i < PAYLOAD_LEN
            invariant
                i <= PAYLOAD_LEN,
                request@ == seq![CMD_R_RX_PAYLOAD] + Seq::new(i as nat, |k: int| 0u8),
            decreases PAYLOAD_LEN - i,
        {
            request.push(0);
            i = i + 1;
            assert(request@ =~= seq![CMD_R_RX_PAYLOAD] + Seq::new(i as nat, |k: int| 0u8));
        }
        let mut ops: Vec<BusOp> = Vec::new();
        ops.push(BusOp::CsnLow);
        ops.push(BusOp::Transfer(request));
        ops.push(BusOp::CsnHigh);
        assert(ops.deep_view() =~~= read_payload_steps());
        proof {
            reveal_with_fuel(framed_from, 4);
        }
        ops
    }

    /// The payload in the answer to `read_payload`'s transfer: every byte but
    /// the first, which is the STATUS register.
    pub fn payload_from_reply(reply: &[u8; 33]) -> (payload: [u8; 32])
        ensures
            payload@ == reply@.subrange(1, 33),
    {
        let mut payload = [0u8; 32];
        let mut i: usize = 0;
        while i < PAYLOAD_LEN
            invariant
                i <= PAYLOAD_LEN,
                payload@.len() == PAYLOAD_LEN,
                forall|k: int| 0 <= k < i ==> payload@[k] == reply@[k + 1],
            decreases PAYLOAD_LEN - i,
        {
            payload[i] = reply[i + 1];
            i = i + 1;
        }
        assert(payload@ =~= reply@.subrange(1, 33));
        payload
    }

    /// Switches the radio to receive mode.
    pub fn set_receiver_mode(&mut self) -> (ops: Vec<BusOp>)
        ensures
            ops.deep_view() == receiver_mode_steps(),
            chip_select_framed(ops.deep_view()),
            final(self)@ == State::Receiver,
            final(self)@ == after_call(old(self)@, RadioCall::SetReceiverMode),
    {
        let mut ops: Vec<BusOp> = Vec::new();
        push_op(&mut ops, BusOp::CeLow);
        append_ops(&mut ops, Self::write_register(REG_CONFIG, CONFIG_RX_MODE));
        push_op(&mut ops, BusOp::CeHigh);
        proof {
            assert(ops.deep_view() =~~= receiver_mode_steps());
            reveal_with_fuel(framed_from, 6);
        }
        self.state = State::Receiver;
        ops
    }

    /// Sends a payload: TX mode, the payload into the transmit FIFO, and a
    /// CE pulse that starts the transmission.
    pub fn transmit(&mut self, payload: &[u8; 32]) -> (ops: Vec<BusOp>)
        ensures
            ops.deep_view() == transmit_steps(payload@),
            ops.deep_view().len() == 11,
            ops.deep_view()[5] == BusStep::Write(seq![CMD_W_TX_PAYLOAD]),
            ops.deep_view()[6] == BusStep::Write(payload@),
            chip_select_framed(ops.deep_view()),
            final(self)@ == State::Transmitter,
            final(self)@ == after_call(old(self)@, RadioCall::Transmit),
    {
        let mut ops: Vec<BusOp> = Vec::new();
        push_op(&mut ops, BusOp::CeLow);
        append_ops(&mut ops, Self::write_register(REG_CONFIG, CONFIG_TX_MODE));
        push_op(&mut ops, BusOp::CsnLow);
        push_op(&mut ops, BusOp::Write(vec![CMD_W_TX_PAYLOAD]));
        push_op(&mut ops, BusOp::Write(vstd::slice::slice_to_vec(payload.as_slice())));
        push_op(&mut ops, BusOp::CsnHigh);
        push_op(&mut ops, BusOp::CeHigh);
        push_op(&mut ops, BusOp::Delay(CE_PULSE_DELAY_CYCLES));
        push_op(&mut ops, BusOp::CeLow);
        proof {
            assert(ops.deep_view() =~~= transmit_steps(payload@));
            reveal_with_fuel(framed_from, 12);
        }
        self.state = State::Transmitter;
        ops
    }

    /// Reads the STATUS register: a NOP command, whose answer is STATUS.
    pub fn read_status(&self) -> (ops: Vec<BusOp>)
        ensures
            ops.deep_view() == command_steps(CMD_NOP),
            chip_select_framed(ops.deep_view()),
    {
        self.send_command(CMD_NOP)
    }

    /// Clears the RX_DR, TX_DS and MAX_RT interrupt flags.
    pub fn clear_interrupts(&self) -> (ops: Vec<BusOp>)
        ensures
            ops.deep_view() == register_write_steps(REG_STATUS, STATUS_CLEAR_IRQ),
            chip_select_framed(ops.deep_view()),
    {
        proof {
            lemma_pieces_framed();
        }
        Self::write_register(REG_STATUS, STATUS_CLEAR_IRQ)
    }

    /// Sends a one-byte command in one transfer; `status_from_reply` takes
    /// the STATUS register out of the answer.
    pub fn send_command(&self, cmd: u8) -> (ops: Vec<BusOp>)
        ensures
            ops.deep_view() == command_steps(cmd),
            chip_select_framed(ops.deep_view()),
    {
        let mut ops: Vec<BusOp> = Vec::new();
        ops.push(BusOp::CsnLow);
        ops.push(BusOp::Transfer(vec![cmd]));
        ops.push(BusOp::CsnHigh);
        assert(ops.deep_view() =~~= command_steps(cmd));
        proof {
            lemma_pieces_framed();
        }
        ops
    }

    /// The STATUS register in the answer to a one-byte command.
    pub fn status_from_reply(reply: &[u8; 1]) -> (status: u8)
        ensures
            status == reply@[0],
    {
        reply[0]
    }

    pub fn get_state(&self) -> (state: State)
        ensures
            state == self@,
    {
        self.state
    }
}

/// A register write selects the chip, sends the W_REGISTER command for the
/// register (0b001 in the top three bits, the register number in the low
/// five) followed by the value, and deselects the chip.
pub proof fn law_register_write_bytes(reg: u8, value: u8)
    requires
        reg < 32,
    ensures
        register_write_steps(reg, value) == seq![
            BusStep::CsnLow,
            BusStep::Write(seq![0x20u8 | reg, value]),
            BusStep::CsnHigh,
        ],
        (0x20u8 | reg) & 0xE0 == 0x20,
        (0x20u8 | reg) & 0x1F == reg,
        register_multi_write_steps(reg, spec_default_address()) == seq![
            BusStep::CsnLow,
            BusStep::Write(seq![0x20u8 | reg]),
            BusStep::Write(seq![0xE7u8, 0xE7, 0xE7, 0xE7, 0xE7]),
            BusStep::CsnHigh,
        ],
{
    assert((0x20u8 | reg) & 0xE0 == 0x20) by (bit_vector)
        requires
            reg < 32,
    ;
    assert((0x20u8 | reg) & 0x1F == reg) by (bit_vector)
        requires
            reg < 32,
    ;
    assert(spec_default_address() =~= seq![0xE7u8, 0xE7, 0xE7, 0xE7, 0xE7]);
}

/// A command is one byte in one selected transfer; reading the payload is
/// one selected transfer of R_RX_PAYLOAD (0x61) and 32 zero bytes.
pub proof fn law_transfer_bytes(cmd: u8)
    ensures
        command_steps(cmd) == seq![BusStep::CsnLow, BusStep::Transfer(seq![cmd]), BusStep::CsnHigh],
        read_payload_steps().len() == 3,
        read_payload_steps()[0] == BusStep::CsnLow,
        read_payload_steps()[2] == BusStep::CsnHigh,
        read_payload_steps()[1] matches BusStep::Transfer(bytes) && bytes.len() == 33 && bytes[0] == 0x61
            && forall|i: int| 1 <= i < 33 ==> #[trigger] bytes[i] == 0,
{
}

/// Sending a payload: CE low, CONFIG (register 0) set to 0x0E (TX mode),
/// then in one selected frame W_TX_PAYLOAD (0xA0) and the payload exactly as
/// given, then a CE pulse of 1250 cycles.
pub proof fn law_transmit_sends_payload(payload: Seq<u8>)
    ensures
        transmit_steps(payload) == seq![
            BusStep::CeLow,
            BusStep::CsnLow,
            BusStep::Write(seq![0x20u8, 0x0E]),
            BusStep::CsnHigh,
            BusStep::CsnLow,
            BusStep::Write(seq![0xA0u8]),
            BusStep::Write(payload),
            BusStep::CsnHigh,
            BusStep::CeHigh,
            BusStep::Delay(1_250),
            BusStep::CeLow,
        ],
{
    assert((0x20u8 | 0x00u8) == 0x20u8) by (bit_vector);
    assert(transmit_steps(payload) =~= seq![
        BusStep::CeLow,
        BusStep::CsnLow,
        BusStep::Write(seq![0x20u8, 0x0E]),
        BusStep::CsnHigh,
        BusStep::CsnLow,
        BusStep::Write(seq![0xA0u8]),
        BusStep::Write(payload),
        BusStep::CsnHigh,
        BusStep::CeHigh,
        BusStep::Delay(1_250),
        BusStep::CeLow,
    ]);
}

/// Receive mode: CE low, CONFIG (register 0) set to 0x0F (RX mode), CE high.
pub proof fn law_receiver_mode_bytes()
    ensures
        receiver_mode_steps() == seq![
            BusStep::CeLow,
            BusStep::CsnLow,
            BusStep::Write(seq![0x20u8, 0x0F]),
            BusStep::CsnHigh,
            BusStep::CeHigh,
        ],
{
    assert((0x20u8 | 0x00u8) == 0x20u8) by (bit_vector);
    assert(receiver_mode_steps() =~= seq![
        BusStep::CeLow,
        BusStep::CsnLow,
        BusStep::Write(seq![0x20u8, 0x0F]),
        BusStep::CsnHigh,
        BusStep::CeHigh,
    ]);
}

/// The register writes of start-up, in order, as (W_REGISTER byte, value).
pub open spec fn w(b0: u8, b1: u8) -> Seq<BusStep> {
    seq![BusStep::CsnLow, BusStep::Write(seq![b0, b1]), BusStep::CsnHigh]
}

/// Start-up, byte for byte: CE low, CSN high, 12_500_000 cycles; CONFIG
/// 0x08, EN_AA 0x01, EN_RXADDR 0x01, SETUP_AW 0x03, SETUP_RETR 0x1F, RF_CH
/// 0x02, RF_SETUP 0x07, STATUS 0x70; RX_ADDR_P0 and TX_ADDR both E7 E7 E7 E7
/// E7; RX_PW_P0 0x20; FLUSH_TX (0xE1), FLUSH_RX (0xE2); CONFIG 0x0F;
/// 187_500 cycles; CE high.
pub proof fn law_init_bytes()
    ensures
        init_steps() == seq![BusStep::CeLow, BusStep::CsnHigh, BusStep::Delay(12_500_000)]
            + w(0x20, 0x08) + w(0x21, 0x01) + w(0x22, 0x01) + w(0x23, 0x03)
            + w(0x24, 0x1F) + w(0x25, 0x02) + w(0x26, 0x07) + w(0x27, 0x70)
            + seq![
            BusStep::CsnLow,
            BusStep::Write(seq![0x2Au8]),
            BusStep::Write(seq![0xE7u8, 0xE7, 0xE7, 0xE7, 0xE7]),
            BusStep::CsnHigh,
            BusStep::CsnLow,
            BusStep::Write(seq![0x30u8]),
            BusStep::Write(seq![0xE7u8, 0xE7, 0xE7, 0xE7, 0xE7]),
            BusStep::CsnHigh,
        ] + w(0x31, 0x20)
            + seq![BusStep::CsnLow, BusStep::Transfer(seq![0xE1u8]), BusStep::CsnHigh]
            + seq![BusStep::CsnLow, BusStep::Transfer(seq![0xE2u8]), BusStep::CsnHigh]
            + w(0x20, 0x0F) + seq![BusStep::Delay(187_500), BusStep::CeHigh],
{
    assert(spec_default_address() =~= seq![0xE7u8, 0xE7, 0xE7, 0xE7, 0xE7]);
    assert((0x20u8 | 0x00u8) == 0x20u8) by (bit_vector);
    assert((0x20u8 | 0x01u8) == 0x21u8) by (bit_vector);
    assert((0x20u8 | 0x02u8) == 0x22u8) by (bit_vector);
    assert((0x20u8 | 0x03u8) == 0x23u8) by (bit_vector);
    assert((0x20u8 | 0x04u8) == 0x24u8) by (bit_vector);
    assert((0x20u8 | 0x05u8) == 0x25u8) by (bit_vector);
    assert((0x20u8 | 0x06u8) == 0x26u8) by (bit_vector);
    assert((0x20u8 | 0x07u8) == 0x27u8) by (bit_vector);
    assert((0x20u8 | 0x0Au8) == 0x2Au8) by (bit_vector);
    assert((0x20u8 | 0x10u8) == 0x30u8) by (bit_vector);
    assert((0x20u8 | 0x11u8) == 0x31u8) by (bit_vector);
    assert(init_steps() =~= seq![BusStep::CeLow, BusStep::CsnHigh, BusStep::Delay(12_500_000)]
        + w(0x20, 0x08) + w(0x21, 0x01) + w(0x22, 0x01) + w(0x23, 0x03)
        + w(0x24, 0x1F) + w(0x25, 0x02) + w(0x26, 0x07) + w(0x27, 0x70)
        + seq![
        BusStep::CsnLow,
        BusStep::Write(seq![0x2Au8]),
        BusStep::Write(seq![0xE7u8, 0xE7, 0xE7, 0xE7, 0xE7]),
        BusStep::CsnHigh,
        BusStep::CsnLow,
        BusStep::Write(seq![0x30u8]),
        BusStep::Write(seq![0xE7u8, 0xE7, 0xE7, 0xE7, 0xE7]),
        BusStep::CsnHigh,
    ] + w(0x31, 0x20)
        + seq![BusStep::CsnLow, BusStep::Transfer(seq![0xE1u8]), BusStep::CsnHigh]
        + seq![BusStep::CsnLow, BusStep::Transfer(seq![0xE2u8]), BusStep::CsnHigh]
        + w(0x20, 0x0F) + seq![BusStep::Delay(187_500), BusStep::CeHigh]);
}

} // verus!
