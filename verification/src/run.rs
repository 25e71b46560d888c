//! The runner's loop, one step at a time: what it asks for next, given what
//! it hears of its last request.

use vstd::prelude::*;
use crate::bus::BusOp;
use crate::bytes::{array_from_slice, bytes_to_words, slice8, words_to_bytes};
use crate::consts::{
    ATCM_RAM_BASE_ADDRESS, CHIP_RAM_SIZE, FUNC_BUS, IRQ_DATA_UNAVAILABLE, IRQ_F2_PACKET_AVAILABLE,
    REG_BUS_INTERRUPT, SCRATCH_BYTES, SOCRAM_SRMEM_SIZE, STATUS_F2_PKT_AVAILABLE,
    STATUS_F2_PKT_LEN_MASK, STATUS_F2_PKT_LEN_SHIFT,
};
use crate::credit::{credit_after, credit_available, wrapping_sum};
use crate::ioctl::{IoctlType, PendingIoctl};
use crate::log::{
    lines_view, log_feed, ring_span, LogLines, LogState, LogView, LOG_RING_SIZE,
};
use crate::runner::{
    data_frame, ioctl_frame, next_ioctl_id, padded, received, sdpcm_fault, Phase, Received,
    ReceivedView, Runner, RunnerView,
};
use crate::structs::{BcdHeader, CdcHeader, SdpcmHeader, SharedMemData, SharedMemLog};

verus! {

/// Backplane address of the word that holds the address of the firmware's
/// shared-memory descriptor.
pub const LOG_SHARED_ADDR: u32 = ATCM_RAM_BASE_ADDRESS + CHIP_RAM_SIZE - 4 - SOCRAM_SRMEM_SIZE;

/// What the runner hears of its last request.
#[derive(Clone, Debug, PartialEq, Eq)]
pub enum Input {
    /// It is done and yielded nothing.
    Done,
    /// The value of the register that was read.
    Value(u32),
    /// The bytes that were read from the backplane.
    Bytes(Vec<u8>),
    /// The buffer that a packet was read into from the chip.
    Words(Vec<u32>),
    /// A control request is pending.
    Ioctl(PendingIoctl),
    /// The host has a frame to send.
    Tx(Vec<u8>),
    /// The chip raised its interrupt line.
    Irq,
}

/// [`Input`] with its byte strings as sequences.
pub enum InputView {
    Done,
    Value(u32),
    Bytes(Seq<u8>),
    Words(Seq<u32>),
    Ioctl { kind: IoctlType, cmd: u32, iface: u32, data: Seq<u8> },
    Tx(Seq<u8>),
    Irq,
}

impl View for Input {
    type V = InputView;

    open spec fn view(&self) -> InputView {
        match self {
            Input::Done => InputView::Done,
            Input::Value(value) => InputView::Value(*value),
            Input::Bytes(bytes) => InputView::Bytes(bytes@),
            Input::Words(words) => InputView::Words(words@),
            Input::Ioctl(pending) => InputView::Ioctl {
                kind: pending.kind,
                cmd: pending.cmd,
                iface: pending.iface,
                data: pending.buf@,
            },
            Input::Tx(frame) => InputView::Tx(frame@),
            Input::Irq => InputView::Irq,
        }
    }
}

/// What the runner asks for.
#[derive(Clone, Debug, PartialEq, Eq)]
pub enum Action {
    /// An operation on the bus; a read is answered with [`Input::Value`], a
    /// block read with [`Input::Bytes`], anything else with [`Input::Done`].
    Bus(BusOp),
    /// The status word that the bus latched last, answered with
    /// [`Input::Value`].
    Status,
    /// A packet of `len` bytes from the chip, answered with [`Input::Words`].
    WlanRead { len: usize },
    /// These words written to the chip; with `tx_done`, the host is then told
    /// that its frame is sent. Answered with [`Input::Done`].
    WlanWrite { words: Vec<u32>, tx_done: bool },
    /// A wait for the interrupt line and, with `tx`, for a control request or
    /// a frame of the host as well; answered with what came first.
    Wait { tx: bool },
    /// What a received packet asks for: a warning, a reply handed to the
    /// caller of the control request, an event published, a frame handed to
    /// the host if it has room. Answered with [`Input::Done`].
    Handle(Received),
    /// These lines of the firmware's log written to the host's log. Answered
    /// with [`Input::Done`].
    Log(Vec<Vec<u8>>),
}

/// [`Action`] with its byte strings as sequences.
pub enum ActionView {
    Bus(BusOp),
    Status,
    WlanRead { len: usize },
    WlanWrite { words: Seq<u32>, tx_done: bool },
    Wait { tx: bool },
    Handle(ReceivedView),
    Log(Seq<Seq<u8>>),
}

impl View for Action {
    type V = ActionView;

    open spec fn view(&self) -> ActionView {
        match self {
            Action::Bus(op) => ActionView::Bus(*op),
            Action::Status => ActionView::Status,
            Action::WlanRead { len } => ActionView::WlanRead { len: *len },
            Action::WlanWrite { words, tx_done } => ActionView::WlanWrite {
                words: words@,
                tx_done: *tx_done,
            },
            Action::Wait { tx } => ActionView::Wait { tx: *tx },
            Action::Handle(received) => ActionView::Handle(received@),
            Action::Log(lines) => ActionView::Log(lines_view(lines@)),
        }
    }
}

/// The runner waits: for the interrupt line alone where it has no credit.
pub open spec fn wait(v: RunnerView) -> (RunnerView, ActionView) {
    (
        RunnerView { phase: Phase::Waiting, ..v },
        ActionView::Wait { tx: credit_available(v.sdpcm_seq, v.sdpcm_seq_max) },
    )
}

/// The runner starts a turn of its loop: with the firmware's log, if it is
/// tailed; else with a wait.
pub open spec fn begin(v: RunnerView) -> (RunnerView, ActionView) {
    if v.firmware_logs {
        (
            RunnerView { phase: Phase::LogHeader, ..v },
            ActionView::Bus(BusOp::BpRead { addr: v.log.addr, len: SharedMemLog::SIZE }),
        )
    } else {
        wait(v)
    }
}

/// The runner asks whether the chip has a packet.
pub open spec fn drain(v: RunnerView, clear: bool) -> (RunnerView, ActionView) {
    (RunnerView { phase: Phase::Status { clear }, ..v }, ActionView::Status)
}

/// The chip has no more packets: the interrupt register is cleared if that
/// is due, and the next turn starts.
pub open spec fn drained(v: RunnerView, clear: bool) -> (RunnerView, ActionView) {
    if clear {
        (
            RunnerView { phase: Phase::Clearing, ..v },
            ActionView::Bus(BusOp::Write16 { func: FUNC_BUS, addr: REG_BUS_INTERRUPT, val: 1 }),
        )
    } else {
        begin(v)
    }
}

/// What follows the reading of the interrupt register: the chip's packets
/// are taken in if it says it has any; the register is cleared, after that,
/// if it says that data was not available.
pub open spec fn on_irq(v: RunnerView, irq: u16) -> (RunnerView, ActionView) {
    let clear = irq & IRQ_DATA_UNAVAILABLE != 0;
    if irq & IRQ_F2_PACKET_AVAILABLE != 0 {
        drain(v, clear)
    } else {
        drained(v, clear)
    }
}

/// The length of the packet that a status word announces.
pub open spec fn status_len(status: u32) -> usize {
    ((status & STATUS_F2_PKT_LEN_MASK) >> STATUS_F2_PKT_LEN_SHIFT) as usize
}

/// What follows the reading of the bus status: the packet is read if the
/// chip has one.
pub open spec fn on_status(v: RunnerView, status: u32, clear: bool) -> (RunnerView, ActionView) {
    if status & STATUS_F2_PKT_AVAILABLE != 0 {
        (
            RunnerView { phase: Phase::Reading { len: status_len(status), clear }, ..v },
            ActionView::WlanRead { len: status_len(status) },
        )
    } else {
        drained(v, clear)
    }
}

/// What follows the reading of a packet: the credit is taken from it, and
/// what it asks for is handled.
pub open spec fn on_packet(v: RunnerView, packet: Seq<u8>, clear: bool) -> (
    RunnerView,
    ActionView,
) {
    (
        RunnerView {
            sdpcm_seq_max: if sdpcm_fault(packet) is None {
                credit_after(v.sdpcm_seq, v.sdpcm_seq_max, packet[5], packet[9])
            } else {
                v.sdpcm_seq_max
            },
            phase: Phase::Handing { clear },
            ..v
        },
        ActionView::Handle(received(v.ioctl_id, packet)),
    )
}

/// What follows the reading of the log header: the ring is read if the
/// firmware wrote to it.
pub open spec fn on_log_header(v: RunnerView, header: Seq<u8>) -> (RunnerView, ActionView) {
    match LogState::spec_pending(v.log, SharedMemLog::spec_from_bytes(header)) {
        Some((buf, idx)) => (
            RunnerView { phase: Phase::LogRing { idx }, ..v },
            ActionView::Bus(BusOp::BpRead { addr: buf, len: LOG_RING_SIZE }),
        ),
        None => wait(v),
    }
}

/// What follows the reading of the log ring: the lines that are complete are
/// emitted.
pub open spec fn on_log_ring(v: RunnerView, ring: Seq<u8>, idx: usize) -> (
    RunnerView,
    ActionView,
) {
    let fed = log_feed(
        LogLines { line: v.log.line, lines: Seq::empty() },
        ring_span(ring, v.log.last_idx, idx as int),
    );
    let read = RunnerView {
        log: LogView { addr: v.log.addr, last_idx: idx as int, line: fed.line },
        ..v
    };
    if fed.lines.len() != 0 {
        (RunnerView { phase: Phase::LogEmit, ..read }, ActionView::Log(fed.lines))
    } else {
        wait(read)
    }
}

/// Whether the runner can take `input` in the state `v`: whether it is an
/// answer to what the runner asked for last. A control request or a frame of
/// the host is taken only while there is credit, and only if it fits into
/// the scratch buffer with its headers.
pub open spec fn accepts(v: RunnerView, input: InputView) -> bool {
    match (v.phase, input) {
        (Phase::Start, InputView::Done) => true,
        (Phase::LogInitAddr, InputView::Value(_)) => true,
        (Phase::LogInitShared, InputView::Bytes(bytes)) => bytes.len() == SharedMemData::SIZE,
        (Phase::LogHeader, InputView::Bytes(bytes)) => bytes.len() == SharedMemLog::SIZE,
        (Phase::LogRing { idx }, InputView::Bytes(bytes)) => bytes.len() == LOG_RING_SIZE && idx
            < LOG_RING_SIZE,
        (Phase::LogEmit, InputView::Done) => true,
        (Phase::Waiting, InputView::Irq) => true,
        (Phase::Waiting, InputView::Ioctl { data, .. }) => credit_available(
            v.sdpcm_seq,
            v.sdpcm_seq_max,
        ) && SdpcmHeader::SIZE + CdcHeader::SIZE + data.len() <= SCRATCH_BYTES,
        (Phase::Waiting, InputView::Tx(frame)) => credit_available(v.sdpcm_seq, v.sdpcm_seq_max)
            && SdpcmHeader::SIZE + BcdHeader::SIZE + frame.len() <= SCRATCH_BYTES,
        (Phase::Sending, InputView::Done) => true,
        (Phase::IrqRead, InputView::Value(_)) => true,
        (Phase::Status { .. }, InputView::Value(_)) => true,
        (Phase::Reading { len, .. }, InputView::Words(words)) => len <= 4 * words.len(),
        (Phase::Handing { .. }, InputView::Done) => true,
        (Phase::Clearing, InputView::Done) => true,
        _ => false,
    }
}

/// The runner's state after it took `input` in the state `v`, and what it
/// asks for next.
pub open spec fn step(v: RunnerView, input: InputView) -> (RunnerView, ActionView) {
    match (v.phase, input) {
        (Phase::Start, _) => if v.firmware_logs {
            (
                RunnerView { phase: Phase::LogInitAddr, ..v },
                ActionView::Bus(BusOp::BpRead32 { addr: LOG_SHARED_ADDR }),
            )
        } else {
            begin(v)
        },
        (Phase::LogInitAddr, InputView::Value(addr)) => (
            RunnerView { phase: Phase::LogInitShared, ..v },
            ActionView::Bus(BusOp::BpRead { addr, len: SharedMemData::SIZE }),
        ),
        (Phase::LogInitShared, InputView::Bytes(bytes)) => begin(
            RunnerView {
                log: LogView {
                    addr: LogState::header_addr(SharedMemData::spec_from_bytes(bytes)),
                    ..v.log
                },
                ..v
            },
        ),
        (Phase::LogHeader, InputView::Bytes(bytes)) => on_log_header(v, bytes),
        (Phase::LogRing { idx }, InputView::Bytes(bytes)) => on_log_ring(v, bytes, idx),
        (Phase::LogEmit, _) => wait(v),
        (Phase::Waiting, InputView::Ioctl { kind, cmd, iface, data }) => (
            RunnerView {
                sdpcm_seq: wrapping_sum(v.sdpcm_seq, 1),
                ioctl_id: next_ioctl_id(v.ioctl_id),
                phase: Phase::Sending,
                ..v
            },
            ActionView::WlanWrite {
                words: bytes_to_words(
                    padded(
                        ioctl_frame(v.sdpcm_seq, next_ioctl_id(v.ioctl_id), kind, cmd, iface, data),
                    ),
                ),
                tx_done: false,
            },
        ),
        (Phase::Waiting, InputView::Tx(frame)) => (
            RunnerView { sdpcm_seq: wrapping_sum(v.sdpcm_seq, 1), phase: Phase::Sending, ..v },
            ActionView::WlanWrite {
                words: bytes_to_words(padded(data_frame(v.sdpcm_seq, frame))),
                tx_done: true,
            },
        ),
        (Phase::Waiting, _) => (
            RunnerView { phase: Phase::IrqRead, ..v },
            ActionView::Bus(BusOp::Read16 { func: FUNC_BUS, addr: REG_BUS_INTERRUPT }),
        ),
        (Phase::Sending, _) => drain(v, false),
        (Phase::IrqRead, InputView::Value(irq)) => on_irq(v, (irq & 0xffff) as u16),
        (Phase::Status { clear }, InputView::Value(status)) => on_status(v, status, clear),
        (Phase::Reading { len, clear }, InputView::Words(words)) => on_packet(
            v,
            words_to_bytes(words).subrange(0, len as int),
            clear,
        ),
        (Phase::Handing { clear }, _) => drain(v, clear),
        (Phase::Clearing, _) => begin(v),
        _ => (v, ActionView::Status),
    }
}

impl Runner {
    /// Asks for the wait.
    fn wait(&mut self) -> (action: Action)
        ensures
            (final(self)@, action@) == wait(old(self)@),
    {
        self.phase = Phase::Waiting;
        Action::Wait { tx: self.has_credit() }
    }

    /// Starts a turn of the loop.
    fn begin(&mut self) -> (action: Action)
        ensures
            (final(self)@, action@) == begin(old(self)@),
    {
        if self.firmware_logs {
            self.phase = Phase::LogHeader;
            Action::Bus(BusOp::BpRead { addr: self.log.addr(), len: SharedMemLog::SIZE })
        } else {
            self.wait()
        }
    }

    /// Ends the taking in of packets.
    fn drained(&mut self, clear: bool) -> (action: Action)
        ensures
            (final(self)@, action@) == drained(old(self)@, clear),
    {
        if clear {
            self.phase = Phase::Clearing;
            Action::Bus(BusOp::Write16 { func: FUNC_BUS, addr: REG_BUS_INTERRUPT, val: 1 })
        } else {
            self.begin()
        }
    }

    /// Takes in the interrupt register: the chip's packets are taken in if
    /// it says it has any, and the register is cleared, after that, if it
    /// says that data was not available.
    pub fn handle_irq(&mut self, irq: u16) -> (action: Action)
        ensures
            (final(self)@, action@) == on_irq(old(self)@, irq),
    {
        let clear = irq & IRQ_DATA_UNAVAILABLE != 0;
        if irq & IRQ_F2_PACKET_AVAILABLE != 0 {
            self.phase = Phase::Status { clear };
            Action::Status
        } else {
            self.drained(clear)
        }
    }

    /// Takes in the bus status: asks for the packet if the chip has one,
    /// and ends the taking in of packets if it has none. `clear` says that
    /// the interrupt register is to be cleared at that end.
    pub fn check_status(&mut self, status: u32, clear: bool) -> (action: Action)
        ensures
            (final(self)@, action@) == on_status(old(self)@, status, clear),
    {
        if status & STATUS_F2_PKT_AVAILABLE != 0 {
            let len = ((status & STATUS_F2_PKT_LEN_MASK) >> STATUS_F2_PKT_LEN_SHIFT) as usize;
            self.phase = Phase::Reading { len, clear };
            Action::WlanRead { len }
        } else {
            self.drained(clear)
        }
    }

    /// Whether `input` is an answer to what the runner asked for last.
    pub fn accepts(&self, input: &Input) -> (yes: bool)
        ensures
            yes == accepts(self@, input@),
    {
        match (self.phase, input) {
            (Phase::Start, Input::Done) => true,
            (Phase::LogInitAddr, Input::Value(_)) => true,
            (Phase::LogInitShared, Input::Bytes(bytes)) => bytes.len() == SharedMemData::SIZE,
            (Phase::LogHeader, Input::Bytes(bytes)) => bytes.len() == SharedMemLog::SIZE,
            (Phase::LogRing { idx }, Input::Bytes(bytes)) => bytes.len() == LOG_RING_SIZE && idx
                < LOG_RING_SIZE,
            (Phase::LogEmit, Input::Done) => true,
            (Phase::Waiting, Input::Irq) => true,
            (Phase::Waiting, Input::Ioctl(pending)) => self.has_credit() && pending.buf.len()
                <= SCRATCH_BYTES - SdpcmHeader::SIZE - CdcHeader::SIZE,
            (Phase::Waiting, Input::Tx(frame)) => self.has_credit() && frame.len() <= SCRATCH_BYTES
                - SdpcmHeader::SIZE - BcdHeader::SIZE,
            (Phase::Sending, Input::Done) => true,
            (Phase::IrqRead, Input::Value(_)) => true,
            (Phase::Status { .. }, Input::Value(_)) => true,
            (Phase::Reading { len, .. }, Input::Words(words)) => len / 4 < words.len() || (len % 4
                == 0 && len / 4 == words.len()),
            (Phase::Handing { .. }, Input::Done) => true,
            (Phase::Clearing, Input::Done) => true,
            _ => false,
        }
    }

    /// Takes in what the runner hears of its last request, and returns what
    /// it asks for next.
    pub fn run(&mut self, input: Input) -> (action: Action)
        requires
            accepts(old(self)@, input@),
        ensures
            (final(self)@, action@) == step(old(self)@, input@),
    {
        match (self.phase, input) {
            (Phase::Start, _) => {
                if self.firmware_logs {
                    self.phase = Phase::LogInitAddr;
                    Action::Bus(BusOp::BpRead32 { addr: LOG_SHARED_ADDR })
                } else {
                    self.begin()
                }
            },
            (Phase::LogInitAddr, Input::Value(addr)) => {
                self.phase = Phase::LogInitShared;
                Action::Bus(BusOp::BpRead { addr, len: SharedMemData::SIZE })
            },
            (Phase::LogInitShared, Input::Bytes(bytes)) => {
                let shared: [u8; 32] = array_from_slice(bytes.as_slice(), 0);
                assert(shared@ =~= bytes@);
                self.log.log_init(&shared);
                self.begin()
            },
            (Phase::LogHeader, Input::Bytes(bytes)) => {
                let header: [u8; 16] = array_from_slice(bytes.as_slice(), 0);
                assert(header@ =~= bytes@);
                match self.log.pending(&header) {
                    Some((buf, idx)) => {
                        self.phase = Phase::LogRing { idx };
                        Action::Bus(BusOp::BpRead { addr: buf, len: LOG_RING_SIZE })
                    },
                    None => self.wait(),
                }
            },
            (Phase::LogRing { idx }, Input::Bytes(bytes)) => {
                let lines = self.log.log_read(bytes.as_slice(), idx);
                if lines.len() != 0 {
                    self.phase = Phase::LogEmit;
                    Action::Log(lines)
                } else {
                    self.wait()
                }
            },
            (Phase::LogEmit, _) => self.wait(),
            (Phase::Waiting, Input::Ioctl(pending)) => {
                let words = self.send_ioctl(
                    pending.kind,
                    pending.cmd,
                    pending.iface,
                    pending.buf.as_slice(),
                );
                self.phase = Phase::Sending;
                Action::WlanWrite { words, tx_done: false }
            },
            (Phase::Waiting, Input::Tx(frame)) => {
                let words = self.send_data(frame.as_slice());
                self.phase = Phase::Sending;
                Action::WlanWrite { words, tx_done: true }
            },
            (Phase::Waiting, _) => {
                self.phase = Phase::IrqRead;
                Action::Bus(BusOp::Read16 { func: FUNC_BUS, addr: REG_BUS_INTERRUPT })
            },
            (Phase::Sending, _) => {
                self.phase = Phase::Status { clear: false };
                Action::Status
            },
            (Phase::IrqRead, Input::Value(value)) => {
                let low = value & 0xffff;
                assert(low <= 0xffff) by (bit_vector)
                    requires
                        low == value & 0xffff,
                ;
                self.handle_irq(low as u16)
            },
            (Phase::Status { clear }, Input::Value(status)) => self.check_status(status, clear),
            (Phase::Reading { len, clear }, Input::Words(words)) => {
                let packet = slice8(words.as_slice(), len);
                let received = self.rx(packet.as_slice());
                self.phase = Phase::Handing { clear };
                Action::Handle(received)
            },
            (Phase::Handing { clear }, _) => {
                self.phase = Phase::Status { clear };
                Action::Status
            },
            (Phase::Clearing, _) => self.begin(),
            _ => Action::Status,
        }
    }
}

/// Without credit the runner waits for the interrupt line alone, and takes
/// neither a control request nor a frame of the host; with credit it waits
/// for all three.
pub proof fn lemma_credit_gates_tx(v: RunnerView, input: InputView)
    ensures
        wait(v).1 == (ActionView::Wait { tx: credit_available(v.sdpcm_seq, v.sdpcm_seq_max) }),
        !credit_available(v.sdpcm_seq, v.sdpcm_seq_max) && (input is Ioctl || input is Tx)
            ==> !accepts(v, input),
{
}

/// A frame sent with the last credit leaves none: the wait that follows the
/// taking in of packets is for the interrupt line alone, unless a packet
/// brought new credit.
pub proof fn lemma_last_credit_blocks(v: RunnerView, input: InputView)
    requires
        v.phase == Phase::Waiting,
        input is Ioctl || input is Tx,
        accepts(v, input),
        wrapping_sum(v.sdpcm_seq, 1) == v.sdpcm_seq_max,
    ensures
        wait(step(v, input).0).1 == (ActionView::Wait { tx: false }),
{
}

/// The chip's packets are taken in to the end before the runner waits again:
/// a frame that was written is followed by a look at the bus status, so is
/// every packet that was handled, and a status that shows a packet is
/// followed by the reading of that packet.
pub proof fn lemma_drains_before_waiting(v: RunnerView, input: InputView, status: u32)
    ensures
        v.phase is Sending || v.phase is Handing ==> step(v, input).1 == ActionView::Status,
        v.phase is Status && status & STATUS_F2_PKT_AVAILABLE != 0 ==> step(
            v,
            InputView::Value(status),
        ).1 == (ActionView::WlanRead { len: status_len(status) }),
{
}

} // verus!
