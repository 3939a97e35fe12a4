//! Transport session: the order of channel operations in one exchange.
//!
//! The session itself performs no I/O. It says which operation comes next
//! (`Action`), and takes what became of it (`Event`). Whoever owns the
//! channel carries the actions out.
//!
//! An exchange takes exclusive hold of the channel before its first channel
//! operation and gives it up after its last, however it ends. Every read is
//! bounded by the read timeout. The exchange as a whole has no deadline of
//! its own: it goes on for as long as the peer keeps sending well-formed
//! packets that do not close the message and the response fits the buffer.
//! Nothing is retried here.

use crate::error::{ExchangeError, ProtocolFault};
use crate::frame::{
    command_payload, encode_command, frame_bytes, length_in_bounds, read_packet_length,
    Destination, BUFFER_SZ, CMD_CODE_SZ, HEADER_SZ, SMBUS_HEADER_SZ, SMBUS_LEN_IDX,
};
use crate::reassembly::{accept, closes_message, Assembly, Reassembler};
use vstd::prelude::*;

verus! {

/// Longest wait for one physical read, in milliseconds.
pub const READ_TIMEOUT_MS: u64 = 1000;

/// The operation that an exchange waits for.
#[derive(Clone, Copy, Debug, PartialEq, Eq, Structural)]
pub enum Action {
    /// Take exclusive hold of the channel, waiting while another exchange
    /// has it.
    Acquire,
    /// Discard every byte buffered for reading.
    ClearInput,
    /// Write the whole frame.
    WriteFrame,
    /// Flush what was written.
    Flush,
    /// Read exactly `len` bytes, giving up after `timeout_ms` milliseconds.
    Read { len: usize, timeout_ms: u64 },
    /// Give up the hold of the channel.
    Release,
    /// The response is complete: decode it under its command code.
    Decode,
    /// The exchange is over without a response.
    Abort(ExchangeError),
}

/// What became of the operation that the exchange waited for.
#[derive(Debug)]
pub enum Event {
    /// The operation was carried out; for a read, see `Received`.
    Completed,
    /// A read returned these bytes.
    Received(Vec<u8>),
    /// The operation failed or timed out.
    IoFailed,
}

/// An `Event`, with the bytes as a sequence.
pub enum Signal {
    Completed,
    Received(Seq<u8>),
    IoFailed,
}

impl View for Event {
    type V = Signal;

    open spec fn view(&self) -> Signal {
        match self {
            Event::Completed => Signal::Completed,
            Event::Received(bytes) => Signal::Received(bytes@),
            Event::IoFailed => Signal::IoFailed,
        }
    }
}

/// Where an exchange stands.
#[derive(Clone, Copy, Debug, PartialEq, Eq, Structural)]
pub enum Phase {
    /// Waiting for the hold of the channel.
    Acquiring,
    /// Waiting for stale input to be discarded.
    Clearing,
    /// Waiting for the frame to be written.
    Writing,
    /// Waiting for the flush.
    Flushing,
    /// Waiting for the bus-transport header of the next packet.
    AwaitingHeader,
    /// Waiting for the rest of a packet.
    AwaitingBody,
    /// The response is complete; waiting for the channel to be given up.
    Releasing,
    /// The exchange failed; waiting for the channel to be given up.
    Failing(ExchangeError),
    /// The response is complete and the channel given up.
    Finished,
    /// The exchange failed and holds the channel no more.
    Aborted(ExchangeError),
}

impl Phase {
    /// Whether an exchange in this phase has the hold of the channel.
    pub open spec fn holds_channel(self) -> bool {
        match self {
            Phase::Acquiring => false,
            Phase::Finished => false,
            Phase::Aborted(_) => false,
            _ => true,
        }
    }
}

impl Action {
    /// Whether the operation reads from or writes to the channel.
    pub open spec fn touches_channel(self) -> bool {
        match self {
            Action::ClearInput => true,
            Action::WriteFrame => true,
            Action::Flush => true,
            Action::Read { .. } => true,
            _ => false,
        }
    }
}

/// The state of one exchange.
pub struct ExchangeState {
    pub phase: Phase,
    /// The frame of the request.
    pub frame: Seq<u8>,
    /// The bus-transport header of the packet being read.
    pub bus_header: Seq<u8>,
    /// The response gathered so far.
    pub assembly: Assembly,
}

impl ExchangeState {
    /// The state in which every exchange starts.
    pub open spec fn initial(frame: Seq<u8>) -> ExchangeState {
        ExchangeState {
            phase: Phase::Acquiring,
            frame,
            bus_header: Seq::empty(),
            assembly: Assembly::empty(),
        }
    }

    /// The operation that the exchange waits for in this state.
    pub open spec fn pending(self) -> Action {
        match self.phase {
            Phase::Acquiring => Action::Acquire,
            Phase::Clearing => Action::ClearInput,
            Phase::Writing => Action::WriteFrame,
            Phase::Flushing => Action::Flush,
            Phase::AwaitingHeader => Action::Read {
                len: SMBUS_HEADER_SZ,
                timeout_ms: READ_TIMEOUT_MS,
            },
            Phase::AwaitingBody => Action::Read {
                len: self.bus_header[SMBUS_LEN_IDX as int] as usize,
                timeout_ms: READ_TIMEOUT_MS,
            },
            Phase::Releasing => Action::Release,
            Phase::Failing(_) => Action::Release,
            Phase::Finished => Action::Decode,
            Phase::Aborted(e) => Action::Abort(e),
        }
    }

    /// This state, moved on to `phase`.
    pub open spec fn moved_to(self, phase: Phase) -> ExchangeState {
        ExchangeState { phase, ..self }
    }

    /// This state, failed with `e` while holding the channel.
    pub open spec fn failing(self, e: ExchangeError) -> ExchangeState {
        self.moved_to(Phase::Failing(e))
    }

    /// The state after `signal`. A failed operation, or a signal other than
    /// the one the pending operation produces, is a transport error; a
    /// refused packet is the protocol error of the parser or the
    /// reassembler. An exchange that fails while it holds the channel gives
    /// the channel up before it reports the failure. A finished or aborted
    /// exchange stays as it is.
    pub open spec fn next(self, signal: Signal) -> ExchangeState {
        match self.phase {
            Phase::Acquiring => match signal {
                Signal::Completed => self.moved_to(Phase::Clearing),
                _ => self.moved_to(Phase::Aborted(ExchangeError::Transport)),
            },
            Phase::Clearing => match signal {
                Signal::Completed => self.moved_to(Phase::Writing),
                _ => self.failing(ExchangeError::Transport),
            },
            Phase::Writing => match signal {
                Signal::Completed => self.moved_to(Phase::Flushing),
                _ => self.failing(ExchangeError::Transport),
            },
            Phase::Flushing => match signal {
                Signal::Completed => self.moved_to(Phase::AwaitingHeader),
                _ => self.failing(ExchangeError::Transport),
            },
            Phase::AwaitingHeader => match signal {
                Signal::Received(bytes) => if bytes.len() != SMBUS_HEADER_SZ {
                    self.failing(ExchangeError::Transport)
                } else if !length_in_bounds(bytes[SMBUS_LEN_IDX as int]) {
                    self.failing(
                        ExchangeError::Protocol(
                            ProtocolFault::InvalidPacketLength(bytes[SMBUS_LEN_IDX as int]),
                        ),
                    )
                } else {
                    ExchangeState { phase: Phase::AwaitingBody, bus_header: bytes, ..self }
                },
                _ => self.failing(ExchangeError::Transport),
            },
            Phase::AwaitingBody => match signal {
                Signal::Received(bytes) => if bytes.len() != self.bus_header[SMBUS_LEN_IDX as int] {
                    self.failing(ExchangeError::Transport)
                } else {
                    match accept(self.assembly, self.bus_header + bytes) {
                        Err(e) => self.failing(e),
                        Ok(assembly) => ExchangeState {
                            phase: if closes_message(self.bus_header + bytes) {
                                Phase::Releasing
                            } else {
                                Phase::AwaitingHeader
                            },
                            assembly,
                            ..self
                        },
                    }
                },
                _ => self.failing(ExchangeError::Transport),
            },
            Phase::Releasing => self.moved_to(Phase::Finished),
            Phase::Failing(e) => self.moved_to(Phase::Aborted(e)),
            Phase::Finished => self,
            Phase::Aborted(_) => self,
        }
    }

    /// The state after a run of signals.
    pub open spec fn run(self, signals: Seq<Signal>) -> ExchangeState
        decreases signals.len(),
    {
        if signals.len() == 0 {
            self
        } else {
            self.next(signals[0]).run(signals.drop_first())
        }
    }

    /// What holds of every state that an exchange reaches.
    pub open spec fn wf(self) -> bool {
        &&& self.frame.len() <= BUFFER_SZ
        &&& self.assembly.response.len() <= BUFFER_SZ
        &&& self.phase == Phase::AwaitingBody ==> {
            &&& self.bus_header.len() == SMBUS_HEADER_SZ
            &&& length_in_bounds(self.bus_header[SMBUS_LEN_IDX as int])
        }
    }
}

/// One request/response exchange in progress.
pub struct Exchange {
    phase: Phase,
    frame: Vec<u8>,
    bus_header: Vec<u8>,
    reassembler: Reassembler,
}

impl View for Exchange {
    type V = ExchangeState;

    closed spec fn view(&self) -> ExchangeState {
        ExchangeState {
            phase: self.phase,
            frame: self.frame@,
            bus_header: self.bus_header@,
            assembly: self.reassembler@,
        }
    }
}

impl Exchange {
    /// The state is one that an exchange can reach.
    pub open spec fn wf(&self) -> bool {
        self@.wf()
    }

    /// Starts an exchange: encodes the frame of the request and waits for
    /// the hold of the channel. A request that does not fit the frame buffer
    /// is refused here, before any operation.
    pub fn begin(dst: Destination, cmd_code: u16, message: &[u8]) -> (r: Result<
        Exchange,
        ExchangeError,
    >)
        ensures
            r is Ok <==> HEADER_SZ + CMD_CODE_SZ + message@.len() <= BUFFER_SZ,
            r matches Ok(exchange) ==> exchange.wf() && exchange@ == ExchangeState::initial(
                frame_bytes(dst, command_payload(cmd_code, message@)),
            ),
            r matches Err(e) ==> e == ExchangeError::Serialization,
    {
        let frame = match encode_command(dst, cmd_code, message) {
            Ok(frame) => frame,
            Err(e) => {
                return Err(e);
            },
        };
        Ok(
            Exchange {
                phase: Phase::Acquiring,
                frame,
                bus_header: Vec::new(),
                reassembler: Reassembler::new(),
            },
        )
    }

    /// The operation to carry out next.
    pub fn pending(&self) -> (action: Action)
        requires
            self.wf(),
        ensures
            action == self@.pending(),
    {
        match self.phase {
            Phase::Acquiring => Action::Acquire,
            Phase::Clearing => Action::ClearInput,
            Phase::Writing => Action::WriteFrame,
            Phase::Flushing => Action::Flush,
            Phase::AwaitingHeader => Action::Read {
                len: SMBUS_HEADER_SZ,
                timeout_ms: READ_TIMEOUT_MS,
            },
            Phase::AwaitingBody => Action::Read {
                len: self.bus_header[SMBUS_LEN_IDX] as usize,
                timeout_ms: READ_TIMEOUT_MS,
            },
            Phase::Releasing => Action::Release,
            Phase::Failing(_) => Action::Release,
            Phase::Finished => Action::Decode,
            Phase::Aborted(e) => Action::Abort(e),
        }
    }

    /// Takes what became of the pending operation and returns the operation
    /// to carry out next.
    pub fn step(&mut self, event: Event) -> (action: Action)
        requires
            old(self).wf(),
        ensures
            final(self).wf(),
            final(self)@ == old(self)@.next(event@),
            action == final(self)@.pending(),
    {
        match self.phase {
            Phase::Acquiring => match event {
                Event::Completed => {
                    self.phase = Phase::Clearing;
                },
                _ => {
                    self.phase = Phase::Aborted(ExchangeError::Transport);
                },
            },
            Phase::Clearing => match event {
                Event::Completed => {
                    self.phase = Phase::Writing;
                },
                _ => {
                    self.phase = Phase::Failing(ExchangeError::Transport);
                },
            },
            Phase::Writing => match event {
                Event::Completed => {
                    self.phase = Phase::Flushing;
                },
                _ => {
                    self.phase = Phase::Failing(ExchangeError::Transport);
                },
            },
            Phase::Flushing => match event {
                Event::Completed => {
                    self.phase = Phase::AwaitingHeader;
                },
                _ => {
                    self.phase = Phase::Failing(ExchangeError::Transport);
                },
            },
            Phase::AwaitingHeader => match event {
                Event::Received(bytes) => {
                    if bytes.len() != SMBUS_HEADER_SZ {
                        self.phase = Phase::Failing(ExchangeError::Transport);
                    } else {
                        // Get the length of the packet and do a sanity check on it
                        match read_packet_length(bytes.as_slice()) {
                            Ok(_) => {
                                self.bus_header = bytes;
                                self.phase = Phase::AwaitingBody;
                            },
                            Err(e) => {
                                self.phase = Phase::Failing(e);
                            },
                        }
                    }
                },
                _ => {
                    self.phase = Phase::Failing(ExchangeError::Transport);
                },
            },
            Phase::AwaitingBody => match event {
                Event::Received(bytes) => {
                    if bytes.len() != self.bus_header[SMBUS_LEN_IDX] as usize {
                        self.phase = Phase::Failing(ExchangeError::Transport);
                    } else {
                        let mut packet: Vec<u8> = Vec::new();
                        packet.extend_from_slice(self.bus_header.as_slice());
                        packet.extend_from_slice(bytes.as_slice());
                        proof {
                            assert(packet@ =~= self.bus_header@ + bytes@);
                        }
                        match self.reassembler.push_packet(packet.as_slice()) {
                            Ok(last) => {
                                // If this is the closing packet, we are done
                                self.phase = if last {
                                    Phase::Releasing
                                } else {
                                    Phase::AwaitingHeader
                                };
                            },
                            Err(e) => {
                                self.phase = Phase::Failing(e);
                            },
                        }
                    }
                },
                _ => {
                    self.phase = Phase::Failing(ExchangeError::Transport);
                },
            },
            Phase::Releasing => {
                self.phase = Phase::Finished;
            },
            Phase::Failing(e) => {
                self.phase = Phase::Aborted(e);
            },
            Phase::Finished => {},
            Phase::Aborted(_) => {},
        }
        self.pending()
    }

    /// The frame to write when the pending operation is `WriteFrame`.
    pub fn frame(&self) -> (bytes: &[u8])
        ensures
            bytes@ == self@.frame,
    {
        self.frame.as_slice()
    }

    /// The response received so far; the whole response once the pending
    /// operation is `Decode`.
    pub fn response(&self) -> (bytes: &[u8])
        ensures
            bytes@ == self@.assembly.response,
    {
        self.reassembler.response()
    }

    /// The command code under which the response is to be decoded.
    pub fn cmd_code(&self) -> (code: u16)
        ensures
            code == self@.assembly.cmd_code,
    {
        self.reassembler.cmd_code()
    }
}

proof fn lemma_past_writing(state: ExchangeState, signals: Seq<Signal>)
    requires
        state.phase != Phase::Acquiring,
        state.phase != Phase::Clearing,
        state.phase != Phase::Writing,
    ensures
        state.run(signals).phase != Phase::Acquiring,
        state.run(signals).phase != Phase::Clearing,
        state.run(signals).phase != Phase::Writing,
    decreases signals.len(),
{
    if signals.len() > 0 {
        lemma_past_writing(state.next(signals[0]), signals.drop_first());
    }
}

/// Every exchange opens by taking hold of the channel and clearing its
/// input, and the frame is written once only, right after that clear has
/// been carried out: whatever signals arrive, the exchange asks for the
/// write exactly when the signals so far are the completion of the hold and
/// the completion of the clear.
pub proof fn lemma_write_follows_clear(frame: Seq<u8>, signals: Seq<Signal>)
    ensures
        ExchangeState::initial(frame).pending() == Action::Acquire,
        ExchangeState::initial(frame).next(Signal::Completed).pending() == Action::ClearInput,
        ExchangeState::initial(frame).run(signals).pending() == Action::WriteFrame <==> (
        signals.len() == 2 && signals[0] == Signal::Completed && signals[1] == Signal::Completed),
{
    let start = ExchangeState::initial(frame);
    if signals.len() >= 1 {
        let first = start.next(signals[0]);
        let rest = signals.drop_first();
        assert(start.run(signals) == first.run(rest));
        if rest.len() == 0 {
            assert(first.run(rest) == first);
        } else {
            let second = first.next(rest[0]);
            let tail = rest.drop_first();
            assert(first.run(rest) == second.run(tail));
            assert(rest[0] == signals[1]);
            if tail.len() == 0 {
                assert(second.run(tail) == second);
            } else {
                let third = second.next(tail[0]);
                assert(second.run(tail) == third.run(tail.drop_first()));
                lemma_past_writing(third, tail.drop_first());
            }
        }
    }
}

/// A run of signals keeps an exchange within the states it can reach.
pub proof fn lemma_run_wf(state: ExchangeState, signals: Seq<Signal>)
    requires
        state.wf(),
    ensures
        state.run(signals).wf(),
    decreases signals.len(),
{
    if signals.len() > 0 {
        lemma_run_wf(state.next(signals[0]), signals.drop_first());
    }
}

/// A bus-transport header whose length byte lies outside the accepted range
/// ends the exchange with a protocol error before anything more is read:
/// the channel is given up, the error is reported, and the response
/// gathered so far stays as it was.
pub proof fn lemma_length_out_of_bounds_aborts(
    state: ExchangeState,
    header: Seq<u8>,
    signal: Signal,
)
    requires
        state.phase == Phase::AwaitingHeader,
        header.len() == SMBUS_HEADER_SZ,
        !length_in_bounds(header[SMBUS_LEN_IDX as int]),
    ensures
        state.next(Signal::Received(header)).pending() == Action::Release,
        state.next(Signal::Received(header)).next(signal).pending() == Action::Abort(
            ExchangeError::Protocol(
                ProtocolFault::InvalidPacketLength(header[SMBUS_LEN_IDX as int]),
            ),
        ),
        state.next(Signal::Received(header)).next(signal).assembly == state.assembly,
{
}

/// A channel operation that fails ends the exchange with a transport error,
/// whatever the operation was: the channel is given up and the error
/// reported.
pub proof fn lemma_io_failure_aborts(state: ExchangeState, signal: Signal)
    requires
        state.pending().touches_channel(),
    ensures
        state.next(Signal::IoFailed).pending() == Action::Release,
        state.next(Signal::IoFailed).next(signal).pending() == Action::Abort(
            ExchangeError::Transport,
        ),
{
}

/// Once finished or aborted, an exchange ignores every further signal.
pub proof fn lemma_ended_is_absorbing(state: ExchangeState, signals: Seq<Signal>)
    requires
        state.phase == Phase::Finished || state.phase is Aborted,
    ensures
        state.run(signals) == state,
    decreases signals.len(),
{
    if signals.len() > 0 {
        lemma_ended_is_absorbing(state, signals.drop_first());
    }
}

/// An exchange touches the channel only while it holds it, and reports its
/// outcome only after it has given the channel up.
pub proof fn lemma_operations_need_the_hold(state: ExchangeState)
    ensures
        state.pending().touches_channel() ==> state.phase.holds_channel(),
        state.pending() == Action::Release ==> state.phase.holds_channel(),
        state.pending() == Action::Acquire ==> !state.phase.holds_channel(),
        (state.pending() == Action::Decode || state.pending() is Abort)
            ==> !state.phase.holds_channel(),
{
}

/// The hold of the channel changes hands only through `Acquire` and
/// `Release`: a step gains the hold exactly when it completes an `Acquire`,
/// and loses it exactly when it was a `Release`.
pub proof fn lemma_hold_changes_by_acquire_and_release(state: ExchangeState, signal: Signal)
    ensures
        !state.phase.holds_channel() && state.next(signal).phase.holds_channel() <==> (
        state.pending() == Action::Acquire && signal == Signal::Completed),
        state.phase.holds_channel() && !state.next(signal).phase.holds_channel() <==> state.pending()
            == Action::Release,
{
}

} // verus!
