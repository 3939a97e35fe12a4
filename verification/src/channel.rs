//! A model of the duplex byte channel and of the peer behind it, and what
//! exchanges achieve when their operations are carried out on that model.
//!
//! The model is this: the channel is held by at most one exchange, and an
//! exchange that asks for the hold waits while another has it; clearing
//! empties the input buffer; a write appends the frame to what the peer has
//! been sent; the peer's reply arrives in the input buffer when the request
//! is flushed; a read takes bytes from the front of the input buffer and
//! fails (times out) when too few are there.

use crate::frame::{
    be_u16, has_eom, parse_packet, BUFFER_SZ, HEADER_SZ, MCTP_FLAGS_IDX, SMBUS_HEADER_SZ,
    SMBUS_LEN_IDX,
};
use crate::reassembly::{
    accept, closes_message, fragments_of, lemma_reassembly_concatenates, reassemble_from,
    well_sequenced, Assembly,
};
use crate::session::{Action, ExchangeState, Phase, Signal};
use vstd::prelude::*;

verus! {

/// The channel as the exchanges see it.
pub struct Channel {
    /// Bytes buffered for reading, oldest first.
    pub inbound: Seq<u8>,
    /// Every byte written so far.
    pub outbound: Seq<u8>,
    /// Whether an exchange has the hold of the channel.
    pub held: bool,
}

/// Carries out one operation of an exchange whose request frame is `frame`,
/// on a channel whose peer answers a flushed request with `reply`. No
/// signal comes back while the exchange has to wait for the hold.
pub open spec fn perform(action: Action, frame: Seq<u8>, channel: Channel, reply: Seq<u8>) -> (
    Channel,
    Option<Signal>,
) {
    match action {
        Action::Acquire => if channel.held {
            (channel, None)
        } else {
            (Channel { held: true, ..channel }, Some(Signal::Completed))
        },
        Action::ClearInput => (
            Channel { inbound: Seq::empty(), ..channel },
            Some(Signal::Completed),
        ),
        Action::WriteFrame => (
            Channel { outbound: channel.outbound + frame, ..channel },
            Some(Signal::Completed),
        ),
        Action::Flush => (
            Channel { inbound: channel.inbound + reply, ..channel },
            Some(Signal::Completed),
        ),
        Action::Read { len, .. } => if len <= channel.inbound.len() {
            (
                Channel { inbound: channel.inbound.skip(len as int), ..channel },
                Some(Signal::Received(channel.inbound.take(len as int))),
            )
        } else {
            (channel, Some(Signal::IoFailed))
        },
        Action::Release => (Channel { held: false, ..channel }, Some(Signal::Completed)),
        Action::Decode => (channel, Some(Signal::Completed)),
        Action::Abort(_) => (channel, Some(Signal::Completed)),
    }
}

/// The state after the signal, if one came back.
pub open spec fn after(state: ExchangeState, signal: Option<Signal>) -> ExchangeState {
    match signal {
        Some(signal) => state.next(signal),
        None => state,
    }
}

/// Runs an exchange for `steps` operations against the channel.
pub open spec fn drive(state: ExchangeState, channel: Channel, reply: Seq<u8>, steps: nat) -> (
    ExchangeState,
    Channel,
)
    decreases steps,
{
    if steps == 0 {
        (state, channel)
    } else {
        let (channel, signal) = perform(state.pending(), state.frame, channel, reply);
        drive(after(state, signal), channel, reply, (steps - 1) as nat)
    }
}

/// A finished or aborted exchange touches the channel no more.
pub proof fn lemma_drive_ended(state: ExchangeState, channel: Channel, reply: Seq<u8>, steps: nat)
    requires
        state.phase == Phase::Finished || state.phase is Aborted,
    ensures
        drive(state, channel, reply, steps) == (state, channel),
    decreases steps,
{
    if steps > 0 {
        lemma_drive_ended(state, channel, reply, (steps - 1) as nat);
    }
}

/// Bytes left in the input buffer by an earlier exchange have no effect on
/// the next one: once it has the hold and has cleared the input, the
/// exchange runs as it would on a channel with nothing buffered.
pub proof fn lemma_stale_input_discarded(
    frame: Seq<u8>,
    stale: Seq<u8>,
    outbound: Seq<u8>,
    reply: Seq<u8>,
    steps: nat,
)
    requires
        steps >= 2,
    ensures
        drive(
            ExchangeState::initial(frame),
            Channel { inbound: stale, outbound, held: false },
            reply,
            steps,
        ) == drive(
            ExchangeState::initial(frame),
            Channel { inbound: Seq::empty(), outbound, held: false },
            reply,
            steps,
        ),
{
    let start = ExchangeState::initial(frame);
    let held = start.next(Signal::Completed);
    assert(drive(start, Channel { inbound: stale, outbound, held: false }, reply, steps) == drive(
        held,
        Channel { inbound: stale, outbound, held: true },
        reply,
        (steps - 1) as nat,
    ));
    assert(drive(start, Channel { inbound: Seq::empty(), outbound, held: false }, reply, steps)
        == drive(
        held,
        Channel { inbound: Seq::empty(), outbound, held: true },
        reply,
        (steps - 1) as nat,
    ));
}

/// The packets of a reply, end to end, as they arrive in the input buffer.
pub open spec fn wire_bytes(packets: Seq<Seq<u8>>) -> Seq<u8> {
    packets.flatten()
}

proof fn lemma_wire_unfold(packets: Seq<Seq<u8>>)
    requires
        packets.len() >= 1,
    ensures
        wire_bytes(packets) == packets[0] + wire_bytes(packets.drop_first()),
{
}

proof fn lemma_drive_reads(
    state: ExchangeState,
    channel: Channel,
    reply: Seq<u8>,
    packets: Seq<Seq<u8>>,
    steps: nat,
)
    requires
        state.phase == Phase::AwaitingHeader,
        packets.len() >= 1,
        channel.inbound == wire_bytes(packets),
        forall|i: int|
            0 <= i < packets.len() ==> {
                &&& parse_packet(#[trigger] packets[i]) is Ok
                &&& (has_eom(packets[i][MCTP_FLAGS_IDX as int]) <==> i == packets.len() - 1)
            },
        reassemble_from(state.assembly, packets) is Complete,
        steps >= 2 * packets.len() + 1,
    ensures
        ({
            let (end, after) = drive(state, channel, reply, steps);
            &&& end.phase == Phase::Finished
            &&& end.frame == state.frame
            &&& end.assembly == reassemble_from(state.assembly, packets)->Complete_assembly
            &&& after.inbound == Seq::<u8>::empty()
            &&& after.outbound == channel.outbound
            &&& !after.held
        }),
    decreases packets.len(),
{
    let first = packets[0];
    let rest = packets.drop_first();
    let len = first[SMBUS_LEN_IDX as int];
    lemma_wire_unfold(packets);
    assert(parse_packet(first) is Ok);
    assert(first.len() == SMBUS_HEADER_SZ + len);

    // the bus-transport header
    let (channel1, signal1) = perform(state.pending(), state.frame, channel, reply);
    let header = channel.inbound.take(SMBUS_HEADER_SZ as int);
    assert(header =~= first.take(SMBUS_HEADER_SZ as int));
    assert(signal1 == Some(Signal::Received(header)));
    let state1 = after(state, signal1);
    assert(state1.phase == Phase::AwaitingBody);
    assert(state1.bus_header == header);
    assert(header[SMBUS_LEN_IDX as int] == len);

    // the rest of the packet
    let (channel2, signal2) = perform(state1.pending(), state1.frame, channel1, reply);
    let body = channel1.inbound.take(len as int);
    assert(body =~= first.skip(SMBUS_HEADER_SZ as int));
    assert(signal2 == Some(Signal::Received(body)));
    assert(header + body =~= first);
    let state2 = after(state1, signal2);
    assert(channel2.inbound =~= wire_bytes(rest));
    assert(drive(state, channel, reply, steps) == drive(
        state2,
        channel2,
        reply,
        (steps - 2) as nat,
    )) by {
        assert(drive(state, channel, reply, steps) == drive(
            state1,
            channel1,
            reply,
            (steps - 1) as nat,
        ));
    }
    let next = accept(state.assembly, first)->Ok_0;
    assert(accept(state.assembly, first) is Ok);
    if packets.len() == 1 {
        assert(closes_message(first));
        assert(state2.phase == Phase::Releasing);
        assert(wire_bytes(rest) =~= Seq::<u8>::empty());
        let (channel3, signal3) = perform(state2.pending(), state2.frame, channel2, reply);
        let state3 = after(state2, signal3);
        assert(drive(state2, channel2, reply, (steps - 2) as nat) == drive(
            state3,
            channel3,
            reply,
            (steps - 3) as nat,
        ));
        lemma_drive_ended(state3, channel3, reply, (steps - 3) as nat);
    } else {
        assert(!closes_message(first));
        assert(state2.phase == Phase::AwaitingHeader);
        assert forall|i: int| 0 <= i < rest.len() implies {
            &&& parse_packet(#[trigger] rest[i]) is Ok
            &&& (has_eom(rest[i][MCTP_FLAGS_IDX as int]) <==> i == rest.len() - 1)
        } by {
            assert(rest[i] == packets[i + 1]);
        }
        assert(reassemble_from(next, rest) is Complete);
        lemma_drive_reads(state2, channel2, reply, rest, (steps - 2) as nat);
    }
}

/// An exchange against a peer that answers with a well-sequenced packet
/// stream delivers that stream's payload, whatever was left in the input
/// buffer beforehand: after the hold, the clear, the write, the flush, two
/// reads per packet and the release, the exchange is finished, the frame
/// and nothing else has been written, the input buffer is empty, the
/// channel is free again, and the response is the concatenation of the
/// fragments under the command code of the first packet.
pub proof fn lemma_exchange_delivers(
    frame: Seq<u8>,
    stale: Seq<u8>,
    outbound: Seq<u8>,
    packets: Seq<Seq<u8>>,
    steps: nat,
)
    requires
        packets.len() >= 1,
        well_sequenced(packets),
        fragments_of(packets).flatten().len() <= BUFFER_SZ,
        steps >= 5 + 2 * packets.len(),
    ensures
        ({
            let (end, after) = drive(
                ExchangeState::initial(frame),
                Channel { inbound: stale, outbound, held: false },
                wire_bytes(packets),
                steps,
            );
            &&& end.pending() == Action::Decode
            &&& end.assembly == Assembly {
                response: fragments_of(packets).flatten(),
                cmd_code: be_u16(packets[0][HEADER_SZ as int], packets[0][HEADER_SZ as int + 1]),
            }
            &&& after.outbound == outbound + frame
            &&& after.inbound == Seq::<u8>::empty()
            &&& !after.held
        }),
{
    let reply = wire_bytes(packets);
    let start = ExchangeState::initial(frame);
    let channel0 = Channel { inbound: stale, outbound, held: false };
    let holding = start.next(Signal::Completed);
    let channel1 = Channel { inbound: stale, outbound, held: true };
    let cleared = holding.next(Signal::Completed);
    let channel2 = Channel { inbound: Seq::empty(), outbound, held: true };
    let written = cleared.next(Signal::Completed);
    let channel3 = Channel { inbound: Seq::empty(), outbound: outbound + frame, held: true };
    let flushed = written.next(Signal::Completed);
    let channel4 = Channel {
        inbound: Seq::<u8>::empty() + reply,
        outbound: outbound + frame,
        held: true,
    };
    assert(drive(start, channel0, reply, steps) == drive(
        holding,
        channel1,
        reply,
        (steps - 1) as nat,
    ));
    assert(drive(holding, channel1, reply, (steps - 1) as nat) == drive(
        cleared,
        channel2,
        reply,
        (steps - 2) as nat,
    ));
    assert(drive(cleared, channel2, reply, (steps - 2) as nat) == drive(
        written,
        channel3,
        reply,
        (steps - 3) as nat,
    ));
    assert(drive(written, channel3, reply, (steps - 3) as nat) == drive(
        flushed,
        channel4,
        reply,
        (steps - 4) as nat,
    ));
    assert(channel4.inbound =~= reply);
    lemma_reassembly_concatenates(packets, fragments_of(packets));
    lemma_drive_reads(flushed, channel4, reply, packets, (steps - 4) as nat);
}

/// One of two exchanges that share a channel.
pub enum Party {
    First,
    Second,
}

/// One turn of a party: it carries out its pending operation. `fault` makes
/// a channel operation fail; `reply` is what the peer sends if the
/// operation is a flush.
pub struct Turn {
    pub party: Party,
    pub fault: bool,
    pub reply: Seq<u8>,
}

/// Two exchanges on one channel.
pub struct Contention {
    pub first: ExchangeState,
    pub second: ExchangeState,
    pub channel: Channel,
}

impl Contention {
    /// Two exchanges that have just begun, on a free channel.
    pub open spec fn initial(
        first_frame: Seq<u8>,
        second_frame: Seq<u8>,
        inbound: Seq<u8>,
        outbound: Seq<u8>,
    ) -> Contention {
        Contention {
            first: ExchangeState::initial(first_frame),
            second: ExchangeState::initial(second_frame),
            channel: Channel { inbound, outbound, held: false },
        }
    }

    /// The exchange of a party.
    pub open spec fn of(self, party: Party) -> ExchangeState {
        match party {
            Party::First => self.first,
            Party::Second => self.second,
        }
    }

    /// The state after one turn.
    pub open spec fn take_turn(self, turn: Turn) -> Contention {
        let state = self.of(turn.party);
        let (channel, signal) = if turn.fault && state.pending().touches_channel() {
            (self.channel, Some(Signal::IoFailed))
        } else {
            perform(state.pending(), state.frame, self.channel, turn.reply)
        };
        match turn.party {
            Party::First => Contention { first: after(state, signal), channel, ..self },
            Party::Second => Contention { second: after(state, signal), channel, ..self },
        }
    }

    /// The state after a run of turns, in whatever order the parties move.
    pub open spec fn contend(self, turns: Seq<Turn>) -> Contention
        decreases turns.len(),
    {
        if turns.len() == 0 {
            self
        } else {
            self.take_turn(turns[0]).contend(turns.drop_first())
        }
    }

    /// At most one exchange holds the channel, and the channel is held
    /// exactly when one does.
    pub open spec fn exclusive(self) -> bool {
        &&& !(self.first.phase.holds_channel() && self.second.phase.holds_channel())
        &&& self.channel.held == (self.first.phase.holds_channel()
            || self.second.phase.holds_channel())
    }
}

proof fn lemma_turn_keeps_exclusive(state: Contention, turn: Turn)
    requires
        state.exclusive(),
    ensures
        state.take_turn(turn).exclusive(),
{
}

proof fn lemma_contend_keeps_exclusive(state: Contention, turns: Seq<Turn>)
    requires
        state.exclusive(),
    ensures
        state.contend(turns).exclusive(),
    decreases turns.len(),
{
    if turns.len() > 0 {
        lemma_turn_keeps_exclusive(state, turns[0]);
        lemma_contend_keeps_exclusive(state.take_turn(turns[0]), turns.drop_first());
    }
}

/// Two exchanges on one channel never interleave their writes and reads:
/// in whatever order they move, and wherever operations fail, whenever one
/// of them is about to touch the channel the other holds it not, that is,
/// has not taken hold of it yet or has given it up for good. An exchange
/// writes its frame only while the other is outside its own hold.
pub proof fn lemma_exchanges_never_interleave(
    first_frame: Seq<u8>,
    second_frame: Seq<u8>,
    inbound: Seq<u8>,
    outbound: Seq<u8>,
    turns: Seq<Turn>,
)
    ensures
        ({
            let end = Contention::initial(first_frame, second_frame, inbound, outbound).contend(
                turns,
            );
            &&& end.exclusive()
            &&& end.first.pending().touches_channel() ==> !end.second.phase.holds_channel()
            &&& end.second.pending().touches_channel() ==> !end.first.phase.holds_channel()
            &&& !(end.first.pending().touches_channel() && end.second.pending().touches_channel())
        }),
{
    lemma_contend_keeps_exclusive(
        Contention::initial(first_frame, second_frame, inbound, outbound),
        turns,
    );
}

} // verus!
