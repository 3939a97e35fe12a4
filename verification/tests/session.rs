use ec_demo::error::{ExchangeError, ProtocolFault};
use ec_demo::frame::Destination;
use ec_demo::session::{Action, Event, Exchange, READ_TIMEOUT_MS};
use std::collections::VecDeque;

/// A duplex channel in memory: the peer's reply arrives when the request is
/// flushed, and a read of more bytes than are buffered times out.
struct Loopback {
    inbound: VecDeque<u8>,
    written: Vec<u8>,
    reply: Vec<u8>,
    held: bool,
    log: Vec<Action>,
}

impl Loopback {
    fn new(stale: &[u8]) -> Self {
        Loopback {
            inbound: stale.iter().copied().collect(),
            written: Vec::new(),
            reply: Vec::new(),
            held: false,
            log: Vec::new(),
        }
    }

    fn exchange(
        &mut self,
        dst: Destination,
        code: u16,
        message: &[u8],
        reply: &[u8],
    ) -> Result<(u16, Vec<u8>), ExchangeError> {
        self.reply = reply.to_vec();
        let mut exchange = Exchange::begin(dst, code, message)?;
        loop {
            let action = exchange.pending();
            self.log.push(action);
            let event = match action {
                Action::Acquire => {
                    assert!(!self.held);
                    self.held = true;
                    Event::Completed
                }
                Action::ClearInput => {
                    assert!(self.held);
                    self.inbound.clear();
                    Event::Completed
                }
                Action::WriteFrame => {
                    assert!(self.held);
                    self.written.extend_from_slice(exchange.frame());
                    Event::Completed
                }
                Action::Flush => {
                    assert!(self.held);
                    self.inbound.extend(self.reply.iter().copied());
                    Event::Completed
                }
                Action::Read { len, timeout_ms } => {
                    assert!(self.held);
                    assert_eq!(timeout_ms, READ_TIMEOUT_MS);
                    if self.inbound.len() < len {
                        Event::IoFailed
                    } else {
                        Event::Received(self.inbound.drain(..len).collect())
                    }
                }
                Action::Release => {
                    assert!(self.held);
                    self.held = false;
                    Event::Completed
                }
                Action::Decode => {
                    assert!(!self.held);
                    return Ok((exchange.cmd_code(), exchange.response().to_vec()));
                }
                Action::Abort(e) => {
                    assert!(!self.held);
                    return Err(e);
                }
            };
            assert_eq!(exchange.step(event), exchange.pending());
        }
    }
}

fn read(len: usize) -> Action {
    Action::Read { len, timeout_ms: 1000 }
}

fn first_packet(flags: u8, code: u16, fragment: &[u8]) -> Vec<u8> {
    let len = (5 + 2 + 2 + fragment.len()) as u8;
    let mut p = vec![
        0x02,
        0x0F,
        len,
        0x01,
        0x01,
        0x09,
        flags | 0x80,
        0xD3,
        0x7D,
        0x02,
        0x09,
        (code >> 8) as u8,
        code as u8,
    ];
    p.extend_from_slice(fragment);
    p
}

fn next_packet(flags: u8, fragment: &[u8]) -> Vec<u8> {
    let len = (5 + fragment.len()) as u8;
    let mut p = vec![0x02, 0x0F, len, 0x01, 0x01, 0x09, flags & 0x7F, 0xD3, 0x7D];
    p.extend_from_slice(fragment);
    p
}

#[test]
fn read_timeout_is_one_second() {
    assert_eq!(READ_TIMEOUT_MS, 1000);
}

#[test]
fn operations_come_in_order() {
    let mut channel = Loopback::new(&[]);
    let reply = first_packet(0x40, 0x0102, &[5, 6, 7]);
    let got = channel.exchange(Destination::Thermal, 0x0102, &[1, 2, 3, 4], &reply);
    assert_eq!(got, Ok((0x0102, vec![5, 6, 7])));
    assert_eq!(
        channel.log,
        vec![
            Action::Acquire,
            Action::ClearInput,
            Action::WriteFrame,
            Action::Flush,
            read(4),
            read(12),
            Action::Release,
            Action::Decode
        ]
    );
    assert_eq!(
        channel.written,
        vec![
            0x02, 0x0F, 0x0D, 0x01, 0x01, 0x09, 0x80, 0xD3, 0x7D, 0x02, 0x09, 0x01, 0x02, 1, 2, 3,
            4
        ]
    );
}

#[test]
fn multi_packet_exchange() {
    let mut channel = Loopback::new(&[]);
    let payload: Vec<u8> = (0..150u8).collect();
    let mut reply = first_packet(0, 0x0304, &payload[..60]);
    reply.extend(next_packet(0, &payload[60..124]));
    reply.extend(next_packet(0x40, &payload[124..]));
    let got = channel.exchange(Destination::Battery, 0x0304, &[0], &reply);
    assert_eq!(got, Ok((0x0304, payload)));
    assert_eq!(
        channel.log,
        vec![
            Action::Acquire,
            Action::ClearInput,
            Action::WriteFrame,
            Action::Flush,
            read(4),
            read(69),
            read(4),
            read(69),
            read(4),
            read(31),
            Action::Release,
            Action::Decode
        ]
    );
    assert!(channel.inbound.is_empty());
}

#[test]
fn oversized_request_fails_before_any_operation() {
    let mut channel = Loopback::new(&[1, 2, 3]);
    let message = vec![0u8; 244];
    let got = channel.exchange(Destination::Battery, 1, &message, &[]);
    assert_eq!(got, Err(ExchangeError::Serialization));
    assert!(channel.log.is_empty());
    assert!(channel.written.is_empty());
    assert_eq!(channel.inbound.len(), 3);
    assert!(Exchange::begin(Destination::Battery, 1, &vec![0u8; 243]).is_ok());
}

#[test]
fn stale_input_from_a_failed_exchange_is_discarded() {
    // garbage is buffered, and the peer answers the first request with a
    // truncated packet: the read of its body times out
    let mut channel = Loopback::new(&[0xDE, 0xAD, 0xBE, 0xEF, 0x99]);
    let mut truncated = first_packet(0x40, 0x0102, &[1, 2, 3, 4, 5, 6]);
    truncated.truncate(10);
    let got = channel.exchange(Destination::Thermal, 0x0102, &[1], &truncated);
    assert_eq!(got, Err(ExchangeError::Transport));
    // the bytes of the truncated packet are still buffered
    assert_eq!(channel.inbound.len(), 6);
    // the channel was given up before the failure was reported
    assert_eq!(
        &channel.log[channel.log.len() - 2..],
        &[Action::Release, Action::Abort(ExchangeError::Transport)]
    );

    // the next exchange receives its own response all the same
    channel.log.clear();
    let reply = first_packet(0x40, 0x0A0B, &[42, 43]);
    let got = channel.exchange(Destination::Thermal, 0x0A0B, &[2], &reply);
    assert_eq!(got, Ok((0x0A0B, vec![42, 43])));
    assert_eq!(channel.log[0], Action::Acquire);
    assert_eq!(channel.log[1], Action::ClearInput);
    assert_eq!(channel.log[2], Action::WriteFrame);
}

/// An exchange that holds the channel and has cleared, written and flushed.
fn exchange_awaiting_header() -> Exchange {
    let mut exchange = Exchange::begin(Destination::Thermal, 1, &[]).unwrap();
    assert_eq!(exchange.pending(), Action::Acquire);
    assert_eq!(exchange.step(Event::Completed), Action::ClearInput);
    assert_eq!(exchange.step(Event::Completed), Action::WriteFrame);
    assert_eq!(exchange.step(Event::Completed), Action::Flush);
    assert_eq!(exchange.step(Event::Completed), read(4));
    exchange
}

#[test]
fn garbage_without_clear_would_have_been_read() {
    // what the clear defends against: the same garbage, read as a header,
    // is a protocol error
    let mut exchange = exchange_awaiting_header();
    assert_eq!(exchange.step(Event::Received(vec![0xDE, 0xAD, 0xBE, 0xEF])), Action::Release);
    assert_eq!(
        exchange.step(Event::Completed),
        Action::Abort(ExchangeError::Protocol(ProtocolFault::InvalidPacketLength(0xBE)))
    );
}

#[test]
fn length_bytes_3_and_70_abort_the_exchange() {
    for len in [3u8, 70] {
        let mut exchange = exchange_awaiting_header();
        assert_eq!(
            exchange.step(Event::Received(vec![0x02, 0x0F, len, 0x01])),
            Action::Release
        );
        let action = exchange.step(Event::Completed);
        assert_eq!(
            action,
            Action::Abort(ExchangeError::Protocol(ProtocolFault::InvalidPacketLength(len)))
        );
        assert!(exchange.response().is_empty());
        // the exchange stays aborted
        assert_eq!(exchange.step(Event::Completed), action);
        assert_eq!(exchange.step(Event::Received(vec![1, 2, 3, 4])), action);
    }
}

#[test]
fn io_failure_aborts_in_every_phase() {
    let reply = first_packet(0x40, 1, &[1]);
    for failing in 0..6 {
        let mut exchange = Exchange::begin(Destination::Thermal, 1, &[]).unwrap();
        let script = [
            Event::Completed,
            Event::Completed,
            Event::Completed,
            Event::Completed,
            Event::Received(reply[..4].to_vec()),
            Event::Received(reply[4..].to_vec()),
        ];
        let mut last = exchange.pending();
        for (i, event) in script.into_iter().enumerate() {
            if i == failing {
                last = exchange.step(Event::IoFailed);
                break;
            }
            last = exchange.step(event);
        }
        if failing == 0 {
            // the hold was never had, so there is nothing to give up
            assert_eq!(last, Action::Abort(ExchangeError::Transport));
        } else {
            assert_eq!(last, Action::Release);
            assert_eq!(exchange.step(Event::Completed), Action::Abort(ExchangeError::Transport));
        }
    }
}

#[test]
fn release_leads_to_the_outcome_whatever_comes_of_it() {
    let mut exchange = exchange_awaiting_header();
    assert_eq!(exchange.step(Event::IoFailed), Action::Release);
    assert_eq!(exchange.step(Event::IoFailed), Action::Abort(ExchangeError::Transport));

    let mut exchange = exchange_awaiting_header();
    let reply = first_packet(0x40, 1, &[1]);
    exchange.step(Event::Received(reply[..4].to_vec()));
    assert_eq!(exchange.step(Event::Received(reply[4..].to_vec())), Action::Release);
    assert_eq!(exchange.step(Event::IoFailed), Action::Decode);
}

#[test]
fn unexpected_events_are_transport_errors() {
    let mut exchange = Exchange::begin(Destination::Thermal, 1, &[]).unwrap();
    assert_eq!(
        exchange.step(Event::Received(vec![1])),
        Action::Abort(ExchangeError::Transport)
    );

    // a read that returns fewer bytes than asked for
    let mut exchange = exchange_awaiting_header();
    assert_eq!(exchange.step(Event::Received(vec![0x02, 0x0F, 9])), Action::Release);
    assert_eq!(exchange.step(Event::Completed), Action::Abort(ExchangeError::Transport));

    let mut exchange = exchange_awaiting_header();
    assert_eq!(exchange.step(Event::Received(vec![0x02, 0x0F, 9, 0x01])), read(9));
    assert_eq!(exchange.step(Event::Received(vec![0; 8])), Action::Release);
    assert_eq!(exchange.step(Event::Completed), Action::Abort(ExchangeError::Transport));

    // a completion where bytes were asked for
    let mut exchange = exchange_awaiting_header();
    assert_eq!(exchange.step(Event::Completed), Action::Release);
    assert_eq!(exchange.step(Event::Completed), Action::Abort(ExchangeError::Transport));
}

#[test]
fn finished_exchange_stays_finished() {
    let mut exchange = Exchange::begin(Destination::TimeAlarm, 0x0B0C, &[]).unwrap();
    assert_eq!(
        exchange.frame(),
        &[0x02, 0x0F, 0x09, 0x01, 0x01, 0x0B, 0x80, 0xD3, 0x7D, 0x02, 0x0B, 0x0B, 0x0C]
    );
    exchange.step(Event::Completed);
    exchange.step(Event::Completed);
    exchange.step(Event::Completed);
    exchange.step(Event::Completed);
    let reply = first_packet(0x40, 0x0B0C, &[1, 2]);
    exchange.step(Event::Received(reply[..4].to_vec()));
    assert_eq!(exchange.step(Event::Received(reply[4..].to_vec())), Action::Release);
    assert_eq!(exchange.step(Event::Completed), Action::Decode);
    assert_eq!(exchange.step(Event::IoFailed), Action::Decode);
    assert_eq!(exchange.step(Event::Received(vec![9; 4])), Action::Decode);
    assert_eq!(exchange.response(), &[1, 2]);
    assert_eq!(exchange.cmd_code(), 0x0B0C);
}

/// Two exchanges on one channel, moved in turns; an exchange that asks for
/// the hold while the other has it makes no move.
fn contend(order: &[usize]) -> Vec<(usize, Action)> {
    let replies = [first_packet(0x40, 0x0101, &[1, 1, 1]), first_packet(0x40, 0x0202, &[2, 2])];
    let mut exchanges = [
        Exchange::begin(Destination::Thermal, 0x0101, &[0xA1]).unwrap(),
        Exchange::begin(Destination::Battery, 0x0202, &[0xB2]).unwrap(),
    ];
    let mut inbound: VecDeque<u8> = VecDeque::new();
    let mut holder: Option<usize> = None;
    let mut log = Vec::new();
    for who in order.iter().copied().cycle().take(200) {
        let action = exchanges[who].pending();
        let event = match action {
            Action::Acquire => {
                if holder.is_some() {
                    continue;
                }
                holder = Some(who);
                Event::Completed
            }
            Action::Release => {
                assert_eq!(holder, Some(who));
                holder = None;
                Event::Completed
            }
            Action::Decode | Action::Abort(_) => continue,
            Action::ClearInput => {
                inbound.clear();
                Event::Completed
            }
            Action::WriteFrame => Event::Completed,
            Action::Flush => {
                inbound.extend(replies[who].iter().copied());
                Event::Completed
            }
            Action::Read { len, .. } => {
                if inbound.len() < len {
                    Event::IoFailed
                } else {
                    Event::Received(inbound.drain(..len).collect())
                }
            }
        };
        if !matches!(action, Action::Acquire | Action::Release) {
            assert_eq!(holder, Some(who));
        }
        log.push((who, action));
        exchanges[who].step(event);
    }
    assert_eq!(exchanges[0].pending(), Action::Decode);
    assert_eq!(exchanges[0].response(), &[1, 1, 1]);
    assert_eq!(exchanges[0].cmd_code(), 0x0101);
    assert_eq!(exchanges[1].pending(), Action::Decode);
    assert_eq!(exchanges[1].response(), &[2, 2]);
    assert_eq!(exchanges[1].cmd_code(), 0x0202);
    log
}

#[test]
fn two_exchanges_never_interleave() {
    for order in [vec![0, 1], vec![1, 0], vec![0, 0, 1], vec![1, 1, 1, 0], vec![0, 1, 1, 0, 1]] {
        let log = contend(&order);
        assert_eq!(log.len(), 14);
        // whoever moves first keeps the channel until it has given it up
        let first = log[0].0;
        assert!(log[..7].iter().all(|(who, _)| *who == first));
        assert!(log[7..].iter().all(|(who, _)| *who != first));
        assert_eq!(log[6].1, Action::Release);
        assert_eq!(log[7].1, Action::Acquire);
        assert_eq!(log[9].1, Action::WriteFrame);
    }
}

#[test]
fn response_beyond_capacity_aborts_the_exchange() {
    let mut channel = Loopback::new(&[]);
    let mut reply = first_packet(0, 1, &[0; 60]);
    for _ in 0..3 {
        reply.extend(next_packet(0, &[0; 64]));
    }
    reply.extend(next_packet(0x40, &[0; 5]));
    let got = channel.exchange(Destination::Battery, 1, &[], &reply);
    assert_eq!(got, Err(ExchangeError::Protocol(ProtocolFault::ResponseTooLarge)));
}
