use relay_console::session::{
    after_enqueue, after_write, feed_step, next_write, outbound_step, read_chunk, receive,
    relay_read, RelayEnd, RelayStep, SessionBus, SessionStreams, WriteStep, READ_CHUNK,
};
use relay_console::terminal::Terminal;

fn closed_for_sending() -> SessionStreams {
    let (sender, receiver) = crossbeam::channel::unbounded();
    drop(receiver);
    let (_, unused) = crossbeam::channel::unbounded();
    SessionStreams { sender, receiver: unused }
}

#[test]
fn read_chunk_size_is_one_kibibyte() {
    assert_eq!(READ_CHUNK, 1024);
}

#[test]
fn streams_deliver_chunks_in_order() {
    let streams = SessionStreams::new();
    assert_eq!(streams.send(b"one".to_vec()), Ok(()));
    assert_eq!(streams.send(b"two".to_vec()), Ok(()));
    assert_eq!(streams.send(Vec::new()), Ok(()));
    assert_eq!(streams.recv(), Some(b"one".to_vec()));
    assert_eq!(streams.recv(), Some(b"two".to_vec()));
    assert_eq!(streams.recv(), Some(Vec::new()));
}

#[test]
fn send_on_a_closed_channel_gives_the_chunk_back() {
    let streams = closed_for_sending();
    assert_eq!(streams.send(b"lost".to_vec()), Err(b"lost".to_vec()));
}

#[test]
fn receive_signals_closure_after_the_queue_is_empty() {
    let streams = SessionStreams::new();
    let receiver = streams.receiver.clone();
    assert_eq!(streams.send(b"last".to_vec()), Ok(()));
    drop(streams);
    assert_eq!(receive(&receiver), Some(b"last".to_vec()));
    assert_eq!(receive(&receiver), None);
    assert_eq!(receive(&receiver), None);
}

#[test]
fn bus_directions_are_separate_channels() {
    let bus = SessionBus::new();
    assert_eq!(bus.c2s.send(b"in".to_vec()), Ok(()));
    assert_eq!(bus.s2c.send(b"out".to_vec()), Ok(()));
    assert_eq!(bus.s2c.recv(), Some(b"out".to_vec()));
    assert_eq!(bus.c2s.recv(), Some(b"in".to_vec()));
}

#[test]
fn cloned_bus_shares_its_channels() {
    let bus = SessionBus::new();
    let other = bus.clone();
    assert_eq!(other.c2s.send(b"shared".to_vec()), Ok(()));
    assert_eq!(bus.c2s.recv(), Some(b"shared".to_vec()));
}

#[test]
fn failed_read_ends_the_loop_with_an_io_error() {
    assert_eq!(read_chunk(None), Err(RelayEnd::IoError));
}

#[test]
fn empty_read_ends_the_loop_as_peer_closed() {
    assert_eq!(read_chunk(Some(&[])), Err(RelayEnd::PeerClosed));
}

#[test]
fn read_bytes_become_the_chunk() {
    assert_eq!(read_chunk(Some(b"abc")), Ok(b"abc".to_vec()));
    assert_eq!(read_chunk(Some(&[0])), Ok(vec![0]));
    let full = [7u8; 1024];
    assert_eq!(read_chunk(Some(&full)), Ok(full.to_vec()));
}

#[test]
fn enqueue_outcome_decides_the_read_loop() {
    assert_eq!(after_enqueue(Ok(())), RelayStep::Continue);
    assert_eq!(after_enqueue(Err(b"x".to_vec())), RelayStep::End(RelayEnd::ChannelClosed));
}

#[test]
fn write_outcome_decides_the_write_loop() {
    assert_eq!(after_write(true), RelayStep::Continue);
    assert_eq!(after_write(false), RelayStep::End(RelayEnd::IoError));
}

#[test]
fn received_chunk_is_written_as_it_is() {
    assert_eq!(outbound_step(Some(b"ab".to_vec())), WriteStep::Write(b"ab".to_vec()));
    assert_eq!(outbound_step(Some(Vec::new())), WriteStep::Write(Vec::new()));
    assert_eq!(outbound_step(None), WriteStep::End(RelayEnd::ChannelClosed));
}

#[test]
fn relay_read_queues_reads_in_order() {
    let bus = SessionBus::new();
    assert_eq!(relay_read(&bus.c2s.sender, Some(b"first")), RelayStep::Continue);
    assert_eq!(relay_read(&bus.c2s.sender, Some(b"second")), RelayStep::Continue);
    assert_eq!(bus.c2s.recv(), Some(b"first".to_vec()));
    assert_eq!(bus.c2s.recv(), Some(b"second".to_vec()));
}

#[test]
fn relay_read_ends_on_close_and_on_error_without_queueing() {
    let bus = SessionBus::new();
    assert_eq!(relay_read(&bus.c2s.sender, Some(&[])), RelayStep::End(RelayEnd::PeerClosed));
    assert_eq!(relay_read(&bus.c2s.sender, None), RelayStep::End(RelayEnd::IoError));
    assert_eq!(bus.c2s.receiver.len(), 0);
}

#[test]
fn relay_read_ends_when_the_channel_is_closed() {
    let bus = SessionBus { c2s: closed_for_sending(), s2c: SessionStreams::new() };
    assert_eq!(relay_read(&bus.c2s.sender, Some(b"late")), RelayStep::End(RelayEnd::ChannelClosed));
}

#[test]
fn write_loop_writes_each_chunk_once_and_in_order() {
    let bus = SessionBus::new();
    let outbound = bus.s2c.receiver.clone();
    assert_eq!(bus.s2c.send(b"ab".to_vec()), Ok(()));
    assert_eq!(bus.s2c.send(b"cd".to_vec()), Ok(()));
    drop(bus);

    let mut socket: Vec<Vec<u8>> = Vec::new();
    let end = loop {
        match next_write(&outbound) {
            WriteStep::Write(chunk) => {
                socket.push(chunk);
                match after_write(true) {
                    RelayStep::Continue => {}
                    RelayStep::End(end) => break end,
                }
            }
            WriteStep::End(end) => break end,
        }
    };
    assert_eq!(socket, vec![b"ab".to_vec(), b"cd".to_vec()]);
    assert_eq!(end, RelayEnd::ChannelClosed);
}

#[test]
fn write_loop_ends_on_a_failed_write() {
    let bus = SessionBus::new();
    assert_eq!(bus.s2c.send(b"ab".to_vec()), Ok(()));
    assert_eq!(bus.s2c.send(b"cd".to_vec()), Ok(()));
    let mut attempts = 0;
    let end = loop {
        match next_write(&bus.s2c.receiver) {
            WriteStep::Write(_) => {
                attempts += 1;
                match after_write(false) {
                    RelayStep::Continue => {}
                    RelayStep::End(end) => break end,
                }
            }
            WriteStep::End(end) => break end,
        }
    };
    assert_eq!(attempts, 1);
    assert_eq!(end, RelayEnd::IoError);
    assert_eq!(bus.s2c.receiver.len(), 1);
}

#[test]
fn feed_step_consumes_a_chunk_and_goes_on() {
    let mut term = Terminal::new(4, 10).expect("a supported size");
    assert!(feed_step(&mut term, Some(b"hi".to_vec())));
    assert_eq!(term.cell(0, 0).text, "h");
    assert_eq!(term.cursor(), (0, 2));
}

#[test]
fn feed_step_stops_on_closure_and_leaves_the_terminal() {
    let mut term = Terminal::new(4, 10).expect("a supported size");
    term.feed(b"hi");
    let before = term.snapshot();
    assert!(!feed_step(&mut term, None));
    assert_eq!(term.snapshot(), before);
}

#[test]
fn feed_loop_ends_when_the_inbound_channel_closes() {
    let bus = SessionBus::new();
    let inbound = bus.c2s.receiver.clone();
    assert_eq!(relay_read(&bus.c2s.sender, Some(b"A")), RelayStep::Continue);
    assert_eq!(relay_read(&bus.c2s.sender, Some(b"\r\n")), RelayStep::Continue);
    drop(bus);

    let mut term = Terminal::new(4, 10).expect("a supported size");
    let mut turns = 0;
    while feed_step(&mut term, receive(&inbound)) {
        turns += 1;
    }
    assert_eq!(turns, 2);
    assert_eq!(term.cursor(), (1, 0));
    assert_eq!(term.cell(0, 0).text, "A");
}
