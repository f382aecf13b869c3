//! A session's bus, the session itself, and the decisions of the loops that
//! move bytes between a socket, the bus and the terminal.
//!
//! The loops themselves wait on sockets and run on threads of their own, which
//! is the caller's business. Each function here is one turn of such a loop:
//! it is told what the socket or the channel gave and says what to do next.

use vstd::prelude::*;
use vstd::slice::slice_to_vec;
use crossbeam::channel::{Receiver, Sender};
use std::sync::Mutex;
use crate::channel::{channel_pair, channel_recv, channel_send};
use crate::terminal::Terminal;

verus! {

/// `std::sync::Mutex`: a value that one thread at a time can reach. Opaque.
#[verifier::external_type_specification]
#[verifier::external_body]
#[verifier::reject_recursive_types(T)]
pub struct ExMutex<T: ?Sized>(Mutex<T>);

/// `std::sync::Mutex::new`: a mutex, unlocked, that holds the value.
pub assume_specification<T>[ Mutex::<T>::new ](value: T) -> (mutex: Mutex<T>)
;

/// Most bytes that one read from a socket is asked for.
pub const READ_CHUNK: usize = 1024;

/// One direction of a session's traffic: an unbounded, ordered queue of byte
/// chunks, held by both of its ends.
#[derive(Clone)]
pub struct SessionStreams {
    pub sender: Sender<Vec<u8>>,
    pub receiver: Receiver<Vec<u8>>,
}

/// The two directions of a session's traffic: `c2s` carries what the peer
/// sent, `s2c` what is to be sent to the peer.
#[derive(Clone)]
pub struct SessionBus {
    pub c2s: SessionStreams,
    pub s2c: SessionStreams,
}

/// An accepted connection as the registry knows it.
pub struct Session {
    pub id: usize,
    pub bus: SessionBus,
    pub term: Mutex<Terminal>,
}

/// Why a loop of a relay ended.
#[derive(Clone, Copy, Debug, PartialEq, Eq, Structural)]
pub enum RelayEnd {
    /// The peer closed the connection in an orderly way.
    PeerClosed,
    /// A read from or a write to the socket failed.
    IoError,
    /// The channel has no other end left.
    ChannelClosed,
}

/// What a loop of a relay does after a turn.
#[derive(Clone, Copy, Debug, PartialEq, Eq, Structural)]
pub enum RelayStep {
    Continue,
    End(RelayEnd),
}

/// What the write loop does with what the outbound channel gave.
#[derive(Clone, Debug, PartialEq, Eq)]
pub enum WriteStep {
    /// Write this chunk to the socket, all of it, before asking again.
    Write(Vec<u8>),
    End(RelayEnd),
}

impl SessionStreams {
    /// A new channel and both of its ends.
    pub fn new() -> (streams: Self) {
        let (sender, receiver) = channel_pair();
        SessionStreams { sender, receiver }
    }

    /// Queues a chunk behind those already queued. Never waits. A chunk that
    /// the channel refuses, because no receiver is left, comes back.
    pub fn send(&self, chunk: Vec<u8>) -> (sent: Result<(), Vec<u8>>)
        ensures
            sent matches Err(back) ==> back == chunk,
    {
        channel_send(&self.sender, chunk)
    }

    /// Waits for the next chunk; `None` once the channel is empty and no
    /// sender is left.
    pub fn recv(&self) -> (got: Option<Vec<u8>>) {
        receive(&self.receiver)
    }
}

/// Waits for the next chunk on the receiving end of a channel; `None` once
/// the channel is empty and no sender is left. A loop that is to end when its
/// channel closes holds the receiving end alone and asks here.
pub fn receive(receiver: &Receiver<Vec<u8>>) -> (got: Option<Vec<u8>>) {
    channel_recv(receiver)
}

impl SessionBus {
    /// A bus with two new channels.
    pub fn new() -> (bus: Self) {
        SessionBus { c2s: SessionStreams::new(), s2c: SessionStreams::new() }
    }
}

/// What a read of the socket means for the read loop, over the bytes' view.
pub open spec fn chunk_of(read: Option<&[u8]>) -> Result<Seq<u8>, RelayEnd> {
    match read {
        None => Err(RelayEnd::IoError),
        Some(bytes) => if bytes@.len() == 0 {
            Err(RelayEnd::PeerClosed)
        } else {
            Ok(bytes@)
        },
    }
}

/// What a read of the socket means for the read loop. `read` is `None` where
/// the read failed and else the bytes it returned. A failure ends the loop
/// with `IoError`, an empty read with `PeerClosed`; anything else is the
/// chunk to queue, byte for byte.
pub fn read_chunk(read: Option<&[u8]>) -> (chunk: Result<Vec<u8>, RelayEnd>)
    ensures
        match chunk {
            Ok(bytes) => chunk_of(read) == Ok::<Seq<u8>, RelayEnd>(bytes@),
            Err(end) => chunk_of(read) == Err::<Seq<u8>, RelayEnd>(end),
        },
{
    match read {
        None => Err(RelayEnd::IoError),
        Some(bytes) => {
            if bytes.len() == 0 {
                Err(RelayEnd::PeerClosed)
            } else {
                Ok(slice_to_vec(bytes))
            }
        },
    }
}

/// What the read loop does once a chunk was handed to the inbound channel:
/// it goes on if the chunk was taken and ends if the channel refused it.
pub fn after_enqueue(sent: Result<(), Vec<u8>>) -> (step: RelayStep)
    ensures
        step == (match sent {
            Ok(_) => RelayStep::Continue,
            Err(_) => RelayStep::End(RelayEnd::ChannelClosed),
        }),
{
    match sent {
        Ok(_) => RelayStep::Continue,
        Err(_) => RelayStep::End(RelayEnd::ChannelClosed),
    }
}

/// What the write loop does with what the outbound channel gave: it writes a
/// chunk as it is and ends when the channel is closed.
pub fn outbound_step(received: Option<Vec<u8>>) -> (step: WriteStep)
    ensures
        step == (match received {
            Some(chunk) => WriteStep::Write(chunk),
            None => WriteStep::End(RelayEnd::ChannelClosed),
        }),
{
    match received {
        Some(chunk) => WriteStep::Write(chunk),
        None => WriteStep::End(RelayEnd::ChannelClosed),
    }
}

/// What the write loop does once it tried to write a chunk in full: it goes
/// on after a complete write and ends after a failed one.
pub fn after_write(written: bool) -> (step: RelayStep)
    ensures
        step == (if written {
            RelayStep::Continue
        } else {
            RelayStep::End(RelayEnd::IoError)
        }),
{
    if written {
        RelayStep::Continue
    } else {
        RelayStep::End(RelayEnd::IoError)
    }
}

/// One turn of the loop that feeds a session's terminal: a chunk is consumed
/// whole and the loop goes on; a closed channel ends it and leaves the
/// terminal as it was.
pub fn feed_step(term: &mut Terminal, received: Option<Vec<u8>>) -> (more: bool)
    ensures
        more == received is Some,
        received matches Some(chunk) ==> final(term)@ == old(term)@.feed(chunk@),
        received is None ==> final(term)@ == old(term)@,
{
    match received {
        Some(chunk) => {
            term.feed(chunk.as_slice());
            true
        },
        None => false,
    }
}

/// One turn of the read loop: decides on what the socket gave and, where that
/// is a chunk, queues it on the inbound channel's sending end.
pub fn relay_read(inbound: &Sender<Vec<u8>>, read: Option<&[u8]>) -> (step: RelayStep)
    ensures
        match chunk_of(read) {
            Ok(_) => step == RelayStep::Continue || step == RelayStep::End(
                RelayEnd::ChannelClosed,
            ),
            Err(end) => step == RelayStep::End(end),
        },
{
    match read_chunk(read) {
        Ok(chunk) => after_enqueue(channel_send(inbound, chunk)),
        Err(end) => RelayStep::End(end),
    }
}

/// The first half of a turn of the write loop: waits for the next chunk on
/// the outbound channel's receiving end and says what to do with it.
pub fn next_write(outbound: &Receiver<Vec<u8>>) -> (step: WriteStep)
    ensures
        step is Write || step == WriteStep::End(RelayEnd::ChannelClosed),
{
    outbound_step(receive(outbound))
}

} // verus!
