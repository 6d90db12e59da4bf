//! The live feed of new records. A task reads the feed and hands the records on
//! through a bounded queue; the screen holds the receiving end of the queue and
//! looks into it without waiting. Here are the decisions of the task and the
//! receiving end; reading the feed and running the task are the caller's.

use crate::api::models::Log;
use tokio::sync::mpsc::{Receiver, Sender};
use vstd::prelude::*;

verus! {

/// Number of records the queue between the reading task and the screen holds.
/// A full queue makes the task wait; nothing is dropped.
pub const CHANNEL_CAPACITY: usize = 100;

/// The receiving end of a bounded queue of `tokio`. It is held and handed on;
/// nothing is known of what is in the queue.
#[verifier::external_type_specification]
#[verifier::external_body]
#[verifier::reject_recursive_types(T)]
pub struct ExReceiver<T>(Receiver<T>);

/// The sending end of a bounded queue of `tokio`. It is only handed on.
#[verifier::external_type_specification]
#[verifier::external_body]
#[verifier::reject_recursive_types(T)]
pub struct ExSender<T>(Sender<T>);

/// The most records that the queue of this receiving end holds at a time: the
/// limit that the queue was made with, which `Receiver::max_capacity` tells. It
/// stays the same as long as the queue lives.
pub uninterp spec fn queue_limit(receiver: Receiver<Log>) -> usize;

/// The most records that the queue of this sending end holds at a time: the
/// limit that the queue was made with, which `Sender::max_capacity` tells.
pub uninterp spec fn sender_limit(sender: Sender<Log>) -> usize;

/// Makes a bounded queue of records.
///
/// Trusted: stands for `tokio::sync::mpsc::channel`, which gives the two ends of
/// one queue that holds up to `capacity` values; that number is the limit of
/// either end from then on. It panics for a capacity of zero and for one above
/// `usize::MAX >> 3`, which the precondition leaves out. Nothing is claimed of
/// what is in the queue.
#[verifier::external_body]
fn bounded_queue(capacity: usize) -> (ends: (Sender<Log>, Receiver<Log>))
    requires
        0 < capacity <= usize::MAX / 8,
    ensures
        sender_limit(ends.0) == capacity,
        queue_limit(ends.1) == capacity,
{
    tokio::sync::mpsc::channel(capacity)
}

/// Takes the next record out of the queue if one is waiting.
///
/// Trusted: stands for `tokio::sync::mpsc::Receiver::try_recv`, which does not
/// wait and leaves the limit of the queue as it is. Nothing is claimed of what
/// it finds: that depends on what the sending task has put into the queue by
/// now.
#[verifier::external_body]
fn try_receive(receiver: &mut Receiver<Log>) -> (r: Option<Log>)
    ensures
        queue_limit(*final(receiver)) == queue_limit(*old(receiver)),
{
    match receiver.try_recv() {
        Ok(log) => Some(log),
        Err(_) => None,
    }
}

/// The screen's end of the live feed. Dropping it is what ends the feed: the
/// task that reads the feed ends when it next finds the queue closed.
pub struct LogStream {
    receiver: Receiver<Log>,
}

impl LogStream {
    /// The most records that wait in the queue of this feed at a time. The task
    /// that reads the feed waits while that many are waiting.
    pub closed spec fn capacity(self) -> usize {
        queue_limit(self.receiver)
    }

    /// A feed that is not yet fed: the sending end of its queue, for the task
    /// that is to read the feed, and the screen's end. The queue holds up to
    /// `CHANNEL_CAPACITY` records, whichever end it is looked at from.
    pub fn new() -> (ends: (Sender<Log>, Self))
        ensures
            sender_limit(ends.0) == CHANNEL_CAPACITY,
            ends.1.capacity() == CHANNEL_CAPACITY,
    {
        let (sender, receiver) = bounded_queue(CHANNEL_CAPACITY);
        (sender, LogStream { receiver })
    }

    /// The next record if one is waiting; `None` where the queue is empty or
    /// the task has ended. This does not wait. Which of the two it is depends
    /// on what the task has put into the queue by now; the feed keeps its
    /// capacity either way.
    pub fn next(&mut self) -> (r: Option<Log>)
        ensures
            final(self).capacity() == old(self).capacity(),
    {
        try_receive(&mut self.receiver)
    }
}

/// One thing delivered by the feed.
#[derive(Debug)]
pub enum Frame {
    /// An event. `record` is what its data was read as, `None` where the data is
    /// no record.
    Event { record: Option<Log> },
    /// A comment, sent to keep the connection alive.
    Comment,
    /// The notice that the connection stands.
    Connected,
    /// A failure of the connection.
    Error,
}

/// What the reading task does next.
#[derive(Debug, PartialEq, Eq)]
pub enum Ingest {
    /// Put this record into the queue, then see `after_send`.
    Forward(Log),
    /// Read on.
    Skip,
    /// End the task and release the connection. The queue closes, which is all
    /// the screen sees of it.
    Stop,
}

/// What the task does with what the feed delivered; `None` is the end of the
/// feed. Records are handed on, data that is no record is dropped, comments and
/// connection notices are ignored, and a failure or the end ends the task.
pub open spec fn ingest_of(delivered: Option<Frame>) -> Ingest {
    match delivered {
        Some(Frame::Event { record: Some(log) }) => Ingest::Forward(log),
        Some(Frame::Event { record: None }) => Ingest::Skip,
        Some(Frame::Comment) => Ingest::Skip,
        Some(Frame::Connected) => Ingest::Skip,
        Some(Frame::Error) => Ingest::Stop,
        None => Ingest::Stop,
    }
}

/// Decides what the reading task does with what the feed delivered.
pub fn ingest(delivered: Option<Frame>) -> (r: Ingest)
    ensures
        r == ingest_of(delivered),
{
    match delivered {
        Some(Frame::Event { record }) => match record {
            Some(log) => Ingest::Forward(log),
            None => Ingest::Skip,
        },
        Some(Frame::Comment) => Ingest::Skip,
        Some(Frame::Connected) => Ingest::Skip,
        Some(Frame::Error) => Ingest::Stop,
        None => Ingest::Stop,
    }
}

/// Decides what the reading task does once it has tried to put a record into
/// the queue: it reads on where the queue took the record, and ends where the
/// receiving end is gone, which is how the screen cancels the feed.
pub fn after_send(taken: bool) -> (r: Ingest)
    ensures
        taken ==> r == Ingest::Skip,
        !taken ==> r == Ingest::Stop,
{
    if taken {
        Ingest::Skip
    } else {
        Ingest::Stop
    }
}

} // verus!
