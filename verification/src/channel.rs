//! The queue between the producers and the delivery task: bounded, first
//! in first out, and never waited on by a producer.
//!
//! The queue is a `tokio::sync::mpsc` channel. Its sending end is shared by
//! the threads of the host; its receiving end belongs to the delivery task.

use crate::message::SlotMessage;
use tokio::sync::mpsc::error::TrySendError;
use tokio::sync::mpsc::{Receiver, Sender};
use vstd::prelude::*;
use vstd::string::StringExecFns;

verus! {

/// `tokio::sync::mpsc::Receiver`, the receiving end of the queue. It is
/// made here and handed to the delivery task; nothing here reads it.
#[verifier::external_type_specification]
#[verifier::external_body]
#[verifier::reject_recursive_types(T)]
pub struct ExReceiver<T>(tokio::sync::mpsc::Receiver<T>);

/// `tokio::sync::mpsc::Sender`, the sending end of the queue. What the
/// queue holds is not a property of this value: it changes behind it.
#[verifier::external_type_specification]
#[verifier::external_body]
#[verifier::reject_recursive_types(T)]
pub struct ExSender<T>(tokio::sync::mpsc::Sender<T>);

/// Why a record was not queued. The record comes back with the error: the
/// queue keeps nothing of it.
#[derive(Debug)]
pub enum SendError {
    /// The queue holds as many records as it may.
    Full(SlotMessage),
    /// The delivery task has gone: nothing takes records any more.
    Closed(SlotMessage),
}

impl SendError {
    /// The record that was not queued.
    pub open spec fn record(self) -> SlotMessage {
        match self {
            SendError::Full(record) => record,
            SendError::Closed(record) => record,
        }
    }

    /// The text of the error.
    pub open spec fn text(self) -> Seq<char> {
        match self {
            SendError::Full(_) => "no available capacity"@,
            SendError::Closed(_) => "channel closed"@,
        }
    }

    /// Describes the error.
    pub fn message(&self) -> (text: String)
        ensures
            text@ == self.text(),
    {
        match self {
            SendError::Full(_) => String::from_str("no available capacity"),
            SendError::Closed(_) => String::from_str("channel closed"),
        }
    }

    /// Gives the record back.
    pub fn into_inner(self) -> (record: SlotMessage)
        ensures
            record == self.record(),
    {
        match self {
            SendError::Full(record) => record,
            SendError::Closed(record) => record,
        }
    }
}

/// Offers a record to the queue with `Sender::try_send`, which returns at
/// once. Whether the record is taken depends on what the queue holds at
/// that moment, which other threads change; so only this is stated: a
/// record that is not taken comes back unchanged, in `Full` where the queue
/// was at its capacity and in `Closed` where the receiver is gone.
#[verifier::external_body]
pub(crate) fn try_send(
    sender: &Sender<SlotMessage>,
    message: SlotMessage,
) -> (sent: Result<(), SendError>)
    ensures
        sent matches Err(error) ==> error.record() == message,
{
    sender.try_send(message).map_err(
        |error| match error {
            TrySendError::Full(message) => SendError::Full(message),
            TrySendError::Closed(message) => SendError::Closed(message),
        },
    )
}

/// The number of records that the queue behind a sending end was made
/// for: what `Sender::max_capacity` returns. It is set when the queue is
/// made and never changes.
pub uninterp spec fn queue_bound(sender: Sender<SlotMessage>) -> usize;

/// Makes a queue with `tokio::sync::mpsc::channel`, which panics where the
/// capacity is 0 or above its `Semaphore::MAX_PERMITS`, `usize::MAX >> 3`:
/// such a capacity is left out here. The queue is made for `capacity`
/// records: that is the bound which `Sender::max_capacity` reports of it.
#[verifier::external_body]
fn channel(capacity: usize) -> (ends: (Sender<SlotMessage>, Receiver<SlotMessage>))
    requires
        0 < capacity <= usize::MAX / 8,
    ensures
        queue_bound(ends.0) == capacity,
{
    tokio::sync::mpsc::channel(capacity)
}

/// Makes the queue for at most `capacity` records, and hands out its two
/// ends. There is no queue for no record, nor for more than an eighth of
/// `usize::MAX`: `None` then.
pub fn delivery_channel(
    capacity: usize,
) -> (ends: Option<(Sender<SlotMessage>, Receiver<SlotMessage>)>)
    ensures
        ends is Some <==> 0 < capacity <= usize::MAX / 8,
        ends matches Some(pair) ==> queue_bound(pair.0) == capacity,
{
    if 0 < capacity && capacity <= usize::MAX / 8 {
        Some(channel(capacity))
    } else {
        None
    }
}

} // verus!
