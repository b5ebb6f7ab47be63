//! The delivery task: the one consumer of the queue and the one writer of
//! the socket.
//!
//! The task is a loop that waits for a record or for the stop signal. What
//! it does with each is decided here, by [`DeliveryTask::on_event`]; the
//! waiting and the sending are the caller's.

use crate::codec::{encode, encoded, EncodingError};
use crate::message::{SlotMessage, SlotMessageView};
use tokio::task::JoinHandle;
use tokio_util::sync::CancellationToken;
use vstd::prelude::*;
use vstd::string::StringExecFns;

verus! {

/// Where the delivery task stands.
#[derive(Debug, Clone, Copy, PartialEq, Eq, Structural)]
pub enum TaskState {
    /// Waiting for records and for the stop signal.
    Running,
    /// The stop signal was seen. Nothing is sent any more.
    Stopped,
}

/// What the delivery task was woken by.
#[derive(Debug)]
pub enum TaskEvent {
    /// A record came out of the queue.
    Record(SlotMessage),
    /// The stop signal was set.
    Cancelled,
}

/// Mathematical value of a [`TaskEvent`].
pub enum TaskEventView {
    Record(SlotMessageView),
    Cancelled,
}

impl View for TaskEvent {
    type V = TaskEventView;

    open spec fn view(&self) -> TaskEventView {
        match *self {
            TaskEvent::Record(record) => TaskEventView::Record(record@),
            TaskEvent::Cancelled => TaskEventView::Cancelled,
        }
    }
}

/// What the delivery task does next.
#[derive(Debug)]
pub enum TaskAction {
    /// Send this datagram to the destination, once, then wait again.
    Transmit(Vec<u8>),
    /// The record could not be written: drop it, for the reason given, then
    /// wait again.
    Discard(SlotMessage, EncodingError),
    /// Leave the loop.
    Exit,
}

/// Mathematical value of a [`TaskAction`].
pub enum TaskActionView {
    Transmit(Seq<u8>),
    Discard(SlotMessageView),
    Exit,
}

impl View for TaskAction {
    type V = TaskActionView;

    open spec fn view(&self) -> TaskActionView {
        match *self {
            TaskAction::Transmit(datagram) => TaskActionView::Transmit(datagram@),
            TaskAction::Discard(record, _) => TaskActionView::Discard(record@),
            TaskAction::Exit => TaskActionView::Exit,
        }
    }
}

/// One turn of the loop. A running task sends the wire form of a record, or
/// drops the record where it has none, and stays running; on the stop signal
/// it stops. A stopped task only leaves.
pub open spec fn step(state: TaskState, event: TaskEventView) -> (TaskState, TaskActionView) {
    match state {
        TaskState::Stopped => (TaskState::Stopped, TaskActionView::Exit),
        TaskState::Running => match event {
            TaskEventView::Cancelled => (TaskState::Stopped, TaskActionView::Exit),
            TaskEventView::Record(record) => match encoded(record) {
                Some(datagram) => (TaskState::Running, TaskActionView::Transmit(datagram)),
                None => (TaskState::Running, TaskActionView::Discard(record)),
            },
        },
    }
}

/// The state of a task that started in `state` and took the events in turn.
pub open spec fn state_after(state: TaskState, events: Seq<TaskEventView>) -> TaskState
    decreases events.len(),
{
    if events.len() == 0 {
        state
    } else {
        step(state_after(state, events.drop_last()), events.last()).0
    }
}

/// The datagrams that a task sends, in the order in which it sends them,
/// when it starts in `state` and takes the events in turn.
pub open spec fn transmitted(state: TaskState, events: Seq<TaskEventView>) -> Seq<Seq<u8>>
    decreases events.len(),
{
    if events.len() == 0 {
        Seq::empty()
    } else {
        let earlier = events.drop_last();
        match step(state_after(state, earlier), events.last()).1 {
            TaskActionView::Transmit(datagram) => transmitted(state, earlier).push(datagram),
            _ => transmitted(state, earlier),
        }
    }
}

/// The state machine of the delivery task.
#[derive(Debug)]
pub struct DeliveryTask {
    state: TaskState,
}

impl DeliveryTask {
    /// Where the task stands.
    pub closed spec fn state(&self) -> TaskState {
        self.state
    }

    /// A task that is running.
    pub fn new() -> (task: Self)
        ensures
            task.state() == TaskState::Running,
    {
        DeliveryTask { state: TaskState::Running }
    }

    /// Whether the task still waits for records.
    pub fn is_running(&self) -> (running: bool)
        ensures
            running == (self.state() == TaskState::Running),
    {
        match self.state {
            TaskState::Running => true,
            TaskState::Stopped => false,
        }
    }

    /// Takes one event and says what to do: one turn of [`step`].
    pub fn on_event(&mut self, event: TaskEvent) -> (action: TaskAction)
        ensures
            (final(self).state(), action@) == step(old(self).state(), event@),
    {
        match self.state {
            TaskState::Stopped => TaskAction::Exit,
            TaskState::Running => match event {
                TaskEvent::Cancelled => {
                    self.state = TaskState::Stopped;
                    TaskAction::Exit
                },
                TaskEvent::Record(record) => match encode(&record) {
                    Ok(datagram) => TaskAction::Transmit(datagram),
                    Err(error) => TaskAction::Discard(record, error),
                },
            },
        }
    }
}

/// The local address could not be bound: the broadcaster did not start.
#[derive(Debug, PartialEq, Eq)]
pub struct BindError {
    /// The address that was asked for.
    pub address: String,
}

impl BindError {
    /// Describes the error, with the address.
    pub fn message(&self) -> (text: String)
        ensures
            text@ == "failed to bind to address "@ + self.address@,
    {
        let mut text = String::from_str("failed to bind to address ");
        text.append(self.address.as_str());
        text
    }
}

/// The broadcaster did not shut down in order.
#[derive(Debug, PartialEq, Eq)]
pub enum ShutdownError {
    /// The delivery task had not stopped when the deadline passed.
    Timeout,
    /// The delivery task stopped with an error, described here.
    Task(String),
    /// The delivery task panicked or was aborted; the string says which.
    Join(String),
}

/// Mathematical value of a [`ShutdownError`].
pub enum ShutdownErrorView {
    Timeout,
    Task(Seq<char>),
    Join(Seq<char>),
}

impl View for ShutdownError {
    type V = ShutdownErrorView;

    open spec fn view(&self) -> ShutdownErrorView {
        match *self {
            ShutdownError::Timeout => ShutdownErrorView::Timeout,
            ShutdownError::Task(text) => ShutdownErrorView::Task(text@),
            ShutdownError::Join(text) => ShutdownErrorView::Join(text@),
        }
    }
}

impl ShutdownError {
    /// Describes the error.
    pub fn message(&self) -> (text: String)
        ensures
            text@ == match self@ {
                ShutdownErrorView::Timeout => "shutdown timed out"@,
                ShutdownErrorView::Task(described) => described,
                ShutdownErrorView::Join(described) => described,
            },
    {
        match self {
            ShutdownError::Timeout => String::from_str("shutdown timed out"),
            ShutdownError::Task(described) => described.clone(),
            ShutdownError::Join(described) => described.clone(),
        }
    }
}

/// What the end of the delivery task means for a shutdown. `joined` is what
/// waiting for the task gave: the task's own result, or the description of
/// a panic or an abort.
pub fn shutdown_result(
    joined: Result<Result<(), String>, String>,
) -> (result: Result<(), ShutdownError>)
    ensures
        match joined {
            Ok(Ok(())) => result is Ok,
            Ok(Err(described)) => result == Err::<(), ShutdownError>(ShutdownError::Task(described)),
            Err(described) => result == Err::<(), ShutdownError>(ShutdownError::Join(described)),
        },
{
    match joined {
        Ok(Ok(())) => Ok(()),
        Ok(Err(described)) => Err(ShutdownError::Task(described)),
        Err(described) => Err(ShutdownError::Join(described)),
    }
}

/// What a shutdown bounded by a deadline gives: the result of the shutdown
/// where it ended in time, `Timeout` where it did not.
pub fn within_deadline(
    ended: Option<Result<(), ShutdownError>>,
) -> (result: Result<(), ShutdownError>)
    ensures
        match ended {
            Some(in_time) => result == in_time,
            None => result == Err::<(), ShutdownError>(ShutdownError::Timeout),
        },
{
    match ended {
        Some(in_time) => in_time,
        None => Err(ShutdownError::Timeout),
    }
}

/// `tokio::task::JoinHandle`, the handle of a spawned task. It is kept and
/// handed out, never read.
#[verifier::external_type_specification]
#[verifier::external_body]
#[verifier::reject_recursive_types(T)]
pub struct ExJoinHandle<T>(tokio::task::JoinHandle<T>);

/// `tokio::task::JoinError`, which waiting on a `JoinHandle` may give.
/// Nothing here names it, but the declaration of `JoinHandle` cannot stand
/// without it: Verus reads the handle's `Future` impl, whose output holds
/// this type.
#[verifier::external_type_specification]
#[verifier::external_body]
pub struct ExJoinError(tokio::task::JoinError);

/// `tokio_util::sync::CancellationToken`, the stop signal. Whether it is
/// set is not a property of this value: it changes behind it.
#[verifier::external_type_specification]
#[verifier::external_body]
pub struct ExCancellationToken(tokio_util::sync::CancellationToken);

/// `anyhow::Error`, the error that a delivery task may end with.
#[verifier::external_type_specification]
#[verifier::external_body]
pub struct ExAnyhowError(anyhow::Error);

/// Sets the stop signal with `CancellationToken::cancel`: every task that
/// waits for the token or for a child of it is woken. The token is shared
/// and changes behind a plain reference, so nothing is stated of it here.
#[verifier::external_body]
pub(crate) fn cancel(token: &CancellationToken) {
    token.cancel()
}

/// A running broadcaster: the handle of its delivery task and the stop
/// signal that the task waits for.
#[derive(Debug)]
pub struct Broadcaster {
    handle: JoinHandle<Result<(), anyhow::Error>>,
    cancel: CancellationToken,
}

impl Broadcaster {
    /// The handle of the delivery task.
    pub closed spec fn handle(&self) -> JoinHandle<Result<(), anyhow::Error>> {
        self.handle
    }

    /// The stop signal of the delivery task.
    pub closed spec fn token(&self) -> CancellationToken {
        self.cancel
    }

    /// The broadcaster whose delivery task was spawned as `handle` and
    /// waits for `cancel`.
    pub fn new(
        handle: JoinHandle<Result<(), anyhow::Error>>,
        cancel: CancellationToken,
    ) -> (service: Self)
        ensures
            service.handle() == handle,
            service.token() == cancel,
    {
        Broadcaster { handle, cancel }
    }

    /// Starts the shutdown: sets the stop signal, and only then hands out
    /// the handle on which to wait for the task.
    pub fn begin_shutdown(self) -> (handle: JoinHandle<Result<(), anyhow::Error>>)
        ensures
            handle == self.handle(),
    {
        cancel(&self.cancel);
        self.handle
    }
}

/// A stopped task stays stopped.
pub proof fn lemma_stopped_is_final(events: Seq<TaskEventView>)
    ensures
        state_after(TaskState::Stopped, events) == TaskState::Stopped,
    decreases events.len(),
{
    if events.len() > 0 {
        lemma_stopped_is_final(events.drop_last());
    }
}

/// A stopped task sends nothing, whatever comes.
pub proof fn lemma_stopped_sends_nothing(events: Seq<TaskEventView>)
    ensures
        transmitted(TaskState::Stopped, events) == Seq::<Seq<u8>>::empty(),
    decreases events.len(),
{
    if events.len() > 0 {
        lemma_stopped_is_final(events.drop_last());
        lemma_stopped_sends_nothing(events.drop_last());
    }
}

/// Taking `first` and then `second` leaves the task where taking `second`
/// leaves a task that starts where `first` left it.
pub proof fn lemma_state_after_concat(
    state: TaskState,
    first: Seq<TaskEventView>,
    second: Seq<TaskEventView>,
)
    ensures
        state_after(state, first + second) == state_after(state_after(state, first), second),
    decreases second.len(),
{
    if second.len() == 0 {
        assert(first + second == first);
    } else {
        assert((first + second).drop_last() == first + second.drop_last());
        assert((first + second).last() == second.last());
        lemma_state_after_concat(state, first, second.drop_last());
    }
}

/// What is sent over `first` and then `second` is what is sent over
/// `first`, followed by what a task sends over `second` that starts where
/// `first` left it.
pub proof fn lemma_transmitted_concat(
    state: TaskState,
    first: Seq<TaskEventView>,
    second: Seq<TaskEventView>,
)
    ensures
        transmitted(state, first + second) == transmitted(state, first) + transmitted(
            state_after(state, first),
            second,
        ),
    decreases second.len(),
{
    if second.len() == 0 {
        assert(first + second == first);
    } else {
        assert((first + second).drop_last() == first + second.drop_last());
        assert((first + second).last() == second.last());
        lemma_state_after_concat(state, first, second.drop_last());
        lemma_transmitted_concat(state, first, second.drop_last());
    }
}

/// Once the stop signal is taken, nothing more is sent: the events that
/// follow it add no datagram to those sent before it.
pub proof fn lemma_nothing_sent_after_stop(
    state: TaskState,
    before: Seq<TaskEventView>,
    after: Seq<TaskEventView>,
)
    ensures
        transmitted(state, before.push(TaskEventView::Cancelled) + after) == transmitted(
            state,
            before,
        ),
        state_after(state, before.push(TaskEventView::Cancelled) + after) == TaskState::Stopped,
{
    let stopped = before.push(TaskEventView::Cancelled);
    assert(stopped.drop_last() == before);
    assert(state_after(state, stopped) == TaskState::Stopped);
    assert(transmitted(state, stopped) == transmitted(state, before));
    lemma_transmitted_concat(state, stopped, after);
    lemma_state_after_concat(state, stopped, after);
    lemma_stopped_sends_nothing(after);
    lemma_stopped_is_final(after);
}

/// The events of a run in which these records come out of the queue, one
/// after the other.
pub open spec fn arrivals(records: Seq<SlotMessageView>) -> Seq<TaskEventView> {
    records.map_values(|record: SlotMessageView| TaskEventView::Record(record))
}

/// The wire forms of the records that have one, in the order of the
/// records.
pub open spec fn wire_forms(records: Seq<SlotMessageView>) -> Seq<Seq<u8>> {
    records.filter_map(|record: SlotMessageView| encoded(record))
}

/// First in, first out: a running task that takes records in some order
/// sends their wire forms in that order, each once, and leaves out only
/// the records that have no wire form.
pub proof fn lemma_delivery_in_order(records: Seq<SlotMessageView>)
    ensures
        transmitted(TaskState::Running, arrivals(records)) == wire_forms(records),
        state_after(TaskState::Running, arrivals(records)) == TaskState::Running,
    decreases records.len(),
{
    if records.len() > 0 {
        let earlier = records.drop_last();
        lemma_delivery_in_order(earlier);
        assert(arrivals(records).drop_last() == arrivals(earlier));
        assert(arrivals(records).last() == TaskEventView::Record(records.last()));
        match encoded(records.last()) {
            Some(datagram) => {
                assert(wire_forms(earlier) + seq![datagram] == wire_forms(earlier).push(datagram));
            },
            None => {},
        }
    }
}

} // verus!
