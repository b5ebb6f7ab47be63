//! The plugin as the host sees it: loaded or not, and, while loaded, the
//! way in for slot status notifications.

use crate::broadcaster::{cancel, Broadcaster};
use crate::channel::{try_send, SendError};
use crate::message::{SlotMessage, SlotStatus};
use solana_clock::Slot;
use tokio::runtime::Runtime;
use tokio::sync::mpsc::Sender;
use tokio_util::sync::CancellationToken;
use vstd::prelude::*;
use vstd::string::StringExecFns;

verus! {

/// Seconds given to the delivery task, and then to the runtime, to stop
/// when the plugin is unloaded.
pub const SHUTDOWN_TIMEOUT_SECS: u64 = 30;

/// `tokio::runtime::Runtime`, the runtime of the broadcaster. It is kept
/// and handed out, never read.
#[verifier::external_type_specification]
#[verifier::external_body]
pub struct ExRuntime(tokio::runtime::Runtime);

/// What a loaded plugin holds: the runtime, the sending end of the queue,
/// the running broadcaster and the stop signal.
#[derive(Debug)]
pub struct PluginInner {
    runtime: Runtime,
    broadcaster_sender: Sender<SlotMessage>,
    broadcaster_service: Broadcaster,
    plugin_cancellation_token: CancellationToken,
}

impl PluginInner {
    /// The runtime on which the broadcaster runs.
    pub closed spec fn runtime(&self) -> Runtime {
        self.runtime
    }

    /// The sending end of the queue.
    pub closed spec fn sender(&self) -> Sender<SlotMessage> {
        self.broadcaster_sender
    }

    /// The running broadcaster.
    pub closed spec fn service(&self) -> Broadcaster {
        self.broadcaster_service
    }

    /// The stop signal.
    pub closed spec fn token(&self) -> CancellationToken {
        self.plugin_cancellation_token
    }

    /// Puts together what a loaded plugin holds.
    pub fn new(
        runtime: Runtime,
        broadcaster_sender: Sender<SlotMessage>,
        broadcaster_service: Broadcaster,
        plugin_cancellation_token: CancellationToken,
    ) -> (inner: Self)
        ensures
            inner.runtime() == runtime,
            inner.sender() == broadcaster_sender,
            inner.service() == broadcaster_service,
            inner.token() == plugin_cancellation_token,
    {
        PluginInner { runtime, broadcaster_sender, broadcaster_service, plugin_cancellation_token }
    }

    /// Offers a record to the queue without waiting. A record that is not
    /// queued comes back in the error.
    pub fn send_message(&self, message: SlotMessage) -> (sent: Result<(), SendError>)
        ensures
            sent matches Err(error) ==> error.record() == message,
    {
        try_send(&self.broadcaster_sender, message)
    }

    /// Starts the shutdown: sets the stop signal, and only then hands out
    /// the runtime, the broadcaster to wait for, and the sending end of the
    /// queue.
    pub fn begin_shutdown(self) -> (parts: (Runtime, Broadcaster, Sender<SlotMessage>))
        ensures
            parts == (self.runtime(), self.service(), self.sender()),
    {
        cancel(&self.plugin_cancellation_token);
        (self.runtime, self.broadcaster_service, self.broadcaster_sender)
    }
}

/// A slot status notification was not taken.
#[derive(Debug, PartialEq, Eq)]
pub struct SlotStatusUpdateError {
    /// Why not.
    pub msg: String,
}

/// What the host is told where a notification comes to a plugin that is not
/// loaded.
pub const NOT_LOADED: &'static str = "plugin is not loaded";

/// What the host is told of an offer to the queue: nothing where the record
/// was queued, the text of the error where it was not.
pub fn status_update_result(
    sent: Result<(), SendError>,
) -> (result: Result<(), SlotStatusUpdateError>)
    ensures
        match sent {
            Ok(()) => result is Ok,
            Err(error) => result matches Err(told) && told.msg@ == error.text(),
        },
{
    match sent {
        Ok(()) => Ok(()),
        Err(error) => Err(SlotStatusUpdateError { msg: error.message() }),
    }
}

/// The plugin: not loaded, or loaded and running.
#[derive(Debug)]
pub struct Plugin {
    inner: Option<PluginInner>,
}

impl Default for Plugin {
    fn default() -> (plugin: Self)
        ensures
            !plugin.is_loaded(),
    {
        Plugin { inner: None }
    }
}

impl Plugin {
    /// What the plugin holds while it is loaded.
    pub closed spec fn inner(&self) -> Option<PluginInner> {
        self.inner
    }

    /// Whether the plugin is loaded.
    pub open spec fn is_loaded(&self) -> bool {
        self.inner() is Some
    }

    /// Whether the plugin is loaded.
    pub fn loaded(&self) -> (loaded: bool)
        ensures
            loaded == self.is_loaded(),
    {
        self.inner.is_some()
    }

    /// Makes the plugin loaded, with what it then holds.
    pub fn load(&mut self, inner: PluginInner)
        ensures
            final(self).inner() == Some(inner),
    {
        self.inner = Some(inner);
    }

    /// Makes the plugin not loaded, and hands out what it held.
    pub fn unload(&mut self) -> (inner: Option<PluginInner>)
        ensures
            inner == old(self).inner(),
            !final(self).is_loaded(),
    {
        self.inner.take()
    }

    /// Takes a slot status notification. A plugin that is not loaded
    /// refuses it at once, with [`NOT_LOADED`], and builds no record. A
    /// loaded plugin builds the record, stamped with the current time, and
    /// offers it to the queue without waiting; the host is told where the
    /// record was not queued.
    pub fn update_slot_status(
        &self,
        slot: Slot,
        parent: Option<Slot>,
        status: &SlotStatus,
    ) -> (result: Result<(), SlotStatusUpdateError>)
        ensures
            !self.is_loaded() ==> (result matches Err(told) && told.msg@ == NOT_LOADED@),
            self.is_loaded() ==> (result matches Err(told) ==> (told.msg@
                == "no available capacity"@ || told.msg@ == "channel closed"@)),
    {
        match &self.inner {
            None => Err(SlotStatusUpdateError { msg: String::from_str(NOT_LOADED) }),
            Some(inner) => {
                let message = SlotMessage::from_geyser(slot, parent, status);
                status_update_result(inner.send_message(message))
            },
        }
    }

    /// The plugin does not ask for account updates.
    pub fn account_data_notifications_enabled(&self) -> (enabled: bool)
        ensures
            !enabled,
    {
        false
    }

    /// The plugin does not ask for account updates from snapshots.
    pub fn account_data_snapshot_notifications_enabled(&self) -> (enabled: bool)
        ensures
            !enabled,
    {
        false
    }

    /// The plugin does not ask for transactions.
    pub fn transaction_notifications_enabled(&self) -> (enabled: bool)
        ensures
            !enabled,
    {
        false
    }

    /// The plugin does not ask for entries.
    pub fn entry_notifications_enabled(&self) -> (enabled: bool)
        ensures
            !enabled,
    {
        false
    }
}

/// The name under which the plugin reports itself: package, version and
/// source revision, as `package-version+revision`.
pub fn plugin_name(package: &str, version: &str, revision: &str) -> (name: String)
    ensures
        name@ == package@ + "-"@ + version@ + "+"@ + revision@,
{
    let mut name = String::from_str(package);
    name.append("-");
    name.append(version);
    name.append("+");
    name.append(revision);
    name
}

} // verus!
