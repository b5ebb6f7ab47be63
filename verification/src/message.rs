//! The notification record: one slot status change, stamped at construction.

use solana_clock::Slot;
use vstd::prelude::*;

pub mod slot_status_as_str;

verus! {

/// The status a slot has reached. `Dead` carries the reason the slot was
/// abandoned.
#[derive(Debug, PartialEq, Eq)]
pub enum SlotStatus {
    Processed,
    Rooted,
    Confirmed,
    FirstShredReceived,
    Completed,
    CreatedBank,
    Dead(String),
}

/// Mathematical value of a [`SlotStatus`].
pub enum SlotStatusView {
    Processed,
    Rooted,
    Confirmed,
    FirstShredReceived,
    Completed,
    CreatedBank,
    Dead(Seq<char>),
}

impl View for SlotStatus {
    type V = SlotStatusView;

    open spec fn view(&self) -> SlotStatusView {
        match *self {
            SlotStatus::Processed => SlotStatusView::Processed,
            SlotStatus::Rooted => SlotStatusView::Rooted,
            SlotStatus::Confirmed => SlotStatusView::Confirmed,
            SlotStatus::FirstShredReceived => SlotStatusView::FirstShredReceived,
            SlotStatus::Completed => SlotStatusView::Completed,
            SlotStatus::CreatedBank => SlotStatusView::CreatedBank,
            SlotStatus::Dead(reason) => SlotStatusView::Dead(reason@),
        }
    }
}

impl Clone for SlotStatus {
    fn clone(&self) -> (copy: Self)
        ensures
            copy == *self,
    {
        match self {
            SlotStatus::Processed => SlotStatus::Processed,
            SlotStatus::Rooted => SlotStatus::Rooted,
            SlotStatus::Confirmed => SlotStatus::Confirmed,
            SlotStatus::FirstShredReceived => SlotStatus::FirstShredReceived,
            SlotStatus::Completed => SlotStatus::Completed,
            SlotStatus::CreatedBank => SlotStatus::CreatedBank,
            SlotStatus::Dead(reason) => SlotStatus::Dead(reason.clone()),
        }
    }
}

impl SlotStatusView {
    /// The string that stands for the status on the wire.
    pub open spec fn wire_name(self) -> Seq<char> {
        match self {
            SlotStatusView::Processed => "processed"@,
            SlotStatusView::Rooted => "rooted"@,
            SlotStatusView::Confirmed => "confirmed"@,
            SlotStatusView::FirstShredReceived => "first_shred_received"@,
            SlotStatusView::Completed => "completed"@,
            SlotStatusView::CreatedBank => "created_bank"@,
            SlotStatusView::Dead(_) => "dead"@,
        }
    }

    /// The failure description a record with this status carries: the reason
    /// of a dead slot, nothing otherwise.
    pub open spec fn failure(self) -> Option<Seq<char>> {
        match self {
            SlotStatusView::Dead(reason) => Some(reason),
            _ => None,
        }
    }
}

impl SlotStatus {
    /// The string that stands for the status on the wire.
    pub fn as_str(&self) -> (name: &'static str)
        ensures
            name@ == self@.wire_name(),
    {
        match self {
            SlotStatus::Processed => "processed",
            SlotStatus::Rooted => "rooted",
            SlotStatus::Confirmed => "confirmed",
            SlotStatus::FirstShredReceived => "first_shred_received",
            SlotStatus::Completed => "completed",
            SlotStatus::CreatedBank => "created_bank",
            SlotStatus::Dead(_) => "dead",
        }
    }
}

/// One slot status notification.
#[derive(Debug, PartialEq)]
pub struct SlotMessage {
    pub slot: Slot,
    pub parent: Option<Slot>,
    pub status: SlotStatus,
    pub dead_error: Option<String>,
    pub created_at: u64,
}

/// Mathematical value of a [`SlotMessage`].
pub struct SlotMessageView {
    pub slot: u64,
    pub parent: Option<u64>,
    pub status: SlotStatusView,
    pub dead_error: Option<Seq<char>>,
    pub created_at: u64,
}

impl View for SlotMessage {
    type V = SlotMessageView;

    open spec fn view(&self) -> SlotMessageView {
        SlotMessageView {
            slot: self.slot,
            parent: self.parent,
            status: self.status@,
            dead_error: match self.dead_error {
                Some(reason) => Some(reason@),
                None => None,
            },
            created_at: self.created_at,
        }
    }
}

impl SlotMessageView {
    /// The record built for a status change observed at `created_at`.
    pub open spec fn observed(
        slot: u64,
        parent: Option<u64>,
        status: SlotStatusView,
        created_at: u64,
    ) -> SlotMessageView {
        SlotMessageView { slot, parent, status, dead_error: status.failure(), created_at }
    }

    /// A record is well formed when it carries a failure description exactly
    /// if its status is `Dead`, and the description is the reason of the
    /// status.
    pub open spec fn well_formed(self) -> bool {
        self.dead_error == self.status.failure()
    }
}

impl Clone for SlotMessage {
    fn clone(&self) -> (copy: Self)
        ensures
            copy == *self,
    {
        SlotMessage {
            slot: self.slot,
            parent: self.parent,
            status: self.status.clone(),
            dead_error: match &self.dead_error {
                Some(reason) => Some(reason.clone()),
                None => None,
            },
            created_at: self.created_at,
        }
    }
}

/// Milliseconds since the Unix epoch, read from the system clock by
/// `solana_time_utils::timestamp`. Nothing is claimed of the value: it
/// depends on the clock alone. The call panics where the clock stands
/// before the epoch.
#[verifier::external_body]
fn timestamp() -> u64 {
    solana_time_utils::timestamp()
}

impl SlotMessage {
    /// Whether the record is well formed: it carries a failure description
    /// exactly if its status is `Dead`, and the description is the reason
    /// of the status.
    pub fn is_well_formed(&self) -> (well_formed: bool)
        ensures
            well_formed == self@.well_formed(),
    {
        match (&self.status, &self.dead_error) {
            (SlotStatus::Dead(reason), Some(description)) => *reason == *description,
            (SlotStatus::Dead(_), None) => false,
            (_, Some(_)) => false,
            (_, None) => true,
        }
    }

    /// Builds the record of a status change observed at `created_at`.
    pub fn new(
        slot: Slot,
        parent: Option<Slot>,
        status: &SlotStatus,
        created_at: u64,
    ) -> (message: Self)
        ensures
            message@ == SlotMessageView::observed(slot, parent, status@, created_at),
            message@.well_formed(),
    {
        let dead_error = match status {
            SlotStatus::Dead(reason) => Some(reason.clone()),
            _ => None,
        };
        SlotMessage { slot, parent, status: status.clone(), dead_error, created_at }
    }

    /// Builds the record of a status change reported by the host, stamped
    /// with the current time.
    pub fn from_geyser(slot: Slot, parent: Option<Slot>, status: &SlotStatus) -> (message: Self)
        ensures
            message@ == SlotMessageView::observed(slot, parent, status@, message.created_at),
            message@.well_formed(),
    {
        SlotMessage::new(slot, parent, status, timestamp())
    }
}

} // verus!
