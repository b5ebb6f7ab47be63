//! The status of a slot as a string on the wire.

use crate::message::{SlotStatus, SlotStatusView};
use crate::text::{quoted_list, same_text, write_quoted_list};
use vstd::prelude::*;
use vstd::string::StringExecFns;

verus! {

/// The status that a wire string stands for. A dead slot read from its name
/// alone has the reason `"dead"`.
pub open spec fn status_named(name: Seq<char>) -> Option<SlotStatusView> {
    if name == "confirmed"@ {
        Some(SlotStatusView::Confirmed)
    } else if name == "processed"@ {
        Some(SlotStatusView::Processed)
    } else if name == "rooted"@ {
        Some(SlotStatusView::Rooted)
    } else if name == "first_shred_received"@ {
        Some(SlotStatusView::FirstShredReceived)
    } else if name == "completed"@ {
        Some(SlotStatusView::Completed)
    } else if name == "created_bank"@ {
        Some(SlotStatusView::CreatedBank)
    } else if name == "dead"@ {
        Some(SlotStatusView::Dead("dead"@))
    } else {
        None
    }
}

/// A status as it is after a passage through its wire string: a dead slot
/// keeps no reason but `"dead"`.
pub open spec fn named_again(status: SlotStatusView) -> SlotStatusView {
    match status {
        SlotStatusView::Dead(_) => SlotStatusView::Dead("dead"@),
        other => other,
    }
}

/// The seven wire strings differ from each other: the string written for a
/// status is read back as the same status.
pub proof fn lemma_status_name_round_trip(status: SlotStatusView)
    ensures
        status_named(status.wire_name()) == Some(named_again(status)),
{
    reveal_strlit("confirmed");
    reveal_strlit("processed");
    reveal_strlit("rooted");
    reveal_strlit("first_shred_received");
    reveal_strlit("completed");
    reveal_strlit("created_bank");
    reveal_strlit("dead");
    assert("confirmed"@.len() == 9 && "confirmed"@[2] == 'n');
    assert("processed"@.len() == 9 && "processed"@[0] == 'p');
    assert("rooted"@.len() == 6);
    assert("first_shred_received"@.len() == 20);
    assert("completed"@.len() == 9 && "completed"@[2] == 'm' && "completed"@[0] == 'c');
    assert("created_bank"@.len() == 12);
    assert("dead"@.len() == 4);
}

/// A string stands for a status exactly if it is one of the seven listed.
pub proof fn lemma_named_iff_listed(name: Seq<char>)
    ensures
        status_named(name) is Some <==> variant_names().contains(name),
{
    let names = variant_names();
    assert(names[0] == "processed"@);
    assert(names[1] == "rooted"@);
    assert(names[2] == "confirmed"@);
    assert(names[3] == "first_shred_received"@);
    assert(names[4] == "completed"@);
    assert(names[5] == "created_bank"@);
    assert(names[6] == "dead"@);
}

/// The string written for a status.
pub fn serialize(status: &SlotStatus) -> (name: &'static str)
    ensures
        name@ == status@.wire_name(),
{
    status.as_str()
}

/// The strings that stand for a status, in the order in which an error
/// lists them.
pub const VARIANTS: [&'static str; 7] = [
    "processed",
    "rooted",
    "confirmed",
    "first_shred_received",
    "completed",
    "created_bank",
    "dead",
];

/// The strings that stand for a status.
pub open spec fn variant_names() -> Seq<Seq<char>> {
    seq![
        "processed"@,
        "rooted"@,
        "confirmed"@,
        "first_shred_received"@,
        "completed"@,
        "created_bank"@,
        "dead"@,
    ]
}

/// A status string that is none of [`VARIANTS`].
#[derive(Debug, PartialEq, Eq)]
pub struct UnknownVariant {
    /// The string that was found in place of a status.
    pub found: String,
}

/// The text of the error for an unrecognised status string.
pub open spec fn unknown_variant_text(found: Seq<char>) -> Seq<char> {
    "unknown variant `"@ + found + "`, expected one of "@ + quoted_list(variant_names())
}

impl UnknownVariant {
    /// The strings that would have been accepted.
    pub fn expected(&self) -> (names: [&'static str; 7])
        ensures
            names@.map_values(|name: &'static str| name@) == variant_names(),
    {
        let names = VARIANTS;
        assert(names@.map_values(|name: &'static str| name@) =~= variant_names());
        names
    }

    /// Describes the error: the string found, then the strings accepted.
    pub fn message(&self) -> (text: String)
        ensures
            text@ == unknown_variant_text(self.found@),
    {
        let names = self.expected();
        let list = write_quoted_list(names.as_slice());
        let mut text = String::from_str("unknown variant `");
        text.append(self.found.as_str());
        text.append("`, expected one of ");
        text.append(list.as_str());
        text
    }
}

/// Reads a status from its wire string. Any string but the seven of
/// [`VARIANTS`] is refused, and the error holds it.
pub fn deserialize(name: &str) -> (status: Result<SlotStatus, UnknownVariant>)
    ensures
        match status_named(name@) {
            Some(expected) => status matches Ok(found) && found@ == expected,
            None => status matches Err(error) && error.found@ == name@,
        },
{
    if same_text(name, "confirmed") {
        Ok(SlotStatus::Confirmed)
    } else if same_text(name, "processed") {
        Ok(SlotStatus::Processed)
    } else if same_text(name, "rooted") {
        Ok(SlotStatus::Rooted)
    } else if same_text(name, "first_shred_received") {
        Ok(SlotStatus::FirstShredReceived)
    } else if same_text(name, "completed") {
        Ok(SlotStatus::Completed)
    } else if same_text(name, "created_bank") {
        Ok(SlotStatus::CreatedBank)
    } else if same_text(name, "dead") {
        Ok(SlotStatus::Dead(String::from_str("dead")))
    } else {
        Err(UnknownVariant { found: name.to_owned() })
    }
}

} // verus!
