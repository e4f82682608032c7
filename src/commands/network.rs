//! The status of the network: version, epoch, slot and height.
use vstd::prelude::*;
use crate::report::{entries, field, field20, push_entry, text_line, title, Entry, EntryView, Tone, LABEL_WIDTH};
use crate::text::{decimal, decimal_string, wide_decimal_string};

verus! {

/// What the endpoint reports of the current epoch.
#[derive(Clone, Debug)]
pub struct EpochData {
    pub epoch: u64,
    pub slot_index: u64,
    pub slots_in_epoch: u64,
    pub absolute_slot: u64,
}

/// `100 * part / whole`, rounded to the nearest integer, halves up.
pub open spec fn rounded_percent(part: nat, whole: nat) -> nat
    recommends
        whole > 0,
{
    (200 * part + whole) / (2 * whole)
}

/// How far through its epoch the network is, in whole percent; none for an
/// epoch without slots.
pub fn epoch_progress(slot_index: u64, slots_in_epoch: u64) -> (r: Option<u128>)
    ensures
        slots_in_epoch == 0 <==> r is None,
        r matches Some(p) ==> p == rounded_percent(slot_index as nat, slots_in_epoch as nat),
{
    if slots_in_epoch == 0 {
        return None;
    }
    let part = slot_index as u128;
    let whole = slots_in_epoch as u128;
    let p = (200 * part + whole) / (2 * whole);
    Some(p)
}

pub open spec fn progress_text(slot_index: u64, slots_in_epoch: u64) -> Seq<char> {
    if slots_in_epoch == 0 {
        "N/A"@
    } else {
        decimal(rounded_percent(slot_index as nat, slots_in_epoch as nat)) + "%"@
    }
}

pub open spec fn status_report(e: EpochData, version: Seq<char>, block_height: nat) -> Seq<EntryView> {
    seq![
        EntryView::Title("--- Solana Network Status ---"@),
        field20("Cluster Version"@, version, Tone::Cyan),
        field20("Current Epoch"@, decimal(e.epoch as nat), Tone::Yellow),
        field20("Epoch Progress"@, progress_text(e.slot_index, e.slots_in_epoch), Tone::Plain),
        field20("Current Slot"@, decimal(e.absolute_slot as nat), Tone::Green),
        field20("Block Height"@, decimal(block_height), Tone::Green),
        EntryView::Line("-----------------------------"@, Tone::Magenta),
    ]
}

/// The network's version, epoch and progress through it, current slot and
/// block height.
pub fn get_status(epoch: &EpochData, version: &str, block_height: u64) -> (r: Vec<Entry>)
    ensures
        entries(r@) == status_report(*epoch, version@, block_height as nat),
{
    let mut r: Vec<Entry> = Vec::new();
    push_entry(&mut r, title("--- Solana Network Status ---"));
    push_entry(&mut r, field("Cluster Version", LABEL_WIDTH, String::from_str(version), Tone::Cyan));
    push_entry(&mut r, field("Current Epoch", LABEL_WIDTH, decimal_string(epoch.epoch), Tone::Yellow));
    let progress = match epoch_progress(epoch.slot_index, epoch.slots_in_epoch) {
        Some(p) => {
            let mut t = wide_decimal_string(p);
            t.append("%");
            t
        },
        None => String::from_str("N/A"),
    };
    push_entry(&mut r, field("Epoch Progress", LABEL_WIDTH, progress, Tone::Plain));
    push_entry(
        &mut r,
        field("Current Slot", LABEL_WIDTH, decimal_string(epoch.absolute_slot), Tone::Green),
    );
    push_entry(&mut r, field("Block Height", LABEL_WIDTH, decimal_string(block_height), Tone::Green));
    push_entry(&mut r, text_line("-----------------------------", Tone::Magenta));
    assert(entries(r@) =~= status_report(*epoch, version@, block_height as nat));
    r
}

} // verus!
