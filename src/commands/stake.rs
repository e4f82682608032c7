//! The report on a stake account.
use vstd::prelude::*;
use crate::amount::{sol_amount, sol_text};
use crate::commands::account::{AccountData, STAKE_PROGRAM_ID};
use crate::report::{entries, field, field20, push_entry, text_line, title, Entry, EntryView, Tone, LABEL_WIDTH};
use crate::text::{decimal, decimal_with, same_text};

verus! {

pub open spec fn stake_account_report(address: Seq<char>, account: AccountData) -> Seq<EntryView> {
    (if account.owner@ == STAKE_PROGRAM_ID@ {
        seq![]
    } else {
        seq![
            EntryView::Line(
                "Warning: This does not appear to be a Stake account (Owner mismatch)."@,
                Tone::Yellow,
            ),
        ]
    }) + seq![
        EntryView::Title("--- Stake Account Details ---"@),
        field20("Address"@, address, Tone::Yellow),
        field20("Balance"@, sol_text(account.lamports as nat) + " SOL"@, Tone::Green),
        field20("Data Size"@, decimal(account.data_len as nat) + " bytes"@, Tone::Plain),
        field20("State"@, "Active (Assumed/Raw)"@, Tone::Yellow),
        field20("Stake Balance"@, sol_text(account.lamports as nat) + " SOL"@, Tone::Plain),
        field20("Note"@, "Detailed activation requires additional parsing logic."@, Tone::Italic),
    ]
}

/// The details of a stake account, after a warning when the stake program
/// does not own it. The mismatch is advisory: the report goes on.
pub fn get_stake_account(address: &str, account: &AccountData) -> (r: Vec<Entry>)
    ensures
        entries(r@) == stake_account_report(address@, *account),
{
    let mut r: Vec<Entry> = Vec::new();
    if !same_text(&account.owner, STAKE_PROGRAM_ID) {
        push_entry(
            &mut r,
            text_line(
                "Warning: This does not appear to be a Stake account (Owner mismatch).",
                Tone::Yellow,
            ),
        );
    }
    push_entry(&mut r, title("--- Stake Account Details ---"));
    push_entry(&mut r, field("Address", LABEL_WIDTH, String::from_str(address), Tone::Yellow));
    push_entry(&mut r, field("Balance", LABEL_WIDTH, sol_amount(account.lamports), Tone::Green));
    push_entry(&mut r, field("Data Size", LABEL_WIDTH, decimal_with(account.data_len, " bytes"), Tone::Plain));
    push_entry(
        &mut r,
        field("State", LABEL_WIDTH, String::from_str("Active (Assumed/Raw)"), Tone::Yellow),
    );
    push_entry(&mut r, field("Stake Balance", LABEL_WIDTH, sol_amount(account.lamports), Tone::Plain));
    push_entry(
        &mut r,
        field(
            "Note",
            LABEL_WIDTH,
            String::from_str("Detailed activation requires additional parsing logic."),
            Tone::Italic,
        ),
    );
    assert(entries(r@) =~= stake_account_report(address@, *account));
    r
}

} // verus!
