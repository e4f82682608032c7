//! Reports on a program: its account, and the accounts it owns.
use vstd::prelude::*;
use crate::amount::{sol_amount, sol_text};
use crate::commands::account::{AccountData, LIST_CAP};
use crate::report::{
    entries, field, field20, notice_after, push_entry, push_notice, shown_count, shown_rows,
    text_line, title, Entry, EntryView, Tone, LABEL_WIDTH,
};
use crate::text::{decimal, decimal_string, decimal_with, padded_right, padded_right_string};

verus! {

/// One account that a program owns.
#[derive(Clone, Debug)]
pub struct OwnedAccount {
    pub pubkey: String,
    pub lamports: u64,
}

pub open spec fn program_report(id: Seq<char>, account: AccountData) -> Seq<EntryView> {
    (if account.executable {
        seq![]
    } else {
        seq![EntryView::Line("Warning: Account is not marked executable!"@, Tone::Yellow)]
    }) + seq![
        EntryView::Title("--- Program Details ---"@),
        field20("Program ID"@, id, Tone::Yellow),
        field20("Owner"@, account.owner@, Tone::Plain),
        field20("Data Size"@, decimal(account.data_len as nat) + " bytes"@, Tone::Plain),
        field20("Balance"@, sol_text(account.lamports as nat) + " SOL"@, Tone::Plain),
    ]
}

/// The details of a program's account, after a warning when the account is
/// not executable.
pub fn get_info(prog_id: &str, account: &AccountData) -> (r: Vec<Entry>)
    ensures
        entries(r@) == program_report(prog_id@, *account),
{
    let mut r: Vec<Entry> = Vec::new();
    if !account.executable {
        push_entry(&mut r, text_line("Warning: Account is not marked executable!", Tone::Yellow));
    }
    push_entry(&mut r, title("--- Program Details ---"));
    push_entry(&mut r, field("Program ID", LABEL_WIDTH, String::from_str(prog_id), Tone::Yellow));
    push_entry(&mut r, field("Owner", LABEL_WIDTH, account.owner.clone(), Tone::Plain));
    push_entry(&mut r, field("Data Size", LABEL_WIDTH, decimal_with(account.data_len, " bytes"), Tone::Plain));
    push_entry(&mut r, field("Balance", LABEL_WIDTH, sol_amount(account.lamports), Tone::Plain));
    assert(entries(r@) =~= program_report(prog_id@, *account));
    r
}

pub open spec fn owned_row(a: OwnedAccount) -> EntryView {
    EntryView::Line(
        padded_right(a.pubkey@, 44) + " | "@ + decimal(a.lamports as nat) + " lamports"@,
        Tone::Plain,
    )
}

pub open spec fn owned_rows(accounts: Seq<OwnedAccount>) -> Seq<EntryView> {
    Seq::new(accounts.len(), |i: int| owned_row(accounts[i]))
}

pub open spec fn owned_report(accounts: Seq<OwnedAccount>) -> Seq<EntryView> {
    seq![EntryView::Title("--- Owned Accounts ("@ + decimal(accounts.len()) + ") ---"@)]
        + shown_rows(owned_rows(accounts), 20) + notice_after(accounts.len(), 20, ""@)
}

fn owned_line(a: &OwnedAccount) -> (e: Entry)
    ensures
        e@ == owned_row(*a),
{
    let mut t = padded_right_string(a.pubkey.as_str(), 44);
    t.append(" | ");
    let amount = decimal_with(a.lamports, " lamports");
    t.append(amount.as_str());
    assert(t@ =~= padded_right(a.pubkey@, 44) + " | "@ + decimal(a.lamports as nat) + " lamports"@);
    Entry::Line(t, Tone::Plain)
}

/// The accounts that a program owns: their count, at most twenty rows of key
/// and balance, then a notice of the rest.
pub fn get_accounts(accounts: &Vec<OwnedAccount>) -> (r: Vec<Entry>)
    ensures
        entries(r@) == owned_report(accounts@),
{
    let n = accounts.len();
    let shown = if n <= LIST_CAP {
        n
    } else {
        LIST_CAP
    };
    let mut head = String::from_str("--- Owned Accounts (");
    let count = decimal_string(n as u64);
    head.append(count.as_str());
    head.append(") ---");
    let mut r: Vec<Entry> = Vec::new();
    push_entry(&mut r, Entry::Title(head));
    let ghost first = entries(r@);
    let mut i: usize = 0;
    while i < shown
        invariant
            n == accounts@.len(),
            shown == shown_count(n as nat, 20),
            i <= shown,
            entries(r@) == first + owned_rows(accounts@).take(i as int),
        decreases shown - i,
    {
        push_entry(&mut r, owned_line(&accounts[i]));
        i = i + 1;
        assert(owned_rows(accounts@).take(i as int) =~= owned_rows(accounts@).take(
            (i - 1) as int,
        ).push(owned_row(accounts@[i - 1])));
    }
    push_notice(&mut r, n, LIST_CAP, "");
    assert(entries(r@) =~= owned_report(accounts@));
    r
}

} // verus!
