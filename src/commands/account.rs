//! Reports on one account: its details, history, token accounts and stake.
use vstd::prelude::*;
use crate::amount::{sol_amount, sol_text};
use crate::report::{
    entries, field, field20, notice_after, push_entry, push_notice, shown_count, shown_rows,
    text_line, title, Entry, EntryView, Tone, LABEL_WIDTH,
};
use crate::text::{decimal, decimal_string, decimal_with, same_text, zero_padded, zero_padded_string};

verus! {

/// The owner of every stake account.
pub const STAKE_PROGRAM_ID: &'static str = "Stake11111111111111111111111111111111111111";

/// How many entries of a list a report shows.
pub const LIST_CAP: usize = 20;

/// What the endpoint reports of an account.
#[derive(Clone, Debug)]
pub struct AccountData {
    pub lamports: u64,
    /// The owner program, in base58.
    pub owner: String,
    pub executable: bool,
    /// The size of the account's data in bytes.
    pub data_len: u64,
}

/// One transaction in an account's history.
#[derive(Clone, Debug)]
pub struct SignatureRecord {
    pub signature: String,
    /// Whether the transaction's execution error field was present.
    pub failed: bool,
    pub slot: u64,
}

pub open spec fn yes_no(b: bool) -> Seq<char> {
    if b {
        "Yes"@
    } else {
        "No"@
    }
}

pub open spec fn account_info_report(address: Seq<char>, balance: nat, account: AccountData) -> Seq<
    EntryView,
> {
    seq![
        EntryView::Title("--- Account Information ---"@),
        field20("Address"@, address, Tone::Yellow),
        field20("Balance"@, sol_text(balance) + " SOL"@, Tone::Green),
        field20("Lamports"@, decimal(balance) + " lamports"@, Tone::Plain),
        field20("Owner Program"@, account.owner@, Tone::Magenta),
        field20(
            "Executable"@,
            yes_no(account.executable),
            if account.executable {
                Tone::Green
            } else {
                Tone::Yellow
            },
        ),
        field20("Data Size"@, decimal(account.data_len as nat) + " bytes"@, Tone::Plain),
    ]
}

/// The details of an account: its address, balance in the native unit and in
/// lamports, owner program, executable flag and data size.
pub fn get_info(address: &str, balance: u64, account: &AccountData) -> (r: Vec<Entry>)
    ensures
        entries(r@) == account_info_report(address@, balance as nat, *account),
{
    let mut r: Vec<Entry> = Vec::new();
    push_entry(&mut r, title("--- Account Information ---"));
    push_entry(&mut r, field("Address", LABEL_WIDTH, String::from_str(address), Tone::Yellow));
    push_entry(&mut r, field("Balance", LABEL_WIDTH, sol_amount(balance), Tone::Green));
    push_entry(&mut r, field("Lamports", LABEL_WIDTH, decimal_with(balance, " lamports"), Tone::Plain));
    push_entry(&mut r, field("Owner Program", LABEL_WIDTH, account.owner.clone(), Tone::Magenta));
    if account.executable {
        push_entry(&mut r, field("Executable", LABEL_WIDTH, String::from_str("Yes"), Tone::Green));
    } else {
        push_entry(&mut r, field("Executable", LABEL_WIDTH, String::from_str("No"), Tone::Yellow));
    }
    push_entry(&mut r, field("Data Size", LABEL_WIDTH, decimal_with(account.data_len, " bytes"), Tone::Plain));
    assert(entries(r@) =~= account_info_report(address@, balance as nat, *account));
    r
}

pub open spec fn status_word(failed: bool) -> Seq<char> {
    if failed {
        "FAILED"@
    } else {
        "SUCCESS"@
    }
}

pub open spec fn history_row(i: nat, rec: SignatureRecord) -> EntryView {
    EntryView::Line(
        "["@ + zero_padded(i, 2) + "] "@ + rec.signature@ + " | "@ + status_word(rec.failed)
            + " | Slot: "@ + decimal(rec.slot as nat),
        if rec.failed {
            Tone::Red
        } else {
            Tone::Green
        },
    )
}

pub open spec fn history_rows(recs: Seq<SignatureRecord>) -> Seq<EntryView> {
    Seq::new(recs.len(), |i: int| history_row(i as nat, recs[i]))
}

pub open spec fn history_report(recs: Seq<SignatureRecord>) -> Seq<EntryView> {
    seq![
        EntryView::Title(
            "--- Transaction History (Last "@ + decimal(shown_count(recs.len(), 20)) + ") ---"@,
        ),
    ] + shown_rows(history_rows(recs), 20) + notice_after(recs.len(), 20, ""@)
}

fn history_line(i: usize, rec: &SignatureRecord) -> (e: Entry)
    ensures
        e@ == history_row(i as nat, *rec),
{
    let mut t = String::from_str("[");
    let idx = zero_padded_string(i as u64, 2);
    t.append(idx.as_str());
    t.append("] ");
    t.append(rec.signature.as_str());
    t.append(" | ");
    if rec.failed {
        t.append("FAILED");
    } else {
        t.append("SUCCESS");
    }
    t.append(" | Slot: ");
    let slot = decimal_string(rec.slot);
    t.append(slot.as_str());
    let tone = if rec.failed {
        Tone::Red
    } else {
        Tone::Green
    };
    Entry::Line(t, tone)
}

/// An account's recent transactions, newest first: at most twenty rows, each
/// with its position, signature, outcome and slot, then a notice of the rest.
pub fn get_history(records: &Vec<SignatureRecord>) -> (r: Vec<Entry>)
    ensures
        entries(r@) == history_report(records@),
{
    let n = records.len();
    let shown = if n <= LIST_CAP {
        n
    } else {
        LIST_CAP
    };
    let mut head = String::from_str("--- Transaction History (Last ");
    let count = decimal_string(shown as u64);
    head.append(count.as_str());
    head.append(") ---");
    let mut r: Vec<Entry> = Vec::new();
    push_entry(&mut r, Entry::Title(head));
    let ghost first = entries(r@);
    let mut i: usize = 0;
    while i < shown
        invariant
            n == records@.len(),
            shown == shown_count(n as nat, 20),
            i <= shown,
            entries(r@) == first + history_rows(records@).take(i as int),
        decreases shown - i,
    {
        push_entry(&mut r, history_line(i, &records[i]));
        i = i + 1;
        assert(history_rows(records@).take(i as int) =~= history_rows(records@).take(
            (i - 1) as int,
        ).push(history_row((i - 1) as nat, records@[i - 1])));
    }
    push_notice(&mut r, n, LIST_CAP, "");
    assert(entries(r@) =~= history_report(records@));
    r
}

pub open spec fn token_row(pubkey: Seq<char>) -> EntryView {
    EntryView::Line("Account: "@ + pubkey, Tone::Plain)
}

pub open spec fn token_rows(accounts: Seq<String>) -> Seq<EntryView> {
    Seq::new(accounts.len(), |i: int| token_row(accounts[i]@))
}

pub open spec fn tokens_report(accounts: Seq<String>) -> Seq<EntryView> {
    seq![EntryView::Title("--- SPL Token Accounts ("@ + decimal(accounts.len()) + ") ---"@)]
        + shown_rows(token_rows(accounts), 20) + notice_after(accounts.len(), 20, ""@)
}

/// The token accounts that an address owns: their count, at most twenty of
/// their addresses, then a notice of the rest.
pub fn get_tokens(accounts: &Vec<String>) -> (r: Vec<Entry>)
    ensures
        entries(r@) == tokens_report(accounts@),
{
    let n = accounts.len();
    let shown = if n <= LIST_CAP {
        n
    } else {
        LIST_CAP
    };
    let mut head = String::from_str("--- SPL Token Accounts (");
    let count = decimal_string(n as u64);
    head.append(count.as_str());
    head.append(") ---");
    let mut r: Vec<Entry> = Vec::new();
    push_entry(&mut r, Entry::Title(head));
    let ghost first = entries(r@);
    let mut i: usize = 0;
    while i < shown
        invariant
            n == accounts@.len(),
            shown == shown_count(n as nat, 20),
            i <= shown,
            entries(r@) == first + token_rows(accounts@).take(i as int),
        decreases shown - i,
    {
        let mut t = String::from_str("Account: ");
        t.append(accounts[i].as_str());
        push_entry(&mut r, Entry::Line(t, Tone::Plain));
        i = i + 1;
        assert(token_rows(accounts@).take(i as int) =~= token_rows(accounts@).take(
            (i - 1) as int,
        ).push(token_row(accounts@[i - 1]@)));
    }
    push_notice(&mut r, n, LIST_CAP, "");
    assert(entries(r@) =~= tokens_report(accounts@));
    r
}

pub open spec fn stake_summary_report(account: AccountData) -> Seq<EntryView> {
    if account.owner@ == STAKE_PROGRAM_ID@ {
        seq![
            EntryView::Title("--- Stake Account ---"@),
            EntryView::Line("Balance: "@ + sol_text(account.lamports as nat) + " SOL"@, Tone::Plain),
        ]
    } else {
        seq![EntryView::Line("Not a stake account."@, Tone::Plain)]
    }
}

/// The balance of a stake account, or a note that the account is not owned by
/// the stake program.
pub fn get_stake(account: &AccountData) -> (r: Vec<Entry>)
    ensures
        entries(r@) == stake_summary_report(*account),
{
    let mut r: Vec<Entry> = Vec::new();
    if same_text(&account.owner, STAKE_PROGRAM_ID) {
        push_entry(&mut r, title("--- Stake Account ---"));
        let mut t = String::from_str("Balance: ");
        let amount = sol_amount(account.lamports);
        t.append(amount.as_str());
        assert(t@ =~= "Balance: "@ + sol_text(account.lamports as nat) + " SOL"@);
        push_entry(&mut r, Entry::Line(t, Tone::Plain));
    } else {
        push_entry(&mut r, text_line("Not a stake account.", Tone::Plain));
    }
    assert(entries(r@) =~= stake_summary_report(*account));
    r
}

} // verus!
