//! Reports on tokens: the token accounts of an owner, and a mint.
use vstd::prelude::*;
use crate::commands::account::{token_row, token_rows, AccountData, LIST_CAP};
use crate::report::{
    entries, field, field20, notice_after, push_entry, push_notice, shown_count, shown_rows,
    text_line, title, Entry, EntryView, Tone, LABEL_WIDTH,
};
use crate::text::{decimal, decimal_string, decimal_with, same_text};

verus! {

/// The program that owns every token mint and token account.
pub const TOKEN_PROGRAM_ID: &'static str = "TokenkegQfeZyiNwAJbNbGKPFXCWuBvf9Ss623VQ5DA";

pub open spec fn token_accounts_report(accounts: Seq<String>) -> Seq<EntryView> {
    seq![EntryView::Title("--- Token Accounts ("@ + decimal(accounts.len()) + ") ---"@)]
        + if accounts.len() == 0 {
        seq![EntryView::Line("No token accounts found."@, Tone::Plain)]
    } else {
        shown_rows(token_rows(accounts), 20) + notice_after(accounts.len(), 20, ""@)
    }
}

/// The token accounts of an owner: their count, then "No token accounts
/// found." when there are none, else at most twenty of their addresses and a
/// notice of the rest.
pub fn get_token_accounts(accounts: &Vec<String>) -> (r: Vec<Entry>)
    ensures
        entries(r@) == token_accounts_report(accounts@),
{
    let n = accounts.len();
    let mut head = String::from_str("--- Token Accounts (");
    let count = decimal_string(n as u64);
    head.append(count.as_str());
    head.append(") ---");
    let mut r: Vec<Entry> = Vec::new();
    push_entry(&mut r, Entry::Title(head));
    if n == 0 {
        push_entry(&mut r, text_line("No token accounts found.", Tone::Plain));
        assert(entries(r@) =~= token_accounts_report(accounts@));
        return r;
    }
    let shown = if n <= LIST_CAP {
        n
    } else {
        LIST_CAP
    };
    let ghost first = entries(r@);
    let mut i: usize = 0;
    while i < shown
        invariant
            n == accounts@.len(),
            shown == shown_count(n as nat, 20),
            i <= shown,
            entries(r@) == first + token_rows(accounts@).take(i as int),
        decreases shown - i,
    {
        let mut t = String::from_str("Account: ");
        t.append(accounts[i].as_str());
        push_entry(&mut r, Entry::Line(t, Tone::Plain));
        i = i + 1;
        assert(token_rows(accounts@).take(i as int) =~= token_rows(accounts@).take(
            (i - 1) as int,
        ).push(token_row(accounts@[i - 1]@)));
    }
    push_notice(&mut r, n, LIST_CAP, "");
    assert(entries(r@) =~= token_accounts_report(accounts@));
    r
}

pub open spec fn mint_report(mint: Seq<char>, account: AccountData) -> Seq<EntryView> {
    (if account.owner@ == TOKEN_PROGRAM_ID@ {
        seq![]
    } else {
        seq![
            EntryView::Line(
                "Warning: This does not appear to be a Token mint (Owner mismatch)."@,
                Tone::Yellow,
            ),
        ]
    }) + seq![
        EntryView::Title("--- Token Mint Details ---"@),
        field20("Address"@, mint, Tone::Yellow),
        field20("Data Size"@, decimal(account.data_len as nat) + " bytes"@, Tone::Plain),
        field20("Owner Program"@, account.owner@, Tone::Plain),
    ]
}

/// The details of a token mint's account, after a warning when the token
/// program does not own it. The mismatch is advisory: the report goes on.
pub fn get_mint_info(mint: &str, account: &AccountData) -> (r: Vec<Entry>)
    ensures
        entries(r@) == mint_report(mint@, *account),
{
    let mut r: Vec<Entry> = Vec::new();
    if !same_text(&account.owner, TOKEN_PROGRAM_ID) {
        push_entry(
            &mut r,
            text_line(
                "Warning: This does not appear to be a Token mint (Owner mismatch).",
                Tone::Yellow,
            ),
        );
    }
    push_entry(&mut r, title("--- Token Mint Details ---"));
    push_entry(&mut r, field("Address", LABEL_WIDTH, String::from_str(mint), Tone::Yellow));
    push_entry(&mut r, field("Data Size", LABEL_WIDTH, decimal_with(account.data_len, " bytes"), Tone::Plain));
    push_entry(&mut r, field("Owner Program", LABEL_WIDTH, account.owner.clone(), Tone::Plain));
    assert(entries(r@) =~= mint_report(mint@, *account));
    r
}

} // verus!
