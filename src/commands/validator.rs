//! The report on the active validators.
use vstd::prelude::*;
use crate::amount::{sol_amount, sol_text};
use crate::commands::account::LIST_CAP;
use crate::report::{entries, notice_after, push_entry, push_notice, shown_count, shown_rows, Entry, EntryView};
use crate::text::{decimal, decimal_string, decimal_with};

verus! {

/// What the endpoint reports of one active validator.
#[derive(Clone, Debug)]
pub struct VoteAccountData {
    pub node_pubkey: String,
    pub vote_pubkey: String,
    /// The commission, in percent.
    pub commission: u8,
    /// The stake delegated to it, in lamports.
    pub activated_stake: u64,
}

pub open spec fn validator_row(v: VoteAccountData) -> Seq<Seq<char>> {
    seq![
        v.node_pubkey@,
        v.vote_pubkey@,
        decimal(v.commission as nat) + "%"@,
        sol_text(v.activated_stake as nat) + " SOL"@,
    ]
}

pub open spec fn validator_rows(votes: Seq<VoteAccountData>) -> Seq<Seq<Seq<char>>> {
    Seq::new(votes.len(), |i: int| validator_row(votes[i]))
}

pub open spec fn validators_report(votes: Seq<VoteAccountData>) -> Seq<EntryView> {
    seq![
        EntryView::Title("--- Active Validators ("@ + decimal(votes.len()) + ") ---"@),
        EntryView::Table(
            seq!["Node Pubkey"@, "Vote Pubkey"@, "Commission"@, "Activated Stake"@],
            shown_rows(validator_rows(votes), 20),
        ),
    ] + notice_after(votes.len(), 20, ""@)
}

fn validator_table(votes: &Vec<VoteAccountData>) -> (e: Entry)
    ensures
        e@ == EntryView::Table(
            seq!["Node Pubkey"@, "Vote Pubkey"@, "Commission"@, "Activated Stake"@],
            shown_rows(validator_rows(votes@), 20),
        ),
{
    let n = votes.len();
    let shown = if n <= LIST_CAP {
        n
    } else {
        LIST_CAP
    };
    let mut header: Vec<String> = Vec::new();
    header.push(String::from_str("Node Pubkey"));
    header.push(String::from_str("Vote Pubkey"));
    header.push(String::from_str("Commission"));
    header.push(String::from_str("Activated Stake"));
    let mut rows: Vec<Vec<String>> = Vec::new();
    let mut i: usize = 0;
    while i < shown
        invariant
            n == votes@.len(),
            shown == shown_count(n as nat, 20),
            i <= shown,
            rows@.len() == i,
            rows.deep_view() == validator_rows(votes@).take(i as int),
        decreases shown - i,
    {
        let v = &votes[i];
        let mut row: Vec<String> = Vec::new();
        row.push(v.node_pubkey.clone());
        row.push(v.vote_pubkey.clone());
        row.push(decimal_with(v.commission as u64, "%"));
        row.push(sol_amount(v.activated_stake));
        assert(row.deep_view() =~= validator_row(votes@[i as int]));
        let ghost before = rows.deep_view();
        let ghost old_rows = rows@;
        rows.push(row);
        i = i + 1;
        proof {
            assert forall|j: int| 0 <= j < i implies #[trigger] rows@[j].deep_view()
                == validator_rows(votes@)[j] by {
                if j < i - 1 {
                    assert(rows@[j] == old_rows[j]);
                    assert(before[j] == old_rows[j].deep_view());
                }
            }
        }
        assert(rows.deep_view() =~= validator_rows(votes@).take(i as int));
    }
    assert(header.deep_view() =~= seq![
        "Node Pubkey"@,
        "Vote Pubkey"@,
        "Commission"@,
        "Activated Stake"@,
    ]);
    Entry::Table(header, rows)
}

/// The active validators: their count, then a table of at most twenty of them
/// with node and vote keys, commission and activated stake in the native unit,
/// then a notice of the rest.
pub fn get_validators(votes: &Vec<VoteAccountData>) -> (r: Vec<Entry>)
    ensures
        entries(r@) == validators_report(votes@),
{
    let mut head = String::from_str("--- Active Validators (");
    let count = decimal_string(votes.len() as u64);
    head.append(count.as_str());
    head.append(") ---");
    let mut r: Vec<Entry> = Vec::new();
    push_entry(&mut r, Entry::Title(head));
    push_entry(&mut r, validator_table(votes));
    push_notice(&mut r, votes.len(), LIST_CAP, "");
    assert(entries(r@) =~= validators_report(votes@));
    r
}

} // verus!
