//! The report on one block.
use vstd::prelude::*;
use crate::report::{
    entries, field, field20, notice_after, push_entry, push_notice, shown_count, shown_rows,
    title, Entry, EntryView, Tone, LABEL_WIDTH,
};
use crate::text::{decimal, decimal_string, decimal_with};
use crate::time::{
    rfc2822_at, rfc2822_text, rfc2822_writable, unix_time_string, unix_time_text, RFC2822_MAX_SECS,
    RFC2822_MIN_SECS,
};

verus! {

/// How many of a block's transaction signatures the report lists.
pub const BLOCK_TX_CAP: usize = 10;

/// What the endpoint reports of a block, fetched with signatures only.
#[derive(Clone, Debug)]
pub struct BlockData {
    pub blockhash: String,
    pub previous_blockhash: String,
    /// Unix time of the block, when the endpoint knows it.
    pub block_time: Option<i64>,
    pub parent_slot: u64,
    /// How many reward entries the block has, when rewards were reported.
    pub rewards: Option<u64>,
    /// The block's transaction signatures, when they were reported.
    pub signatures: Option<Vec<String>>,
}

pub open spec fn signature_rows(sigs: Seq<String>) -> Seq<Seq<Seq<char>>> {
    Seq::new(sigs.len(), |i: int| seq![decimal(i as nat), sigs[i]@])
}

/// The block time line: present for every known time. A time in the years 0
/// to 9999 is written in RFC 2822; any other time, which RFC 2822 cannot
/// write, is shown as its Unix seconds.
pub open spec fn block_time_part(t: Option<i64>) -> Seq<EntryView> {
    match t {
        Some(secs) => seq![
            field20(
                "Block Time"@,
                if rfc2822_writable(secs as int) {
                    rfc2822_text(secs as int)
                } else {
                    unix_time_text(secs as int)
                },
                Tone::Plain,
            ),
        ],
        None => seq![],
    }
}

pub open spec fn rewards_part(rewards: Option<u64>) -> Seq<EntryView> {
    match rewards {
        Some(n) => seq![field20("Rewards"@, decimal(n as nat) + " entries"@, Tone::Plain)],
        None => seq![],
    }
}

pub open spec fn transactions_part(sigs: Option<Vec<String>>) -> Seq<EntryView> {
    match sigs {
        Some(s) => seq![
            EntryView::Title("--- Transactions ("@ + decimal(s@.len()) + ") ---"@),
            EntryView::Table(
                seq!["Index"@, "Signature"@],
                shown_rows(signature_rows(s@), 10),
            ),
        ] + notice_after(s@.len(), 10, " transactions"@),
        None => seq![],
    }
}

pub open spec fn block_report(slot: nat, b: BlockData) -> Seq<EntryView> {
    seq![
        EntryView::Title("--- Block Details ---"@),
        field20("Slot"@, decimal(slot), Tone::Green),
        field20("Blockhash"@, b.blockhash@, Tone::Yellow),
        field20("Previous Blockhash"@, b.previous_blockhash@, Tone::Plain),
    ] + block_time_part(b.block_time) + seq![
        field20("Parent Slot"@, decimal(b.parent_slot as nat), Tone::Plain),
    ] + rewards_part(b.rewards) + transactions_part(b.signatures)
}

fn signature_table(sigs: &Vec<String>) -> (e: Entry)
    ensures
        e@ == EntryView::Table(
            seq!["Index"@, "Signature"@],
            shown_rows(signature_rows(sigs@), 10),
        ),
{
    let n = sigs.len();
    let shown = if n <= BLOCK_TX_CAP {
        n
    } else {
        BLOCK_TX_CAP
    };
    let mut header: Vec<String> = Vec::new();
    header.push(String::from_str("Index"));
    header.push(String::from_str("Signature"));
    let mut rows: Vec<Vec<String>> = Vec::new();
    let mut i: usize = 0;
    while i < shown
        invariant
            n == sigs@.len(),
            shown == shown_count(n as nat, 10),
            i <= shown,
            rows@.len() == i,
            rows.deep_view() == signature_rows(sigs@).take(i as int),
        decreases shown - i,
    {
        let mut row: Vec<String> = Vec::new();
        row.push(decimal_string(i as u64));
        row.push(sigs[i].clone());
        assert(row.deep_view() =~= seq![decimal(i as nat), sigs@[i as int]@]);
        let ghost before = rows.deep_view();
        let ghost old_rows = rows@;
        let ghost rv = row.deep_view();
        rows.push(row);
        i = i + 1;
        proof {
            assert forall|j: int| 0 <= j < i implies #[trigger] rows@[j].deep_view()
                == signature_rows(sigs@)[j] by {
                if j < i - 1 {
                    assert(rows@[j] == old_rows[j]);
                    assert(before[j] == old_rows[j].deep_view());
                }
            }
        }
        assert(rows.deep_view() =~= signature_rows(sigs@).take(i as int));
    }
    assert(header.deep_view() =~= seq!["Index"@, "Signature"@]);
    Entry::Table(header, rows)
}

/// The details of the block at `slot`: its hashes, time, parent, rewards count,
/// then at most ten of its transaction signatures and a notice of the rest.
pub fn get_block(slot: u64, block: &BlockData) -> (r: Vec<Entry>)
    ensures
        entries(r@) == block_report(slot as nat, *block),
{
    let mut r: Vec<Entry> = Vec::new();
    push_entry(&mut r, title("--- Block Details ---"));
    push_entry(&mut r, field("Slot", LABEL_WIDTH, decimal_string(slot), Tone::Green));
    push_entry(&mut r, field("Blockhash", LABEL_WIDTH, block.blockhash.clone(), Tone::Yellow));
    push_entry(
        &mut r,
        field("Previous Blockhash", LABEL_WIDTH, block.previous_blockhash.clone(), Tone::Plain),
    );
    let ghost part1 = entries(r@);
    match block.block_time {
        Some(secs) => {
            let text = if RFC2822_MIN_SECS <= secs && secs <= RFC2822_MAX_SECS {
                rfc2822_at(secs)
            } else {
                unix_time_string(secs)
            };
            push_entry(&mut r, field("Block Time", LABEL_WIDTH, text, Tone::Plain));
        },
        None => {},
    }
    assert(entries(r@) =~= part1 + block_time_part(block.block_time));
    push_entry(&mut r, field("Parent Slot", LABEL_WIDTH, decimal_string(block.parent_slot), Tone::Plain));
    let ghost part2 = entries(r@);
    match block.rewards {
        Some(n) => {
            push_entry(&mut r, field("Rewards", LABEL_WIDTH, decimal_with(n, " entries"), Tone::Plain));
        },
        None => {},
    }
    assert(entries(r@) =~= part2 + rewards_part(block.rewards));
    let ghost part3 = entries(r@);
    match &block.signatures {
        Some(sigs) => {
            let mut head = String::from_str("--- Transactions (");
            let count = decimal_string(sigs.len() as u64);
            head.append(count.as_str());
            head.append(") ---");
            push_entry(&mut r, Entry::Title(head));
            push_entry(&mut r, signature_table(sigs));
            push_notice(&mut r, sigs.len(), BLOCK_TX_CAP, " transactions");
        },
        None => {},
    }
    assert(entries(r@) =~= part3 + transactions_part(block.signatures));
    assert(entries(r@) =~= block_report(slot as nat, *block));
    r
}

} // verus!
