//! The supply of the native unit, and the network's throughput.
use vstd::prelude::*;
use crate::amount::{sol_amount, sol_text};
use crate::report::{entries, field, field_of, push_entry, text_line, title, Entry, EntryView, Tone};
use crate::text::{decimal, decimal_with};

verus! {

/// The label column of the supply report.
pub const SUPPLY_LABEL_WIDTH: usize = 25;

/// What the endpoint reports of the supply, in lamports.
#[derive(Clone, Debug)]
pub struct SupplyData {
    pub total: u64,
    pub circulating: u64,
    pub non_circulating: u64,
}

pub open spec fn supply_report(s: SupplyData) -> Seq<EntryView> {
    seq![
        EntryView::Title("--- SOL Supply ---"@),
        field_of("Total Supply"@, 25, sol_text(s.total as nat) + " SOL"@, Tone::Green),
        field_of("Circulating"@, 25, sol_text(s.circulating as nat) + " SOL"@, Tone::Green),
        field_of(
            "Non-Circulating"@,
            25,
            sol_text(s.non_circulating as nat) + " SOL"@,
            Tone::Yellow,
        ),
    ]
}

/// The total, circulating and non-circulating supply in the native unit.
pub fn get_supply(supply: &SupplyData) -> (r: Vec<Entry>)
    ensures
        entries(r@) == supply_report(*supply),
{
    let mut r: Vec<Entry> = Vec::new();
    push_entry(&mut r, title("--- SOL Supply ---"));
    push_entry(
        &mut r,
        field("Total Supply", SUPPLY_LABEL_WIDTH, sol_amount(supply.total), Tone::Green),
    );
    push_entry(
        &mut r,
        field("Circulating", SUPPLY_LABEL_WIDTH, sol_amount(supply.circulating), Tone::Green),
    );
    push_entry(
        &mut r,
        field(
            "Non-Circulating",
            SUPPLY_LABEL_WIDTH,
            sol_amount(supply.non_circulating),
            Tone::Yellow,
        ),
    );
    assert(entries(r@) =~= supply_report(*supply));
    r
}

/// What the endpoint reports of its latest performance sample.
#[derive(Clone, Debug)]
pub struct PerformanceSample {
    pub num_transactions: u64,
    pub sample_period_secs: u16,
}

pub open spec fn tps_report(sample: Option<PerformanceSample>, rate: Seq<char>) -> Seq<EntryView> {
    seq![EntryView::Title("--- Network Performance (Avg last 5 samples) ---"@)] + match sample {
        Some(p) => seq![
            field_of("Current TPS"@, 25, rate + " TPS"@, Tone::Green),
            field_of(
                "Sample Period"@,
                25,
                decimal(p.sample_period_secs as nat) + " slots"@,
                Tone::Plain,
            ),
            field_of(
                "Transactions in Window"@,
                25,
                decimal(p.num_transactions as nat) + " txs"@,
                Tone::Plain,
            ),
        ],
        None => seq![EntryView::Line("No performance samples available."@, Tone::Plain)],
    }
}

/// The throughput of the latest performance sample: `rate` is its
/// transactions per second as text, then come the sample's period and
/// transaction count; or a note that the endpoint has no sample.
pub fn get_tps(sample: &Option<PerformanceSample>, rate: &str) -> (r: Vec<Entry>)
    ensures
        entries(r@) == tps_report(*sample, rate@),
{
    let mut r: Vec<Entry> = Vec::new();
    push_entry(&mut r, title("--- Network Performance (Avg last 5 samples) ---"));
    match sample {
        Some(p) => {
            let mut t = String::from_str(rate);
            t.append(" TPS");
            push_entry(&mut r, field("Current TPS", SUPPLY_LABEL_WIDTH, t, Tone::Green));
            push_entry(
                &mut r,
                field(
                    "Sample Period",
                    SUPPLY_LABEL_WIDTH,
                    decimal_with(p.sample_period_secs as u64, " slots"),
                    Tone::Plain,
                ),
            );
            push_entry(
                &mut r,
                field(
                    "Transactions in Window",
                    SUPPLY_LABEL_WIDTH,
                    decimal_with(p.num_transactions, " txs"),
                    Tone::Plain,
                ),
            );
        },
        None => push_entry(&mut r, text_line("No performance samples available.", Tone::Plain)),
    }
    assert(entries(r@) =~= tps_report(*sample, rate@));
    r
}

} // verus!
