//! The reports on one transaction: its details, and its logs alone.
use vstd::prelude::*;
use crate::report::{
    entries, field, field20, push_entry, text_line, title, Entry, EntryView, Tone, LABEL_WIDTH,
};
use crate::text::{decimal, decimal_string, decimal_with, zero_padded, zero_padded_string};
use crate::time::{unix_time_string, unix_time_text, utc_at, utc_text};

verus! {

/// A field that the endpoint may fill, leave empty, or not be asked for.
#[derive(Clone, Debug)]
pub enum Reported<T> {
    /// The endpoint reported a value.
    Present(T),
    /// The endpoint reported that there is no value.
    Absent,
    /// The endpoint left the field out on purpose.
    NotRequested,
}

/// The program that an inner instruction calls.
#[derive(Clone, Debug)]
pub enum InnerProgram {
    /// Not decoded by the endpoint: an index into the transaction's account keys.
    AccountIndex(u8),
    /// Decoded by the endpoint: the program's name.
    Named(String),
    /// Partly decoded by the endpoint: the program's id.
    Id(String),
}

/// The inner instructions that one top-level instruction caused.
#[derive(Clone, Debug)]
pub struct InnerGroup {
    /// The index of the top-level instruction.
    pub index: u8,
    pub instructions: Vec<InnerProgram>,
}

/// The status part of a fetched transaction.
#[derive(Clone, Debug)]
pub struct TxMeta {
    /// The execution error, as text, when the transaction failed.
    pub err: Option<String>,
    pub fee: u64,
    pub compute_units: Reported<u64>,
    pub logs: Reported<Vec<String>>,
    pub inner_instructions: Reported<Vec<InnerGroup>>,
}

/// The raw message of a transaction: its account keys and, for each top-level
/// instruction, the index of its program among those keys.
#[derive(Clone, Debug)]
pub struct RawMessage {
    pub account_keys: Vec<String>,
    pub program_indices: Vec<u8>,
}

/// What the endpoint reports of a transaction.
#[derive(Clone, Debug)]
pub struct TransactionData {
    pub slot: u64,
    pub block_time: Option<i64>,
    pub meta: Option<TxMeta>,
    /// The raw message, when the transaction came back as unparsed JSON.
    pub message: Option<RawMessage>,
}

/// How a transaction ended.
#[derive(Clone, Debug)]
pub enum TxOutcome {
    Succeeded,
    Failed(String),
}

pub open spec fn outcome_of(err: Option<String>) -> TxOutcome {
    match err {
        Some(d) => TxOutcome::Failed(d),
        None => TxOutcome::Succeeded,
    }
}

/// The outcome of a transaction: failed exactly when its execution error is present.
pub fn outcome(meta: &TxMeta) -> (r: TxOutcome)
    ensures
        r == outcome_of(meta.err),
{
    match &meta.err {
        Some(d) => TxOutcome::Failed(d.clone()),
        None => TxOutcome::Succeeded,
    }
}

pub open spec fn units_of(r: Reported<u64>) -> nat {
    match r {
        Reported::Present(v) => v as nat,
        _ => 0,
    }
}

/// The compute units to show: the reported value, or zero when none was reported.
pub fn compute_units(r: &Reported<u64>) -> (u: u64)
    ensures
        u == units_of(*r),
{
    match r {
        Reported::Present(v) => *v,
        _ => 0,
    }
}

/// The distinct programs that the first `k` instructions call, in the order of
/// their first call. An index outside the account keys names no program.
pub open spec fn programs_upto(keys: Seq<Seq<char>>, idx: Seq<u8>, k: nat) -> Seq<Seq<char>>
    decreases k,
{
    if k == 0 || k > idx.len() {
        seq![]
    } else {
        let prev = programs_upto(keys, idx, (k - 1) as nat);
        let p = idx[k - 1] as int;
        if p < keys.len() && !prev.contains(keys[p]) {
            prev.push(keys[p])
        } else {
            prev
        }
    }
}

pub open spec fn involved(keys: Seq<Seq<char>>, idx: Seq<u8>) -> Seq<Seq<char>> {
    programs_upto(keys, idx, idx.len())
}

/// Whether one of the first `k` instructions calls the program `p`.
pub open spec fn called_within(keys: Seq<Seq<char>>, idx: Seq<u8>, k: nat, p: Seq<char>) -> bool {
    exists|j: int| 0 <= j < k && idx[j] < keys.len() && keys[idx[j] as int] == p
}

/// The distinct programs of a transaction hold no repeats, each of them is the
/// program of some instruction, and the program of every instruction whose
/// index is in range is among them.
pub proof fn lemma_involved_distinct(keys: Seq<Seq<char>>, idx: Seq<u8>, k: nat)
    requires
        k <= idx.len(),
    ensures
        programs_upto(keys, idx, k).no_duplicates(),
        forall|i: int|
            0 <= i < programs_upto(keys, idx, k).len() ==> called_within(
                keys,
                idx,
                k,
                #[trigger] programs_upto(keys, idx, k)[i],
            ),
        forall|j: int|
            0 <= j < k && idx[j] < keys.len() ==> programs_upto(keys, idx, k).contains(
                #[trigger] keys[idx[j] as int],
            ),
    decreases k,
{
    if k > 0 {
        lemma_involved_distinct(keys, idx, (k - 1) as nat);
        let prev = programs_upto(keys, idx, (k - 1) as nat);
        let cur = programs_upto(keys, idx, k);
        let p = idx[k - 1] as int;
        if p < keys.len() && !prev.contains(keys[p]) {
            assert(cur == prev.push(keys[p]));
            assert forall|i: int| 0 <= i < cur.len() implies called_within(
                keys,
                idx,
                k,
                #[trigger] cur[i],
            ) by {
                if i < prev.len() {
                    assert(cur[i] == prev[i]);
                    assert(called_within(keys, idx, (k - 1) as nat, prev[i]));
                    let j = choose|j: int|
                        0 <= j < k - 1 && idx[j] < keys.len() && keys[idx[j] as int] == prev[i];
                    assert(0 <= j < k && idx[j] < keys.len() && keys[idx[j] as int] == cur[i]);
                } else {
                    assert(cur[i] == keys[idx[k - 1] as int]);
                    let j = k - 1;
                    assert(0 <= j < k && idx[j] < keys.len() && keys[idx[j] as int] == cur[i]);
                }
            }
            assert forall|j: int| 0 <= j < k && idx[j] < keys.len() implies cur.contains(
                #[trigger] keys[idx[j] as int],
            ) by {
                if j < k - 1 {
                    assert(prev.contains(keys[idx[j] as int]));
                    let w = choose|w: int| 0 <= w < prev.len() && prev[w] == keys[idx[j] as int];
                    assert(cur[w] == prev[w]);
                } else {
                    assert(cur[prev.len() as int] == keys[p]);
                }
            }
        } else {
            assert(cur == prev);
            assert forall|i: int| 0 <= i < cur.len() implies called_within(
                keys,
                idx,
                k,
                #[trigger] cur[i],
            ) by {
                assert(called_within(keys, idx, (k - 1) as nat, prev[i]));
                let j = choose|j: int|
                    0 <= j < k - 1 && idx[j] < keys.len() && keys[idx[j] as int] == prev[i];
                assert(0 <= j < k && idx[j] < keys.len() && keys[idx[j] as int] == cur[i]);
            }
            assert forall|j: int| 0 <= j < k && idx[j] < keys.len() implies cur.contains(
                #[trigger] keys[idx[j] as int],
            ) by {
                if j < k - 1 {
                    assert(prev.contains(keys[idx[j] as int]));
                }
            }
        }
    }
}

fn contains_text(v: &Vec<String>, s: &String) -> (r: bool)
    ensures
        r == v.deep_view().contains(s@),
{
    let mut j: usize = 0;
    while j < v.len()
        invariant
            j <= v@.len(),
            forall|w: int| 0 <= w < j ==> v.deep_view()[w] != s@,
        decreases v@.len() - j,
    {
        if v[j] == *s {
            assert(v.deep_view()[j as int] == s@);
            return true;
        }
        j = j + 1;
    }
    false
}

/// The distinct programs that a transaction's instructions call, in the order
/// of their first call, compared by their exact text.
pub fn involved_programs(msg: &RawMessage) -> (r: Vec<String>)
    ensures
        r.deep_view() == involved(msg.account_keys.deep_view(), msg.program_indices@),
{
    let ghost keys = msg.account_keys.deep_view();
    let ghost idx = msg.program_indices@;
    let mut programs: Vec<String> = Vec::new();
    let mut k: usize = 0;
    while k < msg.program_indices.len()
        invariant
            keys == msg.account_keys.deep_view(),
            idx == msg.program_indices@,
            k <= idx.len(),
            programs.deep_view() == programs_upto(keys, idx, k as nat),
        decreases idx.len() - k,
    {
        let p = msg.program_indices[k] as usize;
        let ghost prev = programs.deep_view();
        if p < msg.account_keys.len() {
            let key = &msg.account_keys[p];
            if !contains_text(&programs, key) {
                programs.push(key.clone());
                assert(programs.deep_view() =~= prev.push(keys[p as int]));
            }
        }
        k = k + 1;
    }
    assert(programs.deep_view() == involved(keys, idx));
    programs
}

// The text of the report.

pub open spec fn status_entry(o: TxOutcome) -> EntryView {
    match o {
        TxOutcome::Failed(d) => field20("Status"@, "FAILED ("@ + d@ + ")"@, Tone::Red),
        TxOutcome::Succeeded => field20("Status"@, "SUCCESS"@, Tone::Green),
    }
}

pub open spec fn log_line(i: nat, log: Seq<char>) -> EntryView {
    EntryView::Line("["@ + zero_padded(i, 2) + "] "@ + log, Tone::Plain)
}

pub open spec fn log_lines(logs: Seq<String>) -> Seq<EntryView> {
    Seq::new(logs.len(), |i: int| log_line(i as nat, logs[i]@))
}

pub open spec fn logs_part(logs: Reported<Vec<String>>) -> Seq<EntryView> {
    match logs {
        Reported::Present(l) => seq![EntryView::Title("--- Transaction Logs ---"@)] + log_lines(l@),
        _ => seq![],
    }
}

pub open spec fn inner_text(p: InnerProgram) -> Seq<char> {
    match p {
        InnerProgram::AccountIndex(n) => "Program Index: "@ + decimal(n as nat),
        InnerProgram::Named(s) => "Program: "@ + s@,
        InnerProgram::Id(s) => "Program ID: "@ + s@,
    }
}

pub open spec fn inner_tone(p: InnerProgram) -> Tone {
    match p {
        InnerProgram::AccountIndex(_) => Tone::Plain,
        _ => Tone::Magenta,
    }
}

pub open spec fn inner_line(j: nat, p: InnerProgram) -> EntryView {
    EntryView::Line("    ["@ + zero_padded(j, 2) + "] "@ + inner_text(p), inner_tone(p))
}

pub open spec fn group_lines(g: InnerGroup) -> Seq<EntryView> {
    seq![EntryView::Line("  Program Instruction "@ + decimal(g.index as nat), Tone::Plain)]
        + Seq::new(g.instructions@.len(), |j: int| inner_line(j as nat, g.instructions@[j]))
}

pub open spec fn inner_lines(groups: Seq<InnerGroup>) -> Seq<EntryView>
    decreases groups.len(),
{
    if groups.len() == 0 {
        seq![]
    } else {
        inner_lines(groups.drop_last()) + group_lines(groups.last())
    }
}

pub open spec fn inner_part(inner: Reported<Vec<InnerGroup>>) -> Seq<EntryView> {
    match inner {
        Reported::Present(g) => if g@.len() > 0 {
            seq![EntryView::Title("--- Inner Instructions ---"@)] + inner_lines(g@)
        } else {
            seq![]
        },
        _ => seq![],
    }
}

pub open spec fn meta_part(meta: Option<TxMeta>) -> Seq<EntryView> {
    match meta {
        Some(m) => seq![
            field20("Compute Units"@, decimal(units_of(m.compute_units)) + " units"@, Tone::Plain),
            field20("Fee"@, decimal(m.fee as nat) + " lamports"@, Tone::Plain),
            status_entry(outcome_of(m.err)),
        ] + logs_part(m.logs) + inner_part(m.inner_instructions),
        None => seq![],
    }
}

pub open spec fn program_lines(programs: Seq<Seq<char>>) -> Seq<EntryView> {
    Seq::new(programs.len(), |i: int| EntryView::Line("- "@ + programs[i], Tone::Magenta))
}

pub open spec fn programs_part(msg: Option<RawMessage>) -> Seq<EntryView> {
    match msg {
        Some(m) => seq![EntryView::Title("--- Involved Programs ---"@)] + program_lines(
            involved(m.account_keys.deep_view(), m.program_indices@),
        ),
        None => seq![],
    }
}

/// The time line: the UTC date and time, or the Unix seconds for a time that
/// has no calendar date, or `Unavailable` when the endpoint gave no time.
pub open spec fn timestamp_entry(t: Option<i64>) -> EntryView {
    match t {
        Some(secs) => field20(
            "Timestamp"@,
            match utc_text(secs as int) {
                Some(text) => text,
                None => unix_time_text(secs as int),
            },
            Tone::Cyan,
        ),
        None => field20("Timestamp"@, "Unavailable"@, Tone::Red),
    }
}

pub open spec fn details_report(sig: Seq<char>, tx: TransactionData) -> Seq<EntryView> {
    seq![
        EntryView::Title("--- Transaction Details ---"@),
        field20("Signature"@, sig, Tone::Yellow),
        field20("Slot"@, decimal(tx.slot as nat), Tone::Plain),
        timestamp_entry(tx.block_time),
    ] + meta_part(tx.meta) + programs_part(tx.message) + seq![
        EntryView::Line("---------------------------"@, Tone::Cyan),
    ]
}

fn push_log_lines(r: &mut Vec<Entry>, logs: &Vec<String>)
    ensures
        entries(final(r)@) == entries(old(r)@) + log_lines(logs@),
{
    let ghost start = entries(r@);
    let mut i: usize = 0;
    while i < logs.len()
        invariant
            i <= logs@.len(),
            entries(r@) == start + log_lines(logs@).take(i as int),
        decreases logs@.len() - i,
    {
        let mut t = String::from_str("[");
        let idx = zero_padded_string(i as u64, 2);
        t.append(idx.as_str());
        t.append("] ");
        t.append(logs[i].as_str());
        push_entry(r, Entry::Line(t, Tone::Plain));
        i = i + 1;
        assert(log_lines(logs@).take(i as int) =~= log_lines(logs@).take((i - 1) as int).push(
            log_line((i - 1) as nat, logs@[i - 1]@),
        ));
    }
    assert(log_lines(logs@).take(i as int) =~= log_lines(logs@));
}

fn inner_entry(j: usize, p: &InnerProgram) -> (e: Entry)
    ensures
        e@ == inner_line(j as nat, *p),
{
    let mut t = String::from_str("    [");
    let idx = zero_padded_string(j as u64, 2);
    t.append(idx.as_str());
    t.append("] ");
    match p {
        InnerProgram::AccountIndex(n) => {
            t.append("Program Index: ");
            let d = decimal_string(*n as u64);
            t.append(d.as_str());
            assert(t@ =~= "    ["@ + zero_padded(j as nat, 2) + "] "@ + inner_text(*p));
            Entry::Line(t, Tone::Plain)
        },
        InnerProgram::Named(s) => {
            t.append("Program: ");
            t.append(s.as_str());
            assert(t@ =~= "    ["@ + zero_padded(j as nat, 2) + "] "@ + inner_text(*p));
            Entry::Line(t, Tone::Magenta)
        },
        InnerProgram::Id(s) => {
            t.append("Program ID: ");
            t.append(s.as_str());
            assert(t@ =~= "    ["@ + zero_padded(j as nat, 2) + "] "@ + inner_text(*p));
            Entry::Line(t, Tone::Magenta)
        },
    }
}

fn push_group_lines(r: &mut Vec<Entry>, g: &InnerGroup)
    ensures
        entries(final(r)@) == entries(old(r)@) + group_lines(*g),
{
    let ghost start = entries(r@);
    let mut head = String::from_str("  Program Instruction ");
    let d = decimal_string(g.index as u64);
    head.append(d.as_str());
    push_entry(r, Entry::Line(head, Tone::Plain));
    let ghost rows = Seq::new(
        g.instructions@.len(),
        |j: int| inner_line(j as nat, g.instructions@[j]),
    );
    let mut j: usize = 0;
    while j < g.instructions.len()
        invariant
            j <= g.instructions@.len(),
            rows == Seq::new(
                g.instructions@.len(),
                |j: int| inner_line(j as nat, g.instructions@[j]),
            ),
            entries(r@) == start + seq![
                EntryView::Line("  Program Instruction "@ + decimal(g.index as nat), Tone::Plain),
            ] + rows.take(j as int),
        decreases g.instructions@.len() - j,
    {
        push_entry(r, inner_entry(j, &g.instructions[j]));
        j = j + 1;
        assert(rows.take(j as int) =~= rows.take((j - 1) as int).push(rows[j - 1]));
    }
    assert(rows.take(j as int) =~= rows);
    assert(entries(r@) =~= start + group_lines(*g));
}

fn push_inner_lines(r: &mut Vec<Entry>, groups: &Vec<InnerGroup>)
    ensures
        entries(final(r)@) == entries(old(r)@) + inner_lines(groups@),
{
    let ghost start = entries(r@);
    let mut k: usize = 0;
    while k < groups.len()
        invariant
            k <= groups@.len(),
            entries(r@) == start + inner_lines(groups@.take(k as int)),
        decreases groups@.len() - k,
    {
        push_group_lines(r, &groups[k]);
        k = k + 1;
        assert(groups@.take(k as int).drop_last() =~= groups@.take((k - 1) as int));
        assert(groups@.take(k as int).last() == groups@[k - 1]);
        assert(entries(r@) =~= start + inner_lines(groups@.take(k as int)));
    }
    assert(groups@.take(k as int) =~= groups@);
}

fn push_meta(r: &mut Vec<Entry>, meta: &TxMeta)
    ensures
        entries(final(r)@) == entries(old(r)@) + meta_part(Some(*meta)),
{
    let ghost start = entries(r@);
    let units = compute_units(&meta.compute_units);
    push_entry(r, field("Compute Units", LABEL_WIDTH, decimal_with(units, " units"), Tone::Plain));
    push_entry(r, field("Fee", LABEL_WIDTH, decimal_with(meta.fee, " lamports"), Tone::Plain));
    match outcome(meta) {
        TxOutcome::Failed(d) => {
            let mut t = String::from_str("FAILED (");
            t.append(d.as_str());
            t.append(")");
            push_entry(r, field("Status", LABEL_WIDTH, t, Tone::Red));
        },
        TxOutcome::Succeeded => {
            push_entry(r, field("Status", LABEL_WIDTH, String::from_str("SUCCESS"), Tone::Green));
        },
    }
    let ghost fixed = entries(r@);
    match &meta.logs {
        Reported::Present(logs) => {
            push_entry(r, title("--- Transaction Logs ---"));
            push_log_lines(r, logs);
        },
        _ => {},
    }
    assert(entries(r@) =~= fixed + logs_part(meta.logs));
    let ghost with_logs = entries(r@);
    match &meta.inner_instructions {
        Reported::Present(groups) => {
            if groups.len() > 0 {
                push_entry(r, title("--- Inner Instructions ---"));
                push_inner_lines(r, groups);
            }
        },
        _ => {},
    }
    assert(entries(r@) =~= with_logs + inner_part(meta.inner_instructions));
    assert(entries(r@) =~= start + meta_part(Some(*meta)));
}

fn push_programs(r: &mut Vec<Entry>, msg: &RawMessage)
    ensures
        entries(final(r)@) == entries(old(r)@) + programs_part(Some(*msg)),
{
    let ghost start = entries(r@);
    push_entry(r, title("--- Involved Programs ---"));
    let programs = involved_programs(msg);
    let ghost lines = program_lines(programs.deep_view());
    let mut i: usize = 0;
    while i < programs.len()
        invariant
            i <= programs@.len(),
            lines == program_lines(programs.deep_view()),
            entries(r@) == start + seq![EntryView::Title("--- Involved Programs ---"@)]
                + lines.take(i as int),
        decreases programs@.len() - i,
    {
        let mut t = String::from_str("- ");
        t.append(programs[i].as_str());
        push_entry(r, Entry::Line(t, Tone::Magenta));
        i = i + 1;
        assert(lines.take(i as int) =~= lines.take((i - 1) as int).push(lines[i - 1]));
    }
    assert(lines.take(i as int) =~= lines);
    assert(entries(r@) =~= start + programs_part(Some(*msg)));
}

/// The details of a transaction: signature, slot and time; then, when the
/// status part was reported, compute units, fee, outcome, the numbered log
/// lines and the inner instructions under the index of the instruction that
/// caused them; then the distinct programs that its instructions call.
pub fn get_details(sig: &str, tx: &TransactionData) -> (r: Vec<Entry>)
    ensures
        entries(r@) == details_report(sig@, *tx),
{
    let mut r: Vec<Entry> = Vec::new();
    push_entry(&mut r, title("--- Transaction Details ---"));
    push_entry(&mut r, field("Signature", LABEL_WIDTH, String::from_str(sig), Tone::Yellow));
    push_entry(&mut r, field("Slot", LABEL_WIDTH, decimal_string(tx.slot), Tone::Plain));
    match tx.block_time {
        Some(secs) => {
            let text = match utc_at(secs) {
                Some(t) => t,
                None => unix_time_string(secs),
            };
            push_entry(&mut r, field("Timestamp", LABEL_WIDTH, text, Tone::Cyan));
        },
        None => push_entry(
            &mut r,
            field("Timestamp", LABEL_WIDTH, String::from_str("Unavailable"), Tone::Red),
        ),
    }
    let ghost head = entries(r@);
    match &tx.meta {
        Some(m) => push_meta(&mut r, m),
        None => {},
    }
    assert(entries(r@) =~= head + meta_part(tx.meta));
    let ghost upto_meta = entries(r@);
    match &tx.message {
        Some(msg) => push_programs(&mut r, msg),
        None => {},
    }
    assert(entries(r@) =~= upto_meta + programs_part(tx.message));
    push_entry(&mut r, text_line("---------------------------", Tone::Cyan));
    assert(entries(r@) =~= details_report(sig@, *tx));
    r
}

pub open spec fn logs_report(tx: TransactionData) -> Seq<EntryView> {
    match tx.meta {
        Some(m) => match m.logs {
            Reported::Present(l) => seq![EntryView::Title("--- Transaction Logs ---"@)]
                + log_lines(l@),
            _ => seq![EntryView::Line("No logs found."@, Tone::Plain)],
        },
        None => seq![],
    }
}

/// The numbered log lines of a transaction, or a note that it reported none.
pub fn get_logs(tx: &TransactionData) -> (r: Vec<Entry>)
    ensures
        entries(r@) == logs_report(*tx),
{
    let mut r: Vec<Entry> = Vec::new();
    match &tx.meta {
        Some(m) => match &m.logs {
            Reported::Present(logs) => {
                push_entry(&mut r, title("--- Transaction Logs ---"));
                push_log_lines(&mut r, logs);
            },
            _ => push_entry(&mut r, text_line("No logs found.", Tone::Plain)),
        },
        None => {},
    }
    assert(entries(r@) =~= logs_report(*tx));
    r
}

/// The status entry of a transaction that succeeded.
pub open spec fn success_status() -> EntryView {
    field20("Status"@, "SUCCESS"@, Tone::Green)
}

pub open spec fn is_green_field(e: EntryView) -> bool {
    match e {
        EntryView::Field(_, _, t) => t == Tone::Green,
        _ => false,
    }
}

pub open spec fn no_green_field(s: Seq<EntryView>) -> bool {
    forall|i: int| 0 <= i < s.len() ==> !is_green_field(#[trigger] s[i])
}

proof fn lemma_no_green_concat(a: Seq<EntryView>, b: Seq<EntryView>)
    requires
        no_green_field(a),
        no_green_field(b),
    ensures
        no_green_field(a + b),
{
    assert forall|i: int| 0 <= i < (a + b).len() implies !is_green_field(#[trigger] (a + b)[i]) by {
        if i < a.len() {
            assert((a + b)[i] == a[i]);
        } else {
            assert((a + b)[i] == b[i - a.len()]);
        }
    }
}

proof fn lemma_inner_lines_no_green(groups: Seq<InnerGroup>)
    ensures
        no_green_field(inner_lines(groups)),
    decreases groups.len(),
{
    if groups.len() > 0 {
        lemma_inner_lines_no_green(groups.drop_last());
        lemma_no_green_concat(inner_lines(groups.drop_last()), group_lines(groups.last()));
    }
}

/// A transaction whose execution error is present is reported as failed, with
/// the error's detail, and its report states success nowhere.
pub proof fn lemma_failed_never_success(sig: Seq<char>, tx: TransactionData)
    requires
        tx.meta matches Some(m) && m.err is Some,
    ensures
        details_report(sig, tx).contains(
            field20(
                "Status"@,
                "FAILED ("@ + tx.meta.unwrap().err.unwrap()@ + ")"@,
                Tone::Red,
            ),
        ),
        !details_report(sig, tx).contains(success_status()),
{
    let m = tx.meta.unwrap();
    let head = seq![
        EntryView::Title("--- Transaction Details ---"@),
        field20("Signature"@, sig, Tone::Yellow),
        field20("Slot"@, decimal(tx.slot as nat), Tone::Plain),
        timestamp_entry(tx.block_time),
    ];
    let fixed = seq![
        field20("Compute Units"@, decimal(units_of(m.compute_units)) + " units"@, Tone::Plain),
        field20("Fee"@, decimal(m.fee as nat) + " lamports"@, Tone::Plain),
        status_entry(outcome_of(m.err)),
    ];
    let tail = seq![EntryView::Line("---------------------------"@, Tone::Cyan)];
    assert(no_green_field(head));
    assert(no_green_field(fixed));
    assert(no_green_field(tail));
    assert(no_green_field(logs_part(m.logs))) by {
        match m.logs {
            Reported::Present(l) => {
                lemma_no_green_concat(
                    seq![EntryView::Title("--- Transaction Logs ---"@)],
                    log_lines(l@),
                );
            },
            _ => {},
        }
    }
    assert(no_green_field(inner_part(m.inner_instructions))) by {
        match m.inner_instructions {
            Reported::Present(g) => {
                lemma_inner_lines_no_green(g@);
                lemma_no_green_concat(
                    seq![EntryView::Title("--- Inner Instructions ---"@)],
                    inner_lines(g@),
                );
            },
            _ => {},
        }
    }
    assert(no_green_field(programs_part(tx.message))) by {
        match tx.message {
            Some(msg) => {
                lemma_no_green_concat(
                    seq![EntryView::Title("--- Involved Programs ---"@)],
                    program_lines(involved(msg.account_keys.deep_view(), msg.program_indices@)),
                );
            },
            None => {},
        }
    }
    lemma_no_green_concat(fixed, logs_part(m.logs));
    lemma_no_green_concat(fixed + logs_part(m.logs), inner_part(m.inner_instructions));
    assert(meta_part(tx.meta) == fixed + logs_part(m.logs) + inner_part(m.inner_instructions));
    lemma_no_green_concat(head, meta_part(tx.meta));
    lemma_no_green_concat(head + meta_part(tx.meta), programs_part(tx.message));
    lemma_no_green_concat(head + meta_part(tx.meta) + programs_part(tx.message), tail);
    let report = details_report(sig, tx);
    assert(report == head + meta_part(tx.meta) + programs_part(tx.message) + tail);
    assert(is_green_field(success_status()));
    assert(report[head.len() as int + 2] == status_entry(outcome_of(m.err)));
}

} // verus!
