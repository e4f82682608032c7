//! What a command prints, as a list of entries: headings, labelled fields,
//! free lines and tables. Colours are hints for the terminal.
use vstd::prelude::*;
use vstd::string::*;
use crate::text::{decimal, decimal_string, padded_right, padded_right_string};

verus! {

/// The colour that a value is printed in.
#[derive(Clone, Copy, PartialEq, Eq, Structural, Debug)]
pub enum Tone {
    Plain,
    Green,
    Yellow,
    Red,
    Cyan,
    Magenta,
    Italic,
}

/// One printed element of a report.
#[derive(Clone, Debug, PartialEq)]
pub enum Entry {
    /// A section heading, printed after an empty line.
    Title(String),
    /// A label already padded to its column width, and its value.
    Field(String, String, Tone),
    /// A line printed as it is.
    Line(String, Tone),
    /// A header row and the rows below it.
    Table(Vec<String>, Vec<Vec<String>>),
}

/// The mathematical value of an entry.
pub enum EntryView {
    Title(Seq<char>),
    Field(Seq<char>, Seq<char>, Tone),
    Line(Seq<char>, Tone),
    Table(Seq<Seq<char>>, Seq<Seq<Seq<char>>>),
}

impl View for Entry {
    type V = EntryView;

    open spec fn view(&self) -> EntryView {
        match self {
            Entry::Title(t) => EntryView::Title(t@),
            Entry::Field(l, v, tone) => EntryView::Field(l@, v@, *tone),
            Entry::Line(t, tone) => EntryView::Line(t@, *tone),
            Entry::Table(h, rows) => EntryView::Table(h.deep_view(), rows.deep_view()),
        }
    }
}

/// The value of a whole report.
pub open spec fn entries(r: Seq<Entry>) -> Seq<EntryView> {
    r.map_values(|e: Entry| e@)
}

/// A field whose label is padded to `width` columns.
pub open spec fn field_of(label: Seq<char>, width: nat, value: Seq<char>, tone: Tone) -> EntryView {
    EntryView::Field(padded_right(label, width), value, tone)
}

/// The label column of most reports.
pub const LABEL_WIDTH: usize = 20;

/// A field of a report with the usual label column.
pub open spec fn field20(label: Seq<char>, value: Seq<char>, tone: Tone) -> EntryView {
    field_of(label, 20, value, tone)
}

pub fn field(label: &str, width: usize, value: String, tone: Tone) -> (e: Entry)
    ensures
        e@ == field_of(label@, width as nat, value@, tone),
{
    Entry::Field(padded_right_string(label, width), value, tone)
}

pub fn title(t: &str) -> (e: Entry)
    ensures
        e@ == EntryView::Title(t@),
{
    Entry::Title(String::from_str(t))
}

pub fn text_line(t: &str, tone: Tone) -> (e: Entry)
    ensures
        e@ == EntryView::Line(t@, tone),
{
    Entry::Line(String::from_str(t), tone)
}

/// Appends one entry to a report.
pub fn push_entry(r: &mut Vec<Entry>, e: Entry)
    ensures
        entries(final(r)@) == entries(old(r)@).push(e@),
{
    r.push(e);
    assert(entries(final(r)@) =~= entries(old(r)@).push(e@));
}

// Display caps of listings.

/// How many of `n` items a listing capped at `cap` shows.
pub open spec fn shown_count(n: nat, cap: nat) -> nat {
    if n <= cap {
        n
    } else {
        cap
    }
}

/// The notice below a capped listing, `... and N more` with `suffix` and a point.
pub open spec fn more_notice(hidden: nat, suffix: Seq<char>) -> EntryView {
    EntryView::Line("... and "@ + decimal(hidden) + " more"@ + suffix + "."@, Tone::Plain)
}

/// What a listing of `n` items with display cap `cap` ends with: nothing when all
/// items are shown, else one notice naming how many were left out.
pub open spec fn notice_after(n: nat, cap: nat, suffix: Seq<char>) -> Seq<EntryView> {
    if n <= cap {
        seq![]
    } else {
        seq![more_notice((n - cap) as nat, suffix)]
    }
}

/// The rows that a listing under display cap `cap` shows: the first ones, up to the cap.
pub open spec fn shown_rows<T>(rows: Seq<T>, cap: nat) -> Seq<T> {
    rows.take(shown_count(rows.len(), cap) as int)
}

/// A listing of `N` items under display cap `C` shows all `N` items and no notice
/// when `N <= C`; otherwise exactly the first `C` items and then one notice that
/// states the `N - C` items left out.
pub proof fn lemma_display_cap<T>(rows: Seq<T>, cap: nat, suffix: Seq<char>)
    ensures
        rows.len() <= cap ==> shown_rows(rows, cap) == rows,
        rows.len() <= cap ==> notice_after(rows.len(), cap, suffix) == Seq::<EntryView>::empty(),
        rows.len() > cap ==> shown_rows(rows, cap).len() == cap,
        rows.len() > cap ==> shown_rows(rows, cap) == rows.take(cap as int),
        rows.len() > cap ==> notice_after(rows.len(), cap, suffix) == seq![
            more_notice((rows.len() - cap) as nat, suffix),
        ],
{
    if rows.len() <= cap {
        assert(shown_rows(rows, cap) =~= rows);
        assert(notice_after(rows.len(), cap, suffix) =~= Seq::<EntryView>::empty());
    }
}

/// Appends the notice of a capped listing of `n` items, if any are left out.
pub fn push_notice(r: &mut Vec<Entry>, n: usize, cap: usize, suffix: &str)
    ensures
        entries(final(r)@) == entries(old(r)@) + notice_after(n as nat, cap as nat, suffix@),
{
    if n > cap {
        let mut t = String::from_str("... and ");
        let count = decimal_string((n - cap) as u64);
        t.append(count.as_str());
        t.append(" more");
        t.append(suffix);
        t.append(".");
        push_entry(r, Entry::Line(t, Tone::Plain));
        assert(entries(final(r)@) =~= entries(old(r)@) + notice_after(
            n as nat,
            cap as nat,
            suffix@,
        ));
    } else {
        assert(entries(old(r)@) =~= entries(old(r)@) + notice_after(n as nat, cap as nat, suffix@));
    }
}

} // verus!
