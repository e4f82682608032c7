//! The cluster commands: choose the cluster, and report on it.
use vstd::prelude::*;
use crate::config::{cluster_record, is_known_cluster, known_cluster, Config};
use crate::report::{
    entries, field, field20, notice_after, push_entry, push_notice, shown_count, shown_rows,
    text_line, title, Entry, EntryView, Tone, LABEL_WIDTH,
};
use crate::text::{decimal, decimal_string, padded_right, padded_right_string};

verus! {

/// How many cluster nodes the report lists.
pub const NODE_CAP: usize = 20;

/// What the endpoint reports of its version.
#[derive(Clone, Debug)]
pub struct VersionData {
    pub solana_core: String,
    pub feature_set: Option<u32>,
}

/// What the endpoint reports of one node of the cluster.
#[derive(Clone, Debug)]
pub struct NodeData {
    pub pubkey: String,
    pub version: Option<String>,
    /// The node's RPC address, when it offers one.
    pub rpc: Option<String>,
}

pub open spec fn set_report(name: Seq<char>) -> Seq<EntryView> {
    seq![EntryView::Line("\u{2714} Cluster updated to: "@ + name, Tone::Green)] + if is_known_cluster(
        name,
    ) {
        seq![]
    } else {
        seq![
            EntryView::Line(
                "DESIGN NOTE: \""@ + name
                    + "\" is not a known cluster name; the devnet endpoint is used."@,
                Tone::Yellow,
            ),
        ]
    }
}

/// Selects the cluster `name`: the record takes the name and its endpoint,
/// devnet's for an unrecognized name, which the report then points out.
pub fn set(cfg: &mut Config, name: String) -> (r: Vec<Entry>)
    ensures
        final(cfg)@ == cluster_record(name@),
        entries(r@) == set_report(name@),
{
    let mut r: Vec<Entry> = Vec::new();
    let mut t = String::from_str("\u{2714} Cluster updated to: ");
    t.append(name.as_str());
    push_entry(&mut r, Entry::Line(t, Tone::Green));
    if !known_cluster(&name) {
        let mut note = String::from_str("DESIGN NOTE: \"");
        note.append(name.as_str());
        note.append("\" is not a known cluster name; the devnet endpoint is used.");
        push_entry(&mut r, Entry::Line(note, Tone::Yellow));
    }
    *cfg = Config::for_cluster(name);
    assert(entries(r@) =~= set_report(name@));
    r
}

pub open spec fn get_report(cfg: Config) -> Seq<EntryView> {
    seq![
        EntryView::Line(
            "Active Cluster: "@ + cfg.cluster@ + " ("@ + cfg.rpc_url@ + ")"@,
            Tone::Plain,
        ),
    ]
}

/// The active cluster and its endpoint.
pub fn get(cfg: &Config) -> (r: Vec<Entry>)
    ensures
        entries(r@) == get_report(*cfg),
{
    let mut t = String::from_str("Active Cluster: ");
    t.append(cfg.cluster.as_str());
    t.append(" (");
    t.append(cfg.rpc_url.as_str());
    t.append(")");
    let mut r: Vec<Entry> = Vec::new();
    push_entry(&mut r, Entry::Line(t, Tone::Plain));
    assert(entries(r@) =~= get_report(*cfg));
    r
}

pub open spec fn feature_set_of(v: VersionData) -> nat {
    match v.feature_set {
        Some(f) => f as nat,
        None => 0,
    }
}

pub open spec fn info_report(v: VersionData) -> Seq<EntryView> {
    seq![
        EntryView::Title("--- Cluster Info ---"@),
        field20("Solana Core"@, v.solana_core@, Tone::Green),
        field20("Feature Set"@, decimal(feature_set_of(v)), Tone::Plain),
    ]
}

/// The software version of the cluster and its feature set (zero when unknown).
pub fn info(version: &VersionData) -> (r: Vec<Entry>)
    ensures
        entries(r@) == info_report(*version),
{
    let feature_set: u32 = match version.feature_set {
        Some(f) => f,
        None => 0,
    };
    let mut r: Vec<Entry> = Vec::new();
    push_entry(&mut r, title("--- Cluster Info ---"));
    push_entry(&mut r, field("Solana Core", LABEL_WIDTH, version.solana_core.clone(), Tone::Green));
    push_entry(
        &mut r,
        field("Feature Set", LABEL_WIDTH, decimal_string(feature_set as u64), Tone::Plain),
    );
    assert(entries(r@) =~= info_report(*version));
    r
}

pub open spec fn health_report(failure: Option<String>) -> Seq<EntryView> {
    match failure {
        None => seq![EntryView::Line("Cluster Status: HEALTHY"@, Tone::Green)],
        Some(e) => seq![
            EntryView::Line("Cluster Status: UNHEALTHY ("@ + e@ + ")"@, Tone::Red),
        ],
    }
}

/// The health of the cluster, given the error of the health query if it failed.
/// A failed health query is reported, not raised.
pub fn health(failure: &Option<String>) -> (r: Vec<Entry>)
    ensures
        entries(r@) == health_report(*failure),
{
    let mut r: Vec<Entry> = Vec::new();
    match failure {
        None => push_entry(&mut r, text_line("Cluster Status: HEALTHY", Tone::Green)),
        Some(e) => {
            let mut t = String::from_str("Cluster Status: UNHEALTHY (");
            t.append(e.as_str());
            t.append(")");
            push_entry(&mut r, Entry::Line(t, Tone::Red));
        },
    }
    assert(entries(r@) =~= health_report(*failure));
    r
}

pub open spec fn genesis_report(hash: Seq<char>) -> Seq<EntryView> {
    seq![EntryView::Line("Genesis Hash: "@ + hash, Tone::Yellow)]
}

/// The genesis hash of the cluster.
pub fn genesis(hash: &str) -> (r: Vec<Entry>)
    ensures
        entries(r@) == genesis_report(hash@),
{
    let mut r: Vec<Entry> = Vec::new();
    let mut t = String::from_str("Genesis Hash: ");
    t.append(hash);
    push_entry(&mut r, Entry::Line(t, Tone::Yellow));
    assert(entries(r@) =~= genesis_report(hash@));
    r
}

pub open spec fn or_text(o: Option<String>, fallback: Seq<char>) -> Seq<char> {
    match o {
        Some(s) => s@,
        None => fallback,
    }
}

pub open spec fn node_row(n: NodeData) -> EntryView {
    EntryView::Line(
        padded_right(n.pubkey@, 45) + " | "@ + padded_right(or_text(n.version, "Unknown"@), 20)
            + " | "@ + or_text(n.rpc, "-"@),
        Tone::Plain,
    )
}

pub open spec fn node_rows(nodes: Seq<NodeData>) -> Seq<EntryView> {
    Seq::new(nodes.len(), |i: int| node_row(nodes[i]))
}

pub open spec fn nodes_report(nodes: Seq<NodeData>) -> Seq<EntryView> {
    seq![
        EntryView::Title("--- Cluster Nodes ("@ + decimal(nodes.len()) + ") ---"@),
        EntryView::Line(
            padded_right("Pubkey"@, 45) + " | "@ + padded_right("Version"@, 20) + " | "@ + "RPC"@,
            Tone::Plain,
        ),
        EntryView::Line(
            "--------------------------------------------------------------------------------"@,
            Tone::Plain,
        ),
    ] + shown_rows(node_rows(nodes), 20) + notice_after(nodes.len(), 20, ""@)
}

fn node_line(n: &NodeData) -> (e: Entry)
    ensures
        e@ == node_row(*n),
{
    let mut t = padded_right_string(n.pubkey.as_str(), 45);
    t.append(" | ");
    let version = match &n.version {
        Some(v) => padded_right_string(v.as_str(), 20),
        None => padded_right_string("Unknown", 20),
    };
    t.append(version.as_str());
    t.append(" | ");
    match &n.rpc {
        Some(a) => t.append(a.as_str()),
        None => t.append("-"),
    }
    assert(t@ =~= padded_right(n.pubkey@, 45) + " | "@ + padded_right(
        or_text(n.version, "Unknown"@),
        20,
    ) + " | "@ + or_text(n.rpc, "-"@));
    Entry::Line(t, Tone::Plain)
}

/// The nodes of the cluster: their count, then at most twenty rows of key,
/// version and RPC address, then a notice of the rest.
pub fn get_nodes(nodes: &Vec<NodeData>) -> (r: Vec<Entry>)
    ensures
        entries(r@) == nodes_report(nodes@),
{
    let n = nodes.len();
    let shown = if n <= NODE_CAP {
        n
    } else {
        NODE_CAP
    };
    let mut head = String::from_str("--- Cluster Nodes (");
    let count = decimal_string(n as u64);
    head.append(count.as_str());
    head.append(") ---");
    let mut r: Vec<Entry> = Vec::new();
    push_entry(&mut r, Entry::Title(head));
    let mut columns = padded_right_string("Pubkey", 45);
    columns.append(" | ");
    let version = padded_right_string("Version", 20);
    columns.append(version.as_str());
    columns.append(" | ");
    columns.append("RPC");
    push_entry(&mut r, Entry::Line(columns, Tone::Plain));
    push_entry(
        &mut r,
        text_line(
            "--------------------------------------------------------------------------------",
            Tone::Plain,
        ),
    );
    let ghost first = entries(r@);
    let mut i: usize = 0;
    while i < shown
        invariant
            n == nodes@.len(),
            shown == shown_count(n as nat, 20),
            i <= shown,
            entries(r@) == first + node_rows(nodes@).take(i as int),
        decreases shown - i,
    {
        push_entry(&mut r, node_line(&nodes[i]));
        i = i + 1;
        assert(node_rows(nodes@).take(i as int) =~= node_rows(nodes@).take((i - 1) as int).push(
            node_row(nodes@[i - 1]),
        ));
    }
    push_notice(&mut r, n, NODE_CAP, "");
    assert(entries(r@) =~= nodes_report(nodes@));
    r
}

} // verus!
