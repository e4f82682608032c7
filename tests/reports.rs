use raushan::commands::account::{get_history, get_info, get_stake, get_tokens, AccountData, SignatureRecord};
use raushan::commands::block::{get_block, BlockData};
use raushan::commands::cluster::{genesis, get_nodes, health, info, NodeData, VersionData};
use raushan::commands::global::{get_supply, get_tps, PerformanceSample, SupplyData};
use raushan::commands::network::{epoch_progress, get_status, EpochData};
use raushan::commands::program::{get_accounts, get_info as program_info, OwnedAccount};
use raushan::commands::stake::get_stake_account;
use raushan::commands::token::{get_mint_info, get_token_accounts};
use raushan::commands::validator::{get_validators, VoteAccountData};
use raushan::report::{Entry, Tone};

const ADDRESS: &str = "2gPihUTjt3FJqf1VpidgrY5cZ6PuyMccGVwQHRfjMPZG";
const SYSTEM: &str = "11111111111111111111111111111111";
const STAKE: &str = "Stake11111111111111111111111111111111111111";
const TOKEN: &str = "TokenkegQfeZyiNwAJbNbGKPFXCWuBvf9Ss623VQ5DA";

fn f(label: &str, value: &str, tone: Tone) -> Entry {
    Entry::Field(format!("{:<20}", label), value.to_string(), tone)
}

fn t(text: &str) -> Entry {
    Entry::Title(text.to_string())
}

fn l(text: &str, tone: Tone) -> Entry {
    Entry::Line(text.to_string(), tone)
}

fn account(lamports: u64, owner: &str, executable: bool, data_len: u64) -> AccountData {
    AccountData { lamports, owner: owner.to_string(), executable, data_len }
}

#[test]
fn account_info_with_five_sol() {
    let acct = account(5_000_000_000, SYSTEM, false, 0);
    let r = get_info(ADDRESS, 5_000_000_000, &acct);
    assert_eq!(
        r,
        vec![
            t("--- Account Information ---"),
            f("Address", ADDRESS, Tone::Yellow),
            f("Balance", "5.000000000 SOL", Tone::Green),
            f("Lamports", "5000000000 lamports", Tone::Plain),
            f("Owner Program", SYSTEM, Tone::Magenta),
            f("Executable", "No", Tone::Yellow),
            f("Data Size", "0 bytes", Tone::Plain),
        ]
    );
    let exec = get_info(ADDRESS, 1, &account(1, SYSTEM, true, 36));
    assert_eq!(exec[5], f("Executable", "Yes", Tone::Green));
    assert_eq!(exec[6], f("Data Size", "36 bytes", Tone::Plain));
}

fn records(n: usize) -> Vec<SignatureRecord> {
    (0..n)
        .map(|i| SignatureRecord { signature: format!("sig{}", i), failed: i % 2 == 1, slot: 100 + i as u64 })
        .collect()
}

#[test]
fn history_lists_all_under_cap() {
    let r = get_history(&records(2));
    assert_eq!(
        r,
        vec![
            t("--- Transaction History (Last 2) ---"),
            l("[00] sig0 | SUCCESS | Slot: 100", Tone::Green),
            l("[01] sig1 | FAILED | Slot: 101", Tone::Red),
        ]
    );
    let exactly = get_history(&records(20));
    assert_eq!(exactly.len(), 21);
    assert_eq!(exactly[20], l("[19] sig19 | FAILED | Slot: 119", Tone::Red));
}

#[test]
fn history_capped_at_twenty() {
    let r = get_history(&records(23));
    assert_eq!(r.len(), 22);
    assert_eq!(r[0], t("--- Transaction History (Last 20) ---"));
    assert_eq!(r[20], l("[19] sig19 | FAILED | Slot: 119", Tone::Red));
    assert_eq!(r[21], l("... and 3 more.", Tone::Plain));
}

#[test]
fn history_of_no_transactions() {
    assert_eq!(get_history(&vec![]), vec![t("--- Transaction History (Last 0) ---")]);
}

#[test]
fn token_accounts_of_owner() {
    let accounts: Vec<String> = (0..21).map(|i| format!("acct{}", i)).collect();
    let r = get_tokens(&accounts);
    assert_eq!(r.len(), 22);
    assert_eq!(r[0], t("--- SPL Token Accounts (21) ---"));
    assert_eq!(r[1], l("Account: acct0", Tone::Plain));
    assert_eq!(r[20], l("Account: acct19", Tone::Plain));
    assert_eq!(r[21], l("... and 1 more.", Tone::Plain));
}

#[test]
fn stake_summary_by_owner() {
    assert_eq!(
        get_stake(&account(2_000_000_001, STAKE, false, 200)),
        vec![t("--- Stake Account ---"), l("Balance: 2.000000001 SOL", Tone::Plain)]
    );
    assert_eq!(get_stake(&account(5, SYSTEM, false, 0)), vec![l("Not a stake account.", Tone::Plain)]);
}

fn block(sigs: Option<usize>, time: Option<i64>) -> BlockData {
    BlockData {
        blockhash: "hash".to_string(),
        previous_blockhash: "prev".to_string(),
        block_time: time,
        parent_slot: 41,
        rewards: Some(3),
        signatures: sigs.map(|n| (0..n).map(|i| format!("s{}", i)).collect()),
    }
}

#[test]
fn block_with_twenty_five_signatures() {
    let r = get_block(42, &block(Some(25), None));
    assert_eq!(r.len(), 9);
    assert_eq!(r[0], t("--- Block Details ---"));
    assert_eq!(r[1], f("Slot", "42", Tone::Green));
    assert_eq!(r[2], f("Blockhash", "hash", Tone::Yellow));
    assert_eq!(r[3], f("Previous Blockhash", "prev", Tone::Plain));
    assert_eq!(r[4], f("Parent Slot", "41", Tone::Plain));
    assert_eq!(r[5], f("Rewards", "3 entries", Tone::Plain));
    assert_eq!(r[6], t("--- Transactions (25) ---"));
    match &r[7] {
        Entry::Table(header, rows) => {
            assert_eq!(header, &vec!["Index".to_string(), "Signature".to_string()]);
            assert_eq!(rows.len(), 10);
            for (i, row) in rows.iter().enumerate() {
                assert_eq!(row, &vec![i.to_string(), format!("s{}", i)]);
            }
        }
        other => panic!("expected a table, got {:?}", other),
    }
    assert_eq!(r[8], l("... and 15 more transactions.", Tone::Plain));
}

#[test]
fn block_with_ten_signatures_has_no_notice() {
    let r = get_block(42, &block(Some(10), None));
    assert_eq!(r.len(), 8);
    match &r[7] {
        Entry::Table(_, rows) => assert_eq!(rows.len(), 10),
        other => panic!("expected a table, got {:?}", other),
    }
}

#[test]
fn block_time_in_rfc2822() {
    let r = get_block(1, &block(None, Some(0)));
    assert_eq!(r[4], f("Block Time", "Thu, 1 Jan 1970 00:00:00 +0000", Tone::Plain));
    let r = get_block(1, &block(None, Some(1_700_000_000)));
    assert_eq!(r[4], f("Block Time", "Tue, 14 Nov 2023 22:13:20 +0000", Tone::Plain));
    assert_eq!(r.len(), 7);
}

#[test]
fn block_time_outside_rfc2822_years_in_unix_seconds() {
    let r = get_block(1, &block(None, Some(253_402_300_800)));
    assert_eq!(r.len(), 7);
    assert_eq!(r[4], f("Block Time", "253402300800 (Unix time)", Tone::Plain));
    let r = get_block(1, &block(None, Some(i64::MAX)));
    assert_eq!(r[4], f("Block Time", "9223372036854775807 (Unix time)", Tone::Plain));
    let r = get_block(1, &block(None, Some(i64::MIN)));
    assert_eq!(r[4], f("Block Time", "-9223372036854775808 (Unix time)", Tone::Plain));
    let r = get_block(1, &block(None, Some(253_402_300_799)));
    assert_eq!(r[4], f("Block Time", "Fri, 31 Dec 9999 23:59:59 +0000", Tone::Plain));
}

#[test]
fn cluster_version_health_genesis() {
    assert_eq!(
        info(&VersionData { solana_core: "2.3.13".to_string(), feature_set: None }),
        vec![
            t("--- Cluster Info ---"),
            f("Solana Core", "2.3.13", Tone::Green),
            f("Feature Set", "0", Tone::Plain),
        ]
    );
    assert_eq!(
        info(&VersionData { solana_core: "x".to_string(), feature_set: Some(3294202862) })[2],
        f("Feature Set", "3294202862", Tone::Plain)
    );
    assert_eq!(health(&None), vec![l("Cluster Status: HEALTHY", Tone::Green)]);
    assert_eq!(
        health(&Some("node is behind".to_string())),
        vec![l("Cluster Status: UNHEALTHY (node is behind)", Tone::Red)]
    );
    assert_eq!(genesis("EtWT"), vec![l("Genesis Hash: EtWT", Tone::Yellow)]);
}

#[test]
fn cluster_nodes_capped() {
    let nodes: Vec<NodeData> = (0..22)
        .map(|i| NodeData {
            pubkey: format!("node{}", i),
            version: if i == 0 { None } else { Some("2.3.1".to_string()) },
            rpc: if i == 0 { Some("1.2.3.4:8899".to_string()) } else { None },
        })
        .collect();
    let r = get_nodes(&nodes);
    assert_eq!(r.len(), 24);
    assert_eq!(r[0], t("--- Cluster Nodes (22) ---"));
    assert_eq!(r[1], l(&format!("{:<45} | {:<20} | {}", "Pubkey", "Version", "RPC"), Tone::Plain));
    assert_eq!(r[2], l(&"-".repeat(80), Tone::Plain));
    assert_eq!(r[3], l(&format!("{:<45} | {:<20} | {}", "node0", "Unknown", "1.2.3.4:8899"), Tone::Plain));
    assert_eq!(r[4], l(&format!("{:<45} | {:<20} | {}", "node1", "2.3.1", "-"), Tone::Plain));
    assert_eq!(r[23], l("... and 2 more.", Tone::Plain));
}

#[test]
fn supply_in_native_unit() {
    let r = get_supply(&SupplyData { total: 1, circulating: 2_000_000_000, non_circulating: 0 });
    assert_eq!(
        r,
        vec![
            t("--- SOL Supply ---"),
            Entry::Field(format!("{:<25}", "Total Supply"), "0.000000001 SOL".to_string(), Tone::Green),
            Entry::Field(format!("{:<25}", "Circulating"), "2.000000000 SOL".to_string(), Tone::Green),
            Entry::Field(format!("{:<25}", "Non-Circulating"), "0.000000000 SOL".to_string(), Tone::Yellow),
        ]
    );
}

#[test]
fn epoch_progress_rounds_to_nearest() {
    assert_eq!(epoch_progress(50, 200), Some(25));
    assert_eq!(epoch_progress(1, 3), Some(33));
    assert_eq!(epoch_progress(2, 3), Some(67));
    assert_eq!(epoch_progress(1, 8), Some(13));
    assert_eq!(epoch_progress(0, 432000), Some(0));
    assert_eq!(epoch_progress(432000, 432000), Some(100));
    assert_eq!(epoch_progress(5, 0), None);
    assert_eq!(epoch_progress(u64::MAX, 1), Some(100 * u64::MAX as u128));
}

#[test]
fn network_status_report() {
    let e = EpochData { epoch: 812, slot_index: 108000, slots_in_epoch: 432000, absolute_slot: 350892000 };
    assert_eq!(
        get_status(&e, "2.3.13", 329000000),
        vec![
            t("--- Solana Network Status ---"),
            f("Cluster Version", "2.3.13", Tone::Cyan),
            f("Current Epoch", "812", Tone::Yellow),
            f("Epoch Progress", "25%", Tone::Plain),
            f("Current Slot", "350892000", Tone::Green),
            f("Block Height", "329000000", Tone::Green),
            l("-----------------------------", Tone::Magenta),
        ]
    );
    let empty = EpochData { epoch: 0, slot_index: 0, slots_in_epoch: 0, absolute_slot: 0 };
    assert_eq!(get_status(&empty, "v", 0)[3], f("Epoch Progress", "N/A", Tone::Plain));
}

#[test]
fn program_details_and_warning() {
    let r = program_info("Prog", &account(1_500_000_000, "BPFLoaderUpgradeab1e11111111111111111111111", true, 36));
    assert_eq!(
        r,
        vec![
            t("--- Program Details ---"),
            f("Program ID", "Prog", Tone::Yellow),
            f("Owner", "BPFLoaderUpgradeab1e11111111111111111111111", Tone::Plain),
            f("Data Size", "36 bytes", Tone::Plain),
            f("Balance", "1.500000000 SOL", Tone::Plain),
        ]
    );
    let w = program_info("Prog", &account(0, SYSTEM, false, 0));
    assert_eq!(w.len(), 6);
    assert_eq!(w[0], l("Warning: Account is not marked executable!", Tone::Yellow));
}

#[test]
fn program_owned_accounts_capped() {
    let accounts: Vec<OwnedAccount> =
        (0..30).map(|i| OwnedAccount { pubkey: format!("k{}", i), lamports: i as u64 }).collect();
    let r = get_accounts(&accounts);
    assert_eq!(r.len(), 22);
    assert_eq!(r[0], t("--- Owned Accounts (30) ---"));
    assert_eq!(r[1], l(&format!("{:<44} | 0 lamports", "k0"), Tone::Plain));
    assert_eq!(r[20], l(&format!("{:<44} | 19 lamports", "k19"), Tone::Plain));
    assert_eq!(r[21], l("... and 10 more.", Tone::Plain));
}

#[test]
fn stake_account_details() {
    let r = get_stake_account(ADDRESS, &account(3_000_000_000, STAKE, false, 200));
    assert_eq!(
        r,
        vec![
            t("--- Stake Account Details ---"),
            f("Address", ADDRESS, Tone::Yellow),
            f("Balance", "3.000000000 SOL", Tone::Green),
            f("Data Size", "200 bytes", Tone::Plain),
            f("State", "Active (Assumed/Raw)", Tone::Yellow),
            f("Stake Balance", "3.000000000 SOL", Tone::Plain),
            f("Note", "Detailed activation requires additional parsing logic.", Tone::Italic),
        ]
    );
    let w = get_stake_account(ADDRESS, &account(1, SYSTEM, false, 0));
    assert_eq!(w.len(), 8);
    assert_eq!(
        w[0],
        l("Warning: This does not appear to be a Stake account (Owner mismatch).", Tone::Yellow)
    );
}

#[test]
fn token_account_listing() {
    assert_eq!(
        get_token_accounts(&vec![]),
        vec![t("--- Token Accounts (0) ---"), l("No token accounts found.", Tone::Plain)]
    );
    assert_eq!(
        get_token_accounts(&vec!["a".to_string(), "b".to_string()]),
        vec![
            t("--- Token Accounts (2) ---"),
            l("Account: a", Tone::Plain),
            l("Account: b", Tone::Plain),
        ]
    );
    let many: Vec<String> = (0..26).map(|i| format!("t{}", i)).collect();
    let r = get_token_accounts(&many);
    assert_eq!(r.len(), 22);
    assert_eq!(r[0], t("--- Token Accounts (26) ---"));
    assert_eq!(r[20], l("Account: t19", Tone::Plain));
    assert_eq!(r[21], l("... and 6 more.", Tone::Plain));
}

#[test]
fn mint_details_and_owner_check() {
    let r = get_mint_info("Mint", &account(1, TOKEN, false, 82));
    assert_eq!(
        r,
        vec![
            t("--- Token Mint Details ---"),
            f("Address", "Mint", Tone::Yellow),
            f("Data Size", "82 bytes", Tone::Plain),
            f("Owner Program", TOKEN, Tone::Plain),
        ]
    );
    let w = get_mint_info("Mint", &account(1, SYSTEM, false, 0));
    assert_eq!(w.len(), 5);
    assert_eq!(
        w[0],
        l("Warning: This does not appear to be a Token mint (Owner mismatch).", Tone::Yellow)
    );
}

#[test]
fn validators_table_capped() {
    let votes: Vec<VoteAccountData> = (0..21)
        .map(|i| VoteAccountData {
            node_pubkey: format!("n{}", i),
            vote_pubkey: format!("v{}", i),
            commission: 10,
            activated_stake: 1_000_000_000 * i as u64 + 5,
        })
        .collect();
    let r = get_validators(&votes);
    assert_eq!(r.len(), 3);
    assert_eq!(r[0], t("--- Active Validators (21) ---"));
    match &r[1] {
        Entry::Table(header, rows) => {
            assert_eq!(header.len(), 4);
            assert_eq!(header[3], "Activated Stake");
            assert_eq!(rows.len(), 20);
            assert_eq!(
                rows[2],
                vec!["n2".to_string(), "v2".to_string(), "10%".to_string(), "2.000000005 SOL".to_string()]
            );
        }
        other => panic!("expected a table, got {:?}", other),
    }
    assert_eq!(r[2], l("... and 1 more.", Tone::Plain));
}

#[test]
fn throughput_report() {
    let sample = Some(PerformanceSample { num_transactions: 180_000, sample_period_secs: 60 });
    assert_eq!(
        get_tps(&sample, "3000.00"),
        vec![
            t("--- Network Performance (Avg last 5 samples) ---"),
            Entry::Field(format!("{:<25}", "Current TPS"), "3000.00 TPS".to_string(), Tone::Green),
            Entry::Field(format!("{:<25}", "Sample Period"), "60 slots".to_string(), Tone::Plain),
            Entry::Field(format!("{:<25}", "Transactions in Window"), "180000 txs".to_string(), Tone::Plain),
        ]
    );
    assert_eq!(
        get_tps(&None, ""),
        vec![
            t("--- Network Performance (Avg last 5 samples) ---"),
            l("No performance samples available.", Tone::Plain),
        ]
    );
}
