use raushan::commands::transaction::{
    compute_units, get_details, get_logs, involved_programs, outcome, InnerGroup, InnerProgram,
    RawMessage, Reported, TransactionData, TxMeta, TxOutcome,
};
use raushan::report::{Entry, Tone};

fn f(label: &str, value: &str, tone: Tone) -> Entry {
    Entry::Field(format!("{:<20}", label), value.to_string(), tone)
}

fn t(text: &str) -> Entry {
    Entry::Title(text.to_string())
}

fn l(text: &str, tone: Tone) -> Entry {
    Entry::Line(text.to_string(), tone)
}

fn meta(err: Option<&str>, units: Reported<u64>) -> TxMeta {
    TxMeta {
        err: err.map(|e| e.to_string()),
        fee: 5000,
        compute_units: units,
        logs: Reported::Present(vec!["Program log: hi".to_string(), "Program done".to_string()]),
        inner_instructions: Reported::Present(vec![
            InnerGroup {
                index: 2,
                instructions: vec![
                    InnerProgram::AccountIndex(4),
                    InnerProgram::Named("spl-token".to_string()),
                ],
            },
            InnerGroup { index: 5, instructions: vec![InnerProgram::Id("Prog1".to_string())] },
        ]),
    }
}

fn message() -> RawMessage {
    RawMessage {
        account_keys: vec!["A".to_string(), "B".to_string(), "C".to_string()],
        program_indices: vec![1, 2, 1, 7, 2, 0],
    }
}

#[test]
fn distinct_programs_in_first_call_order() {
    let p = involved_programs(&message());
    assert_eq!(p, vec!["B".to_string(), "C".to_string(), "A".to_string()]);
    let same_text = RawMessage {
        account_keys: vec!["X".to_string(), "X".to_string()],
        program_indices: vec![1, 0],
    };
    assert_eq!(involved_programs(&same_text), vec!["X".to_string()]);
    let none = RawMessage { account_keys: vec![], program_indices: vec![0, 3] };
    assert!(involved_programs(&none).is_empty());
}

#[test]
fn outcome_follows_error_field() {
    assert!(matches!(outcome(&meta(None, Reported::Absent)), TxOutcome::Succeeded));
    match outcome(&meta(Some("InsufficientFundsForFee"), Reported::Absent)) {
        TxOutcome::Failed(d) => assert_eq!(d, "InsufficientFundsForFee"),
        TxOutcome::Succeeded => panic!("a present error field is a failure"),
    }
}

#[test]
fn compute_units_default_to_zero() {
    assert_eq!(compute_units(&Reported::Present(1234)), 1234);
    assert_eq!(compute_units(&Reported::Absent), 0);
    assert_eq!(compute_units(&Reported::NotRequested), 0);
}

#[test]
fn failed_transaction_details() {
    let tx = TransactionData {
        slot: 77,
        block_time: Some(0),
        meta: Some(meta(Some("InstructionError(0, Custom(1))"), Reported::Present(1234))),
        message: Some(message()),
    };
    let r = get_details("SIG", &tx);
    assert_eq!(
        r,
        vec![
            t("--- Transaction Details ---"),
            f("Signature", "SIG", Tone::Yellow),
            f("Slot", "77", Tone::Plain),
            f("Timestamp", "1970-01-01 00:00:00 UTC", Tone::Cyan),
            f("Compute Units", "1234 units", Tone::Plain),
            f("Fee", "5000 lamports", Tone::Plain),
            f("Status", "FAILED (InstructionError(0, Custom(1)))", Tone::Red),
            t("--- Transaction Logs ---"),
            l("[00] Program log: hi", Tone::Plain),
            l("[01] Program done", Tone::Plain),
            t("--- Inner Instructions ---"),
            l("  Program Instruction 2", Tone::Plain),
            l("    [00] Program Index: 4", Tone::Plain),
            l("    [01] Program: spl-token", Tone::Magenta),
            l("  Program Instruction 5", Tone::Plain),
            l("    [00] Program ID: Prog1", Tone::Magenta),
            t("--- Involved Programs ---"),
            l("- B", Tone::Magenta),
            l("- C", Tone::Magenta),
            l("- A", Tone::Magenta),
            l("---------------------------", Tone::Cyan),
        ]
    );
    for e in &r {
        if let Entry::Field(_, value, _) = e {
            assert_ne!(value, "SUCCESS");
        }
    }
}

#[test]
fn failed_transaction_with_units_left_out() {
    let tx = TransactionData {
        slot: 1,
        block_time: None,
        meta: Some(meta(Some("AccountNotFound"), Reported::NotRequested)),
        message: None,
    };
    let r = get_details("S", &tx);
    assert_eq!(r[3], f("Timestamp", "Unavailable", Tone::Red));
    assert_eq!(r[4], f("Compute Units", "0 units", Tone::Plain));
    assert_eq!(r[6], f("Status", "FAILED (AccountNotFound)", Tone::Red));
    assert!(!r.contains(&f("Status", "SUCCESS", Tone::Green)));
}

#[test]
fn successful_transaction_without_meta_details() {
    let mut m = meta(None, Reported::Absent);
    m.logs = Reported::NotRequested;
    m.inner_instructions = Reported::Present(vec![]);
    let tx = TransactionData { slot: 9, block_time: None, meta: Some(m), message: None };
    let r = get_details("S", &tx);
    assert_eq!(r.len(), 8);
    assert_eq!(r[6], f("Status", "SUCCESS", Tone::Green));
    assert_eq!(r[7], l("---------------------------", Tone::Cyan));
    let bare = TransactionData { slot: 9, block_time: None, meta: None, message: None };
    assert_eq!(get_details("S", &bare).len(), 5);
}

#[test]
fn logs_alone() {
    let tx = TransactionData { slot: 1, block_time: None, meta: Some(meta(None, Reported::Absent)), message: None };
    assert_eq!(
        get_logs(&tx),
        vec![
            t("--- Transaction Logs ---"),
            l("[00] Program log: hi", Tone::Plain),
            l("[01] Program done", Tone::Plain),
        ]
    );
    let mut m = meta(None, Reported::Absent);
    m.logs = Reported::Absent;
    let tx = TransactionData { slot: 1, block_time: None, meta: Some(m), message: None };
    assert_eq!(get_logs(&tx), vec![l("No logs found.", Tone::Plain)]);
    let tx = TransactionData { slot: 1, block_time: None, meta: None, message: None };
    assert!(get_logs(&tx).is_empty());
}

#[test]
fn many_logs_numbered_past_ninety_nine() {
    let mut m = meta(None, Reported::Absent);
    m.logs = Reported::Present((0..101).map(|i| format!("line {}", i)).collect());
    let tx = TransactionData { slot: 1, block_time: None, meta: Some(m), message: None };
    let r = get_logs(&tx);
    assert_eq!(r.len(), 102);
    assert_eq!(r[10], l("[09] line 9", Tone::Plain));
    assert_eq!(r[101], l("[100] line 100", Tone::Plain));
}

#[test]
fn timestamp_without_calendar_date_in_unix_seconds() {
    let tx = TransactionData { slot: 1, block_time: Some(i64::MAX), meta: None, message: None };
    assert_eq!(get_details("S", &tx)[3], f("Timestamp", "9223372036854775807 (Unix time)", Tone::Cyan));
    let tx = TransactionData { slot: 1, block_time: Some(-86_400), meta: None, message: None };
    assert_eq!(get_details("S", &tx)[3], f("Timestamp", "1969-12-31 00:00:00 UTC", Tone::Cyan));
}
