use raushan::command::{resolve, Action, Command};
use raushan::error::ExplorerError;
use raushan::ident::{parse_address, parse_signature};

const SYSTEM_PROGRAM: &str = "11111111111111111111111111111111";
const TOKEN_PROGRAM: &str = "TokenkegQfeZyiNwAJbNbGKPFXCWuBvf9Ss623VQ5DA";
const SOME_KEY: &str = "2gPihUTjt3FJqf1VpidgrY5cZ6PuyMccGVwQHRfjMPZG";
const SOME_SIGNATURE: &str =
    "11cgTH4D5e8S3snD444WbbGrkepjTvWMj2jkmCGJtgn3H7qrPb1BnwapxpbGdRtHQh9t9Wbn9t6ZDGHzWpL4df";

#[test]
fn well_formed_keys_decode() {
    let a = parse_address(SYSTEM_PROGRAM).expect("system program id decodes");
    assert_eq!(a.text, SYSTEM_PROGRAM);
    assert_eq!(a.bytes, [0u8; 32]);
    assert!(parse_address(TOKEN_PROGRAM).is_some());
    let k = parse_address(SOME_KEY).expect("key decodes");
    assert_eq!(
        k.bytes,
        [
            24, 243, 6, 223, 230, 153, 210, 8, 92, 137, 123, 67, 164, 197, 79, 196, 125, 43, 183,
            85, 103, 91, 232, 167, 73, 131, 104, 131, 0, 101, 214, 231
        ]
    );
}

#[test]
fn malformed_keys_refused() {
    assert!(parse_address("").is_none());
    assert!(parse_address("0OIl").is_none());
    assert!(parse_address("TokenkegQfeZyiNwAJbNbGKPFXCWuBvf9Ss623VQ5D0").is_none());
    assert!(parse_address(&"1".repeat(31)).is_none());
    assert!(parse_address(&"1".repeat(45)).is_none());
    assert!(parse_address("not a key").is_none());
    assert!(parse_address(SOME_SIGNATURE).is_none());
}

#[test]
fn signatures_decode() {
    let t = parse_signature(SOME_SIGNATURE).expect("signature decodes");
    assert_eq!(t.text, SOME_SIGNATURE);
    assert_eq!(&t.bytes[..4], &[0, 0, 10, 85]);
    assert_eq!(t.bytes[63], 2);
    assert!(parse_signature(&"1".repeat(64)).is_some());
    assert!(parse_signature(SOME_KEY).is_none());
    assert!(parse_signature(&"1".repeat(89)).is_none());
    assert!(parse_signature("lll").is_none());
}

#[test]
fn invalid_identifier_resolves_to_no_action() {
    let r = resolve(Command::AccountInfo("0OIl".to_string()));
    assert_eq!(
        r,
        Err(ExplorerError::InvalidIdentifier("Invalid Solana address format".to_string()))
    );
    let r = resolve(Command::TxInfo("bad".to_string()));
    assert_eq!(r, Err(ExplorerError::InvalidIdentifier("Invalid Signature format".to_string())));
    let r = resolve(Command::TxLogs("bad".to_string()));
    assert_eq!(r, Err(ExplorerError::InvalidIdentifier("Invalid Sig".to_string())));
    let r = resolve(Command::ProgramAccounts("x".to_string()));
    assert_eq!(r, Err(ExplorerError::InvalidIdentifier("Invalid Program ID".to_string())));
    let r = resolve(Command::TokenMint("x".to_string()));
    assert_eq!(r, Err(ExplorerError::InvalidIdentifier("Invalid Mint Address".to_string())));
    let r = resolve(Command::StakeAccountInfo("x".to_string()));
    assert_eq!(r, Err(ExplorerError::InvalidIdentifier("Invalid Address".to_string())));
    assert_eq!(
        r.unwrap_err().message(),
        "Invalid Address".to_string()
    );
}

#[test]
fn commands_resolve_to_their_actions() {
    let system = parse_address(SYSTEM_PROGRAM).unwrap();
    assert_eq!(
        resolve(Command::AccountInfo(SYSTEM_PROGRAM.to_string())),
        Ok(Action::AccountInfo(system.clone()))
    );
    assert_eq!(
        resolve(Command::AccountHistory(SYSTEM_PROGRAM.to_string())),
        Ok(Action::AccountHistory(system.clone()))
    );
    assert_eq!(
        resolve(Command::ProgramInfo(SYSTEM_PROGRAM.to_string())),
        Ok(Action::ProgramInfo(system))
    );
    let sig = parse_signature(SOME_SIGNATURE).unwrap();
    assert_eq!(
        resolve(Command::TxInfo(SOME_SIGNATURE.to_string())),
        Ok(Action::TxDetails(sig))
    );
    assert_eq!(resolve(Command::BlockInfo(7)), Ok(Action::Block(7)));
    assert_eq!(resolve(Command::BlockTransactions(8)), Ok(Action::Block(8)));
    assert_eq!(resolve(Command::BlockRewards(9)), Ok(Action::Block(9)));
    assert_eq!(resolve(Command::NetworkEpochInfo), Ok(Action::NetworkStatus));
    assert_eq!(
        resolve(Command::ClusterSet("testnet".to_string())),
        Ok(Action::SetCluster("testnet".to_string()))
    );
    assert_eq!(
        resolve(Command::TxPriority),
        Ok(Action::Notice("Priority fees feature coming soon.".to_string()))
    );
}

#[test]
fn error_messages() {
    let e = ExplorerError::RemoteQueryFailed("connection refused".to_string());
    assert_eq!(e.message(), "connection refused");
    let e = ExplorerError::PersistenceFailed("permission denied".to_string());
    assert_eq!(e.message(), "permission denied");
}

#[test]
fn owner_address_checked_for_token_accounts() {
    assert_eq!(
        resolve(Command::TokenAccounts("0wner".to_string())),
        Err(ExplorerError::InvalidIdentifier("Invalid Owner Address".to_string()))
    );
    assert_eq!(
        resolve(Command::TokenAccounts(SYSTEM_PROGRAM.to_string())),
        Ok(Action::TokenAccounts(parse_address(SYSTEM_PROGRAM).unwrap()))
    );
}
