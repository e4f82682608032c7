//! The command dispatcher: from a parsed command line to the one action it asks
//! for, with every identifier decoded before any remote call.
use vstd::prelude::*;
use crate::error::ExplorerError;
use crate::ident::{
    has_non_base58_char, parse_address, parse_signature, pubkey_decoded, signature_decoded, Address,
    TxSignature,
};

verus! {

/// A command line, as parsed.
#[derive(Clone, Debug)]
pub enum Command {
    ClusterSet(String),
    ClusterGet,
    ClusterInfo,
    ClusterHealth,
    ClusterGenesis,
    ClusterNodes,
    NetworkStatus,
    NetworkTps,
    NetworkSupply,
    NetworkInflation,
    NetworkEpochInfo,
    AccountInfo(String),
    AccountTokens(String),
    AccountStake(String),
    AccountHistory(String),
    TxInfo(String),
    TxLogs(String),
    TxSimulate(String),
    TxPriority,
    BlockInfo(u64),
    BlockTransactions(u64),
    BlockRewards(u64),
    ValidatorList,
    ValidatorInfo(String),
    TokenMint(String),
    TokenHolders(String),
    TokenAccounts(String),
    StakeAccountInfo(String),
    ProgramInfo(String),
    ProgramAccounts(String),
}

/// What a command does, with its identifiers decoded.
#[derive(Clone, Debug, PartialEq)]
pub enum Action {
    SetCluster(String),
    ShowCluster,
    ClusterInfo,
    ClusterHealth,
    ClusterGenesis,
    ClusterNodes,
    NetworkStatus,
    NetworkTps,
    NetworkSupply,
    NetworkInflation,
    AccountInfo(Address),
    AccountTokens(Address),
    AccountStake(Address),
    AccountHistory(Address),
    TxDetails(TxSignature),
    TxLogs(TxSignature),
    Block(u64),
    Validators,
    MintInfo(Address),
    TokenAccounts(Address),
    StakeAccount(Address),
    ProgramInfo(Address),
    ProgramAccounts(Address),
    /// A command without a report yet: only this message is printed.
    Notice(String),
}

pub open spec fn address_of(a: Action) -> Option<Address> {
    match a {
        Action::AccountInfo(x) => Some(x),
        Action::AccountTokens(x) => Some(x),
        Action::AccountStake(x) => Some(x),
        Action::AccountHistory(x) => Some(x),
        Action::MintInfo(x) => Some(x),
        Action::TokenAccounts(x) => Some(x),
        Action::StakeAccount(x) => Some(x),
        Action::ProgramInfo(x) => Some(x),
        Action::ProgramAccounts(x) => Some(x),
        _ => None,
    }
}

pub open spec fn signature_of(a: Action) -> Option<TxSignature> {
    match a {
        Action::TxDetails(x) => Some(x),
        Action::TxLogs(x) => Some(x),
        _ => None,
    }
}

/// The address text that a command names, if it names one.
pub open spec fn address_text(cmd: Command) -> Option<Seq<char>> {
    match cmd {
        Command::AccountInfo(s) => Some(s@),
        Command::AccountTokens(s) => Some(s@),
        Command::AccountStake(s) => Some(s@),
        Command::AccountHistory(s) => Some(s@),
        Command::TokenMint(s) => Some(s@),
        Command::TokenAccounts(s) => Some(s@),
        Command::StakeAccountInfo(s) => Some(s@),
        Command::ProgramInfo(s) => Some(s@),
        Command::ProgramAccounts(s) => Some(s@),
        _ => None,
    }
}

/// The signature text that a command names, if it names one.
pub open spec fn signature_text(cmd: Command) -> Option<Seq<char>> {
    match cmd {
        Command::TxInfo(s) => Some(s@),
        Command::TxLogs(s) => Some(s@),
        _ => None,
    }
}

/// `r` is what a command on the address text `s` resolves to: the action with
/// the decoded address when `s` decodes, else an invalid-identifier error with
/// message `msg` and no action, so no remote call.
pub open spec fn by_address(s: Seq<char>, r: Result<Action, ExplorerError>, msg: Seq<char>) -> bool {
    match r {
        Ok(a) => pubkey_decoded(s) is Some && (address_of(a) matches Some(x) && x@.text == s
            && pubkey_decoded(s) == Some(x@.bytes)),
        Err(e) => pubkey_decoded(s) is None && (e matches ExplorerError::InvalidIdentifier(m)
            && m@ == msg),
    }
}

/// As `by_address`, for a transaction signature.
pub open spec fn by_signature(s: Seq<char>, r: Result<Action, ExplorerError>, msg: Seq<char>) -> bool {
    match r {
        Ok(a) => signature_decoded(s) is Some && (signature_of(a) matches Some(x) && x@.text == s
            && signature_decoded(s) == Some(x@.bytes)),
        Err(e) => signature_decoded(s) is None && (e matches ExplorerError::InvalidIdentifier(m)
            && m@ == msg),
    }
}

pub open spec fn is_notice(r: Result<Action, ExplorerError>, msg: Seq<char>) -> bool {
    r matches Ok(Action::Notice(m)) && m@ == msg
}

/// The action that each command resolves to.
pub open spec fn resolved(cmd: Command, r: Result<Action, ExplorerError>) -> bool {
    match cmd {
        Command::ClusterSet(n) => r matches Ok(Action::SetCluster(m)) && m@ == n@,
        Command::ClusterGet => r matches Ok(Action::ShowCluster),
        Command::ClusterInfo => r matches Ok(Action::ClusterInfo),
        Command::ClusterHealth => r matches Ok(Action::ClusterHealth),
        Command::ClusterGenesis => r matches Ok(Action::ClusterGenesis),
        Command::ClusterNodes => r matches Ok(Action::ClusterNodes),
        Command::NetworkStatus => r matches Ok(Action::NetworkStatus),
        Command::NetworkTps => r matches Ok(Action::NetworkTps),
        Command::NetworkSupply => r matches Ok(Action::NetworkSupply),
        Command::NetworkInflation => r matches Ok(Action::NetworkInflation),
        Command::NetworkEpochInfo => r matches Ok(Action::NetworkStatus),
        Command::AccountInfo(s) => (r is Ok ==> r->Ok_0 is AccountInfo) && by_address(
            s@,
            r,
            "Invalid Solana address format"@,
        ),
        Command::AccountTokens(s) => (r is Ok ==> r->Ok_0 is AccountTokens) && by_address(
            s@,
            r,
            "Invalid Address"@,
        ),
        Command::AccountStake(s) => (r is Ok ==> r->Ok_0 is AccountStake) && by_address(
            s@,
            r,
            "Invalid Address"@,
        ),
        Command::AccountHistory(s) => (r is Ok ==> r->Ok_0 is AccountHistory) && by_address(
            s@,
            r,
            "Invalid Address"@,
        ),
        Command::TxInfo(s) => (r is Ok ==> r->Ok_0 is TxDetails) && by_signature(
            s@,
            r,
            "Invalid Signature format"@,
        ),
        Command::TxLogs(s) => (r is Ok ==> r->Ok_0 is TxLogs) && by_signature(
            s@,
            r,
            "Invalid Sig"@,
        ),
        Command::TxSimulate(_) => is_notice(r, "Simulation feature coming soon."@),
        Command::TxPriority => is_notice(r, "Priority fees feature coming soon."@),
        Command::BlockInfo(slot) => r matches Ok(Action::Block(s)) && s == slot,
        Command::BlockTransactions(slot) => r matches Ok(Action::Block(s)) && s == slot,
        Command::BlockRewards(slot) => r matches Ok(Action::Block(s)) && s == slot,
        Command::ValidatorList => r matches Ok(Action::Validators),
        Command::ValidatorInfo(_) => is_notice(r, "Validator detailed info coming soon."@),
        Command::TokenMint(s) => (r is Ok ==> r->Ok_0 is MintInfo) && by_address(
            s@,
            r,
            "Invalid Mint Address"@,
        ),
        Command::TokenHolders(_) => is_notice(r, "Token holders feature coming soon."@),
        Command::TokenAccounts(s) => (r is Ok ==> r->Ok_0 is TokenAccounts) && by_address(
            s@,
            r,
            "Invalid Owner Address"@,
        ),
        Command::StakeAccountInfo(s) => (r is Ok ==> r->Ok_0 is StakeAccount) && by_address(
            s@,
            r,
            "Invalid Address"@,
        ),
        Command::ProgramInfo(s) => (r is Ok ==> r->Ok_0 is ProgramInfo) && by_address(
            s@,
            r,
            "Invalid Program ID"@,
        ),
        Command::ProgramAccounts(s) => (r is Ok ==> r->Ok_0 is ProgramAccounts) && by_address(
            s@,
            r,
            "Invalid Program ID"@,
        ),
    }
}

fn invalid(msg: &str) -> (e: ExplorerError)
    ensures
        e matches ExplorerError::InvalidIdentifier(m) && m@ == msg@,
{
    ExplorerError::InvalidIdentifier(String::from_str(msg))
}

/// Resolves a command to its action. An address or signature that does not
/// decode is an invalid-identifier error, and then no action exists, so no
/// remote call is made; every other command always resolves.
pub fn resolve(cmd: Command) -> (r: Result<Action, ExplorerError>)
    ensures
        resolved(cmd, r),
        address_text(cmd) matches Some(s) && (s.len() > 44 || has_non_base58_char(s))
            ==> r matches Err(ExplorerError::InvalidIdentifier(_)),
        signature_text(cmd) matches Some(s) && (s.len() > 88 || has_non_base58_char(s))
            ==> r matches Err(ExplorerError::InvalidIdentifier(_)),
{
    match cmd {
        Command::ClusterSet(n) => Ok(Action::SetCluster(n)),
        Command::ClusterGet => Ok(Action::ShowCluster),
        Command::ClusterInfo => Ok(Action::ClusterInfo),
        Command::ClusterHealth => Ok(Action::ClusterHealth),
        Command::ClusterGenesis => Ok(Action::ClusterGenesis),
        Command::ClusterNodes => Ok(Action::ClusterNodes),
        Command::NetworkStatus => Ok(Action::NetworkStatus),
        Command::NetworkTps => Ok(Action::NetworkTps),
        Command::NetworkSupply => Ok(Action::NetworkSupply),
        Command::NetworkInflation => Ok(Action::NetworkInflation),
        Command::NetworkEpochInfo => Ok(Action::NetworkStatus),
        Command::AccountInfo(s) => match parse_address(s.as_str()) {
            Some(a) => Ok(Action::AccountInfo(a)),
            None => Err(invalid("Invalid Solana address format")),
        },
        Command::AccountTokens(s) => match parse_address(s.as_str()) {
            Some(a) => Ok(Action::AccountTokens(a)),
            None => Err(invalid("Invalid Address")),
        },
        Command::AccountStake(s) => match parse_address(s.as_str()) {
            Some(a) => Ok(Action::AccountStake(a)),
            None => Err(invalid("Invalid Address")),
        },
        Command::AccountHistory(s) => match parse_address(s.as_str()) {
            Some(a) => Ok(Action::AccountHistory(a)),
            None => Err(invalid("Invalid Address")),
        },
        Command::TxInfo(s) => match parse_signature(s.as_str()) {
            Some(t) => Ok(Action::TxDetails(t)),
            None => Err(invalid("Invalid Signature format")),
        },
        Command::TxLogs(s) => match parse_signature(s.as_str()) {
            Some(t) => Ok(Action::TxLogs(t)),
            None => Err(invalid("Invalid Sig")),
        },
        Command::TxSimulate(_) => Ok(Action::Notice(String::from_str("Simulation feature coming soon."))),
        Command::TxPriority => Ok(Action::Notice(String::from_str("Priority fees feature coming soon."))),
        Command::BlockInfo(slot) => Ok(Action::Block(slot)),
        Command::BlockTransactions(slot) => Ok(Action::Block(slot)),
        Command::BlockRewards(slot) => Ok(Action::Block(slot)),
        Command::ValidatorList => Ok(Action::Validators),
        Command::ValidatorInfo(_) => Ok(
            Action::Notice(String::from_str("Validator detailed info coming soon.")),
        ),
        Command::TokenMint(s) => match parse_address(s.as_str()) {
            Some(a) => Ok(Action::MintInfo(a)),
            None => Err(invalid("Invalid Mint Address")),
        },
        Command::TokenHolders(_) => Ok(
            Action::Notice(String::from_str("Token holders feature coming soon.")),
        ),
        Command::TokenAccounts(s) => match parse_address(s.as_str()) {
            Some(a) => Ok(Action::TokenAccounts(a)),
            None => Err(invalid("Invalid Owner Address")),
        },
        Command::StakeAccountInfo(s) => match parse_address(s.as_str()) {
            Some(a) => Ok(Action::StakeAccount(a)),
            None => Err(invalid("Invalid Address")),
        },
        Command::ProgramInfo(s) => match parse_address(s.as_str()) {
            Some(a) => Ok(Action::ProgramInfo(a)),
            None => Err(invalid("Invalid Program ID")),
        },
        Command::ProgramAccounts(s) => match parse_address(s.as_str()) {
            Some(a) => Ok(Action::ProgramAccounts(a)),
            None => Err(invalid("Invalid Program ID")),
        },
    }
}

/// Identifier decoding comes before any remote call: a command that names an
/// address resolves to an invalid-identifier error, and so to no action and no
/// query, exactly when its text does not decode to 32 bytes, and otherwise to
/// an action on those bytes; a command that names a signature likewise with 64
/// bytes; every other command always resolves to an action.
pub proof fn lemma_identifiers_decoded_first(cmd: Command, r: Result<Action, ExplorerError>)
    requires
        resolved(cmd, r),
    ensures
        address_text(cmd) matches Some(s) ==> {
            &&& (r is Err <==> pubkey_decoded(s) is None)
            &&& r is Err ==> r->Err_0 is InvalidIdentifier
            &&& r matches Ok(a) ==> address_of(a) matches Some(x) && pubkey_decoded(s) == Some(
                x@.bytes,
            ) && x@.bytes.len() == 32
        },
        signature_text(cmd) matches Some(s) ==> {
            &&& (r is Err <==> signature_decoded(s) is None)
            &&& r is Err ==> r->Err_0 is InvalidIdentifier
            &&& r matches Ok(a) ==> signature_of(a) matches Some(x) && signature_decoded(s) == Some(
                x@.bytes,
            ) && x@.bytes.len() == 64
        },
        address_text(cmd) is None && signature_text(cmd) is None ==> r is Ok,
{
}

} // verus!
