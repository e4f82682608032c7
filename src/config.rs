//! The preference record: the active cluster's name and its endpoint.
use vstd::prelude::*;
use vstd::string::*;
use crate::text::{digit_char, same_text};

verus! {

pub const MAINNET_URL: &'static str = "https://api.mainnet-beta.solana.com";

pub const TESTNET_URL: &'static str = "https://api.testnet.solana.com";

pub const DEVNET_URL: &'static str = "https://api.devnet.solana.com";

/// The names that select the main network.
pub open spec fn is_mainnet_name(name: Seq<char>) -> bool {
    name == "mainnet"@ || name == "mainnet-beta"@ || name == "m"@
}

/// The names that select the test network.
pub open spec fn is_testnet_name(name: Seq<char>) -> bool {
    name == "testnet"@ || name == "t"@
}

/// The names that select a cluster on purpose; every other name falls back to devnet.
pub open spec fn is_known_cluster(name: Seq<char>) -> bool {
    is_mainnet_name(name) || is_testnet_name(name) || name == "devnet"@
}

/// The endpoint of the cluster called `name`. Unrecognized names get the devnet endpoint.
pub open spec fn cluster_url(name: Seq<char>) -> Seq<char> {
    if is_mainnet_name(name) {
        MAINNET_URL@
    } else if is_testnet_name(name) {
        TESTNET_URL@
    } else {
        DEVNET_URL@
    }
}

/// The mathematical value of a preference record.
pub struct ConfigView {
    pub cluster: Seq<char>,
    pub rpc_url: Seq<char>,
}

/// The record that selecting the cluster `name` leaves.
pub open spec fn cluster_record(name: Seq<char>) -> ConfigView {
    ConfigView { cluster: name, rpc_url: cluster_url(name) }
}

/// The record used when none was stored.
pub open spec fn default_record() -> ConfigView {
    ConfigView { cluster: "devnet"@, rpc_url: DEVNET_URL@ }
}

/// The preference record: the active cluster's name and its RPC endpoint.
#[derive(Clone, Debug, PartialEq)]
pub struct Config {
    pub cluster: String,
    pub rpc_url: String,
}

impl View for Config {
    type V = ConfigView;

    open spec fn view(&self) -> ConfigView {
        ConfigView { cluster: self.cluster@, rpc_url: self.rpc_url@ }
    }
}

/// Whether `name` is one of the names that select the main network.
pub fn mainnet_name(name: &String) -> (r: bool)
    ensures
        r == is_mainnet_name(name@),
{
    same_text(name, "mainnet") || same_text(name, "mainnet-beta") || same_text(name, "m")
}

/// Whether `name` is one of the names that select the test network.
pub fn testnet_name(name: &String) -> (r: bool)
    ensures
        r == is_testnet_name(name@),
{
    same_text(name, "testnet") || same_text(name, "t")
}

/// Whether `name` selects a cluster on purpose rather than by the devnet fallback.
pub fn known_cluster(name: &String) -> (r: bool)
    ensures
        r == is_known_cluster(name@),
{
    mainnet_name(name) || testnet_name(name) || same_text(name, "devnet")
}

/// The endpoint of the cluster called `name`; devnet's for every unrecognized name.
pub fn url_for_cluster(name: &String) -> (r: &'static str)
    ensures
        r@ == cluster_url(name@),
{
    if mainnet_name(name) {
        MAINNET_URL
    } else if testnet_name(name) {
        TESTNET_URL
    } else {
        DEVNET_URL
    }
}

impl Config {
    /// The default record: devnet and its public endpoint.
    pub fn default() -> (c: Config)
        ensures
            c@ == default_record(),
    {
        Config { cluster: String::from_str("devnet"), rpc_url: String::from_str(DEVNET_URL) }
    }

    /// The record that selects the cluster `name`.
    pub fn for_cluster(name: String) -> (c: Config)
        ensures
            c@ == cluster_record(name@),
    {
        let url = url_for_cluster(&name);
        Config { cluster: name, rpc_url: String::from_str(url) }
    }

    /// The record to use, given what was read from the preference file: the
    /// stored record, or the default when none could be read or parsed.
    pub fn load(stored: Option<Config>) -> (c: Config)
        ensures
            stored matches Some(s) ==> c@ == s@,
            stored is None ==> c@ == default_record(),
    {
        match stored {
            Some(s) => s,
            None => Config::default(),
        }
    }
}

/// A hexadecimal digit, in lower case.
pub open spec fn hex_digit(d: nat) -> char {
    if d < 10 {
        digit_char(d)
    } else if d == 10 {
        'a'
    } else if d == 11 {
        'b'
    } else if d == 12 {
        'c'
    } else if d == 13 {
        'd'
    } else if d == 14 {
        'e'
    } else {
        'f'
    }
}

/// How a JSON string literal writes one character: a quote, a backslash and
/// the control characters below U+0020 are escaped, `\b`, `\t`, `\n`, `\f`
/// and `\r` by name and the others as `\u00XX`; every other character
/// stands for itself.
pub open spec fn json_char(c: char) -> Seq<char> {
    if c == '"' {
        seq!['\\', '"']
    } else if c == '\\' {
        seq!['\\', '\\']
    } else if c == '\u{8}' {
        seq!['\\', 'b']
    } else if c == '\t' {
        seq!['\\', 't']
    } else if c == '\n' {
        seq!['\\', 'n']
    } else if c == '\u{c}' {
        seq!['\\', 'f']
    } else if c == '\r' {
        seq!['\\', 'r']
    } else if (c as u32) < 0x20 {
        seq!['\\', 'u', '0', '0', hex_digit((c as u32 / 16) as nat), hex_digit((c as u32 % 16) as nat)]
    } else {
        seq![c]
    }
}

/// The characters of a text, each written as in a JSON string literal.
pub open spec fn json_escaped(s: Seq<char>) -> Seq<char>
    decreases s.len(),
{
    if s.len() == 0 {
        seq![]
    } else {
        json_escaped(s.drop_last()) + json_char(s.last())
    }
}

/// The JSON string literal of a text: its escaped characters between quotes.
pub open spec fn json_literal(s: Seq<char>) -> Seq<char> {
    seq!['"'] + json_escaped(s) + seq!['"']
}

/// Relies on `serde_json::to_string` on a string slice: the text between
/// quotes, with a quote, a backslash and each control character below U+0020
/// escaped (serde_json's `format_escaped_str` and its `ESCAPE` table). On a
/// string slice it writes into a `Vec` and never returns an error, so the
/// empty default is never taken.
#[verifier::external_body]
fn json_quote(s: &str) -> (r: String)
    ensures
        r@ == json_literal(s@),
{
    serde_json::to_string(s).unwrap_or_default()
}

/// The text of the preference file, given the JSON literals of its two fields.
pub open spec fn json_record_text(cluster_literal: Seq<char>, url_literal: Seq<char>) -> Seq<char> {
    "{\"cluster\":"@ + cluster_literal + ",\"rpc_url\":"@ + url_literal + "}"@
}

/// The JSON object of the preference file, from the JSON literals of its fields.
pub fn json_record(cluster_literal: &str, url_literal: &str) -> (r: String)
    ensures
        r@ == json_record_text(cluster_literal@, url_literal@),
{
    let mut t = String::from_str("{\"cluster\":");
    t.append(cluster_literal);
    t.append(",\"rpc_url\":");
    t.append(url_literal);
    t.append("}");
    t
}

/// The text of the preference file that holds the record `c`.
pub open spec fn persisted(c: ConfigView) -> Seq<char> {
    json_record_text(json_literal(c.cluster), json_literal(c.rpc_url))
}

impl Config {
    /// The text of the preference file for this record: one JSON object with
    /// the string fields `cluster` and `rpc_url`, in that order.
    pub fn to_json(&self) -> (r: String)
        ensures
            r@ == persisted(self@),
    {
        let cluster = json_quote(self.cluster.as_str());
        let url = json_quote(self.rpc_url.as_str());
        json_record(cluster.as_str(), url.as_str())
    }
}

/// Selecting a cluster is idempotent: the record it leaves depends on the name
/// alone, so selecting the same name again leaves an identical record and an
/// identical preference file; and an unrecognized name always gives the devnet
/// endpoint, whatever it spells.
pub proof fn lemma_cluster_set_idempotent(name: Seq<char>)
    ensures
        cluster_record(cluster_record(name).cluster) == cluster_record(name),
        persisted(cluster_record(cluster_record(name).cluster)) == persisted(cluster_record(name)),
        cluster_record(name).cluster == name,
        !is_known_cluster(name) ==> cluster_record(name).rpc_url == DEVNET_URL@,
{
}

/// Whether a character stands for itself in a JSON string literal.
pub open spec fn json_plain(c: char) -> bool {
    c != '"' && c != '\\' && (c as u32) >= 0x20
}

/// A text none of whose characters needs escaping is its own JSON escape.
pub proof fn lemma_plain_text_unescaped(s: Seq<char>)
    requires
        forall|i: int| 0 <= i < s.len() ==> json_plain(#[trigger] s[i]),
    ensures
        json_escaped(s) == s,
    decreases s.len(),
{
    if s.len() > 0 {
        lemma_plain_text_unescaped(s.drop_last());
        assert(json_char(s.last()) == seq![s.last()]);
        assert(s.drop_last().push(s.last()) =~= s);
    }
}

/// Selecting `testnet` leaves exactly
/// `{"cluster":"testnet","rpc_url":"https://api.testnet.solana.com"}` as the
/// text of the preference file.
pub proof fn lemma_testnet_preference_file()
    ensures
        persisted(cluster_record("testnet"@))
            == "{\"cluster\":\"testnet\",\"rpc_url\":\"https://api.testnet.solana.com\"}"@,
{
    reveal_strlit("testnet");
    reveal_strlit("https://api.testnet.solana.com");
    reveal_strlit("{\"cluster\":\"testnet\",\"rpc_url\":\"https://api.testnet.solana.com\"}");
    reveal_strlit("{\"cluster\":");
    reveal_strlit(",\"rpc_url\":");
    reveal_strlit("}");
    reveal_strlit("mainnet");
    reveal_strlit("mainnet-beta");
    reveal_strlit("m");
    let name = "testnet"@;
    let url = TESTNET_URL@;
    assert(name[0] != "mainnet"@[0]);
    assert(!is_mainnet_name(name));
    assert(cluster_record(name).rpc_url == url);
    lemma_plain_text_unescaped(name);
    lemma_plain_text_unescaped(url);
    assert(persisted(cluster_record(name))
        =~= "{\"cluster\":\"testnet\",\"rpc_url\":\"https://api.testnet.solana.com\"}"@);
}

} // verus!
