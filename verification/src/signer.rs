//! What the node tells a signer about the inputs of a transaction, and what it makes of the reply.

use std::str::FromStr;

use bitcoin::bip32::{ChildNumber, Xpub};
use bitcoin::key::CompressedPublicKey;
use bitcoin::secp256k1::Secp256k1;
use bitcoin::{Address, Network};
use vstd::prelude::*;
use vstd::string::*;

use crate::error::{internal, is_internal, APIError, RgbLibError};
use crate::psbt::{
    extract_tx, parse_psbt_inputs, psbt_extracted, psbt_inputs, ExtractedTx, ExtractedView, PsbtInputs,
    PsbtInputsView,
};
use crate::text::{copy, decimal, hex, hex_str, join2, join3, number, same, text, views};

verus! {

/// How a signer fails.
#[derive(Clone, Debug, PartialEq, Eq)]
pub enum RlnSignerError {
    /// The signer cannot be reached.
    Transport(String),
    /// The signer does not follow the protocol.
    Protocol(String),
    /// The signer cannot do what was asked.
    Unsupported(String),
}

impl RlnSignerError {
    pub open spec fn said(self) -> Seq<char> {
        match self {
            RlnSignerError::Transport(m) => m@,
            RlnSignerError::Protocol(m) => m@,
            RlnSignerError::Unsupported(m) => m@,
        }
    }

    /// What was said of the failure.
    pub fn message(&self) -> (r: &str)
        ensures
            r@ == self.said(),
    {
        match self {
            RlnSignerError::Transport(m) => m.as_str(),
            RlnSignerError::Protocol(m) => m.as_str(),
            RlnSignerError::Unsupported(m) => m.as_str(),
        }
    }
}

/// When signing fails, a node with its own keys falls back to its wallet; one with an external
/// signer does not.
pub fn resolve_rgb_psbt_signer_failure<F: FnOnce() -> Result<String, RgbLibError>>(
    external_signer_mode: bool,
    err: &RlnSignerError,
    local_sign_psbt: F,
) -> (r: Result<String, RgbLibError>)
    requires
        !external_signer_mode ==> call_requires(local_sign_psbt, ()),
    ensures
        external_signer_mode ==> r is Err && is_internal(
            r->Err_0,
            "external signer RGB PSBT signing failed: "@ + err.said(),
        ),
        !external_signer_mode ==> call_ensures(local_sign_psbt, (), r),
{
    if external_signer_mode {
        Err(internal(join2("external signer RGB PSBT signing failed: ", err.message())))
    } else {
        local_sign_psbt()
    }
}

/// What attaching an external signer comes to.
pub open spec fn attached<B>(
    bootstrap: Result<B, RlnSignerError>,
    validation: Result<(), String>,
) -> Result<B, APIError> {
    match bootstrap {
        Err(RlnSignerError::Transport(m)) => Err(APIError::ExternalSignerUnavailable(m)),
        Err(RlnSignerError::Protocol(m)) => Err(APIError::ExternalSignerProtocolError(m)),
        Err(RlnSignerError::Unsupported(m)) => Err(APIError::ExternalSignerProtocolError(m)),
        Ok(b) => match validation {
            Err(m) => Err(APIError::ExternalSignerProtocolError(m)),
            Ok(_) => Ok::<B, APIError>(b),
        },
    }
}

/// What an external signer is attached as: `bootstrap` is what it presented, `validation` what is
/// wrong with that.
pub fn attach_external_signer_transport<B>(
    bootstrap: Result<B, RlnSignerError>,
    validation: Result<(), String>,
) -> (r: Result<B, APIError>)
    ensures
        r == attached(bootstrap, validation),
{
    match bootstrap {
        Err(RlnSignerError::Transport(msg)) => Err(APIError::ExternalSignerUnavailable(msg)),
        Err(RlnSignerError::Protocol(msg)) => Err(APIError::ExternalSignerProtocolError(msg)),
        Err(RlnSignerError::Unsupported(msg)) => Err(APIError::ExternalSignerProtocolError(msg)),
        Ok(b) => match validation {
            Err(msg) => Err(APIError::ExternalSignerProtocolError(msg)),
            Ok(_) => Ok(b),
        },
    }
}

// ---------------------------------------------------------------------------------------------
// Keys
// ---------------------------------------------------------------------------------------------

/// Whether a text names a Bitcoin network.
pub open spec fn network_known(s: Seq<char>) -> bool {
    s == "bitcoin"@ || s == "testnet"@ || s == "testnet4"@ || s == "signet"@ || s == "regtest"@
}

/// `bitcoin::Network::from_str`: succeeds exactly on the five network names; otherwise the error
/// says which text cannot be parsed.
#[verifier::external_body]
pub(crate) fn check_network(s: &str) -> (r: Result<(), String>)
    ensures
        r is Ok <==> network_known(s@),
        r matches Err(e) ==> e@ == "failed to parse "@ + s@ + " as network"@,
{
    Network::from_str(s).map(|_| ()).map_err(|e| e.to_string())
}

/// The output scripts of a derived key.
#[derive(Debug)]
pub enum DerivedScripts {
    /// The account key does not parse.
    NoAccount,
    /// The key cannot be derived.
    Failed,
    Scripts { p2wpkh: Vec<u8>, p2tr: Vec<u8> },
}

/// The plain values of [`DerivedScripts`].
pub enum DerivedView {
    NoAccount,
    Failed,
    Scripts { p2wpkh: Seq<u8>, p2tr: Seq<u8> },
}

impl View for DerivedScripts {
    type V = DerivedView;

    open spec fn view(&self) -> DerivedView {
        match self {
            DerivedScripts::NoAccount => DerivedView::NoAccount,
            DerivedScripts::Failed => DerivedView::Failed,
            DerivedScripts::Scripts { p2wpkh, p2tr } => DerivedView::Scripts {
                p2wpkh: p2wpkh@,
                p2tr: p2tr@,
            },
        }
    }
}

/// The output scripts of the key that lies under an account key at a path.
pub uninterp spec fn derived_scripts(
    xpub: Seq<char>,
    network: Seq<char>,
    path: Seq<u32>,
) -> DerivedView;

/// `bitcoin::bip32::Xpub::derive_pub`, with the P2WPKH and key-path P2TR scripts of the derived key
/// (`Address::p2wpkh`, `Address::p2tr`, `script_pubkey`): a function of the account key, the network
/// and the path. An account key that `Xpub::from_str` refuses and a derivation that fails are told
/// apart.
#[verifier::external_body]
fn derive_scripts(xpub: &str, network: &str, path: &Vec<u32>) -> (r: DerivedScripts)
    requires
        network_known(network@),
    ensures
        r@ == derived_scripts(xpub@, network@, path@),
{
    let (Ok(xpub), Ok(network)) = (Xpub::from_str(xpub), Network::from_str(network)) else {
        return DerivedScripts::NoAccount;
    };
    let secp = Secp256k1::verification_only();
    let path: Vec<ChildNumber> = path.iter().map(|i| ChildNumber::from(*i)).collect();
    let Ok(child) = xpub.derive_pub(&secp, &path) else {
        return DerivedScripts::Failed;
    };
    let p2wpkh = Address::p2wpkh(&CompressedPublicKey(child.public_key), network).script_pubkey();
    let xonly = child.public_key.x_only_public_key().0;
    let p2tr = Address::p2tr(&secp, xonly, None, network).script_pubkey();
    DerivedScripts::Scripts { p2wpkh: p2wpkh.to_bytes(), p2tr: p2tr.to_bytes() }
}

/// What looking for a script under one key comes to.
#[derive(Clone, Copy, Debug, PartialEq, Eq, Structural)]
pub enum Probe {
    Hit,
    Miss,
    /// The derivation failed: the search ends without a result.
    Stop,
}

/// The account keys of the RGB wallet.
#[derive(Debug)]
pub struct RgbWalletAccount {
    pub account_xpub_colored: String,
    pub account_xpub_vanilla: String,
}

/// How many key indices are searched.
pub const KEY_INDEX_SEARCH_LIMIT: u32 = 10_000;

pub open spec fn probe_of(derived: DerivedView, script: Seq<u8>) -> Probe {
    match derived {
        DerivedView::NoAccount => Probe::Miss,
        DerivedView::Failed => Probe::Stop,
        DerivedView::Scripts { p2wpkh, p2tr } => if p2wpkh == script || p2tr == script {
            Probe::Hit
        } else {
            Probe::Miss
        },
    }
}

/// Looks for a script at the index itself, then in the two branches below the account.
pub open spec fn account_probe(
    xpub: Seq<char>,
    network: Seq<char>,
    script: Seq<u8>,
    idx: u32,
) -> Probe {
    let direct = derived_scripts(xpub, network, seq![idx]);
    if direct is NoAccount || !(probe_of(direct, script) is Miss) {
        probe_of(direct, script)
    } else {
        let first = probe_of(derived_scripts(xpub, network, seq![0u32, idx]), script);
        if first is Miss {
            probe_of(derived_scripts(xpub, network, seq![1u32, idx]), script)
        } else {
            first
        }
    }
}

/// Looks for a script under both accounts, the colored one first.
pub open spec fn index_probe(
    accounts: RgbWalletAccount,
    network: Seq<char>,
    script: Seq<u8>,
    idx: u32,
) -> Probe {
    let colored = account_probe(accounts.account_xpub_colored@, network, script, idx);
    if colored is Miss {
        account_probe(accounts.account_xpub_vanilla@, network, script, idx)
    } else {
        colored
    }
}

/// The lowest index, from a given one on, under which a script is found.
pub open spec fn key_index(
    accounts: RgbWalletAccount,
    network: Seq<char>,
    script: Seq<u8>,
    from: int,
) -> Option<u32>
    decreases KEY_INDEX_SEARCH_LIMIT - from,
{
    if from < 0 || from >= KEY_INDEX_SEARCH_LIMIT {
        None
    } else {
        match index_probe(accounts, network, script, from as u32) {
            Probe::Hit => Some(from as u32),
            Probe::Stop => None,
            Probe::Miss => key_index(accounts, network, script, from + 1),
        }
    }
}

fn equal_bytes(a: &Vec<u8>, b: &Vec<u8>) -> (r: bool)
    ensures
        r == (a@ == b@),
{
    if a.len() != b.len() {
        return false;
    }
    let mut i: usize = 0;
    while i < a.len()
        invariant
            i <= a.len(),
            a.len() == b.len(),
            forall|k: int| 0 <= k < i ==> a@[k] == b@[k],
        decreases a.len() - i,
    {
        if a[i] != b[i] {
            return false;
        }
        i = i + 1;
    }
    assert(a@ =~= b@);
    true
}

fn probe(derived: &DerivedScripts, script: &Vec<u8>) -> (r: Probe)
    ensures
        r == probe_of(derived@, script@),
{
    match derived {
        DerivedScripts::NoAccount => Probe::Miss,
        DerivedScripts::Failed => Probe::Stop,
        DerivedScripts::Scripts { p2wpkh, p2tr } => {
            if equal_bytes(p2wpkh, script) || equal_bytes(p2tr, script) {
                Probe::Hit
            } else {
                Probe::Miss
            }
        },
    }
}

fn probe_account(xpub: &str, network: &str, script: &Vec<u8>, idx: u32) -> (r: Probe)
    requires
        network_known(network@),
    ensures
        r == account_probe(xpub@, network@, script@, idx),
{
    let direct_path: Vec<u32> = vec![idx];
    assert(direct_path@ =~= seq![idx]);
    let direct = derive_scripts(xpub, network, &direct_path);
    let found = probe(&direct, script);
    if found != Probe::Miss {
        return found;
    }
    if let DerivedScripts::NoAccount = direct {
        return Probe::Miss;
    }
    let first_path: Vec<u32> = vec![0u32, idx];
    assert(first_path@ =~= seq![0u32, idx]);
    let first = probe(&derive_scripts(xpub, network, &first_path), script);
    if first != Probe::Miss {
        return first;
    }
    let second_path: Vec<u32> = vec![1u32, idx];
    assert(second_path@ =~= seq![1u32, idx]);
    probe(&derive_scripts(xpub, network, &second_path), script)
}

/// The index of the wallet key that an output script belongs to, as far as the first ten thousand
/// keys of each account show it.
pub fn infer_keyindex_from_script(
    accounts: &RgbWalletAccount,
    network: &str,
    script: &Vec<u8>,
) -> (r: Option<u32>)
    requires
        network_known(network@),
    ensures
        r == key_index(*accounts, network@, script@, 0),
{
    let mut idx: u32 = 0;
    while idx < KEY_INDEX_SEARCH_LIMIT
        invariant
            idx <= KEY_INDEX_SEARCH_LIMIT,
            network_known(network@),
            key_index(*accounts, network@, script@, 0) == key_index(
                *accounts,
                network@,
                script@,
                idx as int,
            ),
        decreases KEY_INDEX_SEARCH_LIMIT - idx,
    {
        let mut found = probe_account(accounts.account_xpub_colored.as_str(), network, script, idx);
        if found == Probe::Miss {
            found = probe_account(accounts.account_xpub_vanilla.as_str(), network, script, idx);
        }
        assert(found == index_probe(*accounts, network@, script@, idx));
        match found {
            Probe::Hit => {
                return Some(idx);
            },
            Probe::Stop => {
                return None;
            },
            Probe::Miss => {},
        }
        idx = idx + 1;
    }
    None
}

// ---------------------------------------------------------------------------------------------
// Descriptors
// ---------------------------------------------------------------------------------------------

/// A value in a descriptor.
#[derive(Debug)]
pub enum JsonValue {
    Text(String),
    Number(u64),
    Flag(bool),
}

/// The plain values of a [`JsonValue`].
pub enum JsonView {
    Text(Seq<char>),
    Number(u64),
    Flag(bool),
}

impl View for JsonValue {
    type V = JsonView;

    open spec fn view(&self) -> JsonView {
        match self {
            JsonValue::Text(s) => JsonView::Text(s@),
            JsonValue::Number(n) => JsonView::Number(*n),
            JsonValue::Flag(b) => JsonView::Flag(*b),
        }
    }
}

/// The entries of an object as plain values.
pub open spec fn entries_view(entries: Seq<(String, JsonValue)>) -> Seq<(Seq<char>, JsonView)> {
    entries.map_values(|e: (String, JsonValue)| (e.0@, e.1@))
}

/// The compact JSON text of an object with the given entries.
pub uninterp spec fn json_object(entries: Seq<(Seq<char>, JsonView)>) -> Seq<char>;

/// `serde_json::Value`'s `to_string` on an object: a function of the entries.
#[verifier::external_body]
fn render_object(entries: Vec<(String, JsonValue)>) -> (r: String)
    ensures
        r@ == json_object(entries_view(entries@)),
{
    let object = entries.into_iter().map(|(key, value)| match value {
        JsonValue::Text(s) => (key, serde_json::Value::from(s)),
        JsonValue::Number(n) => (key, serde_json::Value::from(n)),
        JsonValue::Flag(b) => (key, serde_json::Value::from(b)),
    });
    serde_json::Value::Object(object.collect()).to_string()
}

/// An output of the wallet.
#[derive(Debug)]
pub struct LocalUnspent {
    pub txid: String,
    pub vout: u32,
    pub derivation_index: u32,
}

/// What an external signer knows of an input.
#[derive(Debug)]
pub struct WalletInputMetadata {
    pub amount_sat: u64,
    pub keyindex: u32,
    pub is_p2sh: bool,
    pub script_pubkey_hex: String,
}

/// The wallet output that an outpoint names; the last one, should there be several.
pub open spec fn local_unspent(unspents: Seq<LocalUnspent>, txid: Seq<char>, vout: u32) -> Option<
    LocalUnspent,
>
    decreases unspents.len(),
{
    if unspents.len() == 0 {
        None
    } else if unspents.last().txid@ == txid && unspents.last().vout == vout {
        Some(unspents.last())
    } else {
        local_unspent(unspents.drop_last(), txid, vout)
    }
}

/// The key index that the derivation paths of an input name: the last step of the first path that
/// has one, unless it is hardened.
pub open spec fn path_index(paths: Seq<Seq<u32>>) -> Option<u32>
    decreases paths.len(),
{
    if paths.len() == 0 {
        None
    } else if paths[0].len() == 0 {
        path_index(paths.drop_first())
    } else if paths[0].last() < 0x8000_0000 {
        Some(paths[0].last())
    } else {
        None
    }
}

/// The entries of an input's descriptor.
pub open spec fn descriptor_entries(
    txid: Seq<char>,
    vout: u32,
    amount: u64,
    keyindex: u32,
    is_p2sh: bool,
    script_hex: Seq<char>,
) -> Seq<(Seq<char>, JsonView)> {
    seq![
        ("txid"@, JsonView::Text(txid)),
        ("outnum"@, JsonView::Number(vout as u64)),
        ("amount"@, JsonView::Number(amount)),
        ("keyindex"@, JsonView::Number(keyindex as u64)),
        ("is_p2sh"@, JsonView::Flag(is_p2sh)),
        ("script_hex"@, JsonView::Text(script_hex)),
        ("is_in_coinbase"@, JsonView::Flag(false)),
    ]
}

/// How an outpoint is written.
pub open spec fn outpoint_text(txid: Seq<char>, vout: u32) -> Seq<char> {
    txid + ":"@ + decimal(vout as nat)
}

/// What the descriptors are made from.
#[derive(Debug)]
pub struct SigningContext {
    /// The wallet's own outputs.
    pub unspents: Vec<LocalUnspent>,
    pub accounts: RgbWalletAccount,
    pub network: String,
    /// For each input, what the external signer knows of it, where there is one and it answered.
    pub metadata: Vec<Option<WalletInputMetadata>>,
    pub external_signer_mode: bool,
}

impl SigningContext {
    pub open spec fn answer(self, i: int) -> Option<WalletInputMetadata> {
        if 0 <= i < self.metadata@.len() {
            self.metadata@[i]
        } else {
            None
        }
    }
}

/// The key index of an input: what the signer says; for a node with its own keys also what the
/// script, the derivation paths or the wallet show.
pub open spec fn chosen_index(
    context: SigningContext,
    i: int,
    script: Seq<u8>,
    paths: Seq<Seq<u32>>,
    local: LocalUnspent,
) -> Option<u32> {
    match context.answer(i) {
        Some(m) => Some(m.keyindex),
        None => if context.external_signer_mode {
            None
        } else {
            match key_index(context.accounts, context.network@, script, 0) {
                Some(idx) => Some(idx),
                None => match path_index(paths) {
                    Some(idx) => Some(idx),
                    None => Some(local.derivation_index),
                },
            }
        },
    }
}

/// The descriptor of an input, or why there is none.
pub open spec fn input_descriptor(
    context: SigningContext,
    psbt: PsbtInputsView,
    i: int,
) -> Result<Seq<char>, Seq<char>> {
    if i >= psbt.prevouts.len() {
        Err("PSBT input index "@ + decimal(i as nat) + " missing in unsigned tx"@)
    } else {
        let (txid, vout) = psbt.prevouts[i];
        match local_unspent(context.unspents@, txid, vout) {
            None => Err(
                "cannot map PSBT input "@ + outpoint_text(txid, vout)
                    + " to wallet unspents for external signer"@,
            ),
            Some(local) => match psbt.witnesses[i] {
                None => Err("PSBT input index "@ + decimal(i as nat) + " missing witness_utxo"@),
                Some((value, script)) => match chosen_index(
                    context,
                    i,
                    script,
                    psbt.paths[i],
                    local,
                ) {
                    None => Err(
                        "external signer did not return wallet input metadata for "@
                            + outpoint_text(txid, vout),
                    ),
                    Some(keyindex) => Ok(
                        json_object(
                            match context.answer(i) {
                                Some(m) => descriptor_entries(
                                    txid,
                                    vout,
                                    m.amount_sat,
                                    keyindex,
                                    m.is_p2sh,
                                    m.script_pubkey_hex@,
                                ),
                                None => descriptor_entries(
                                    txid,
                                    vout,
                                    value,
                                    keyindex,
                                    false,
                                    hex(script),
                                ),
                            },
                        ),
                    ),
                },
            },
        }
    }
}

/// The descriptors of the first inputs, or why the first bad one has none.
pub open spec fn descriptors(context: SigningContext, psbt: PsbtInputsView, n: nat) -> Result<
    Seq<Seq<char>>,
    Seq<char>,
>
    decreases n,
{
    if n == 0 {
        Ok(Seq::empty())
    } else {
        match descriptors(context, psbt, (n - 1) as nat) {
            Err(e) => Err(e),
            Ok(before) => match input_descriptor(context, psbt, n - 1) {
                Err(e) => Err(e),
                Ok(d) => Ok(before.push(d)),
            },
        }
    }
}

fn find_unspent<'a>(unspents: &'a Vec<LocalUnspent>, txid: &str, vout: u32) -> (r: Option<
    &'a LocalUnspent,
>)
    ensures
        match r {
            Some(u) => local_unspent(unspents@, txid@, vout) == Some(*u),
            None => local_unspent(unspents@, txid@, vout) is None,
        },
{
    let mut i: usize = unspents.len();
    assert(unspents@.take(i as int) =~= unspents@);
    while i > 0
        invariant
            i <= unspents.len(),
            local_unspent(unspents@, txid@, vout) == local_unspent(
                unspents@.take(i as int),
                txid@,
                vout,
            ),
        decreases i,
    {
        assert(unspents@.take(i as int).last() == unspents@[i - 1]);
        assert(unspents@.take(i as int).drop_last() =~= unspents@.take(i - 1));
        if unspents[i - 1].vout == vout && same(unspents[i - 1].txid.as_str(), txid) {
            return Some(&unspents[i - 1]);
        }
        i = i - 1;
    }
    None
}

fn keyindex_from_paths(paths: &Vec<Vec<u32>>) -> (r: Option<u32>)
    ensures
        r == path_index(paths@.map_values(|steps: Vec<u32>| steps@)),
{
    let ghost all = paths@.map_values(|steps: Vec<u32>| steps@);
    let mut i: usize = 0;
    assert(all.skip(0) =~= all);
    while i < paths.len()
        invariant
            i <= paths.len(),
            all == paths@.map_values(|steps: Vec<u32>| steps@),
            path_index(all) == path_index(all.skip(i as int)),
        decreases paths.len() - i,
    {
        assert(all.skip(i as int)[0] == paths@[i as int]@);
        assert(all.skip(i as int).drop_first() =~= all.skip(i + 1));
        let len: usize = paths[i].len();
        if len > 0 {
            let last: u32 = paths[i][len - 1];
            return if last < 0x8000_0000 {
                Some(last)
            } else {
                None
            };
        }
        i = i + 1;
    }
    None
}

fn outpoint(txid: &str, vout: u32) -> (r: String)
    ensures
        r@ == outpoint_text(txid@, vout),
{
    join3(txid, ":", number(vout as u64).as_str())
}

fn render_descriptor(
    txid: &str,
    vout: u32,
    amount: u64,
    keyindex: u32,
    is_p2sh: bool,
    script_hex: String,
) -> (r: String)
    ensures
        r@ == json_object(
            descriptor_entries(txid@, vout, amount, keyindex, is_p2sh, script_hex@),
        ),
{
    let mut entries: Vec<(String, JsonValue)> = Vec::new();
    entries.push((text("txid"), JsonValue::Text(text(txid))));
    entries.push((text("outnum"), JsonValue::Number(vout as u64)));
    entries.push((text("amount"), JsonValue::Number(amount)));
    entries.push((text("keyindex"), JsonValue::Number(keyindex as u64)));
    entries.push((text("is_p2sh"), JsonValue::Flag(is_p2sh)));
    entries.push((text("script_hex"), JsonValue::Text(script_hex)));
    entries.push((text("is_in_coinbase"), JsonValue::Flag(false)));
    assert(entries_view(entries@) =~= descriptor_entries(
        txid@,
        vout,
        amount,
        keyindex,
        is_p2sh,
        script_hex@,
    ));
    render_object(entries)
}

fn describe_input(context: &SigningContext, psbt: &PsbtInputs, i: usize) -> (r: Result<
    String,
    String,
>)
    requires
        network_known(context.network@),
        i < psbt.witnesses@.len(),
        i < psbt.paths@.len(),
    ensures
        match r {
            Ok(d) => input_descriptor(*context, psbt@, i as int) == Ok::<Seq<char>, Seq<char>>(d@),
            Err(e) => input_descriptor(*context, psbt@, i as int) == Err::<Seq<char>, Seq<char>>(
                e@,
            ),
        },
{
    let ghost before = psbt@;
    if i >= psbt.prevouts.len() {
        return Err(
            join3("PSBT input index ", number(i as u64).as_str(), " missing in unsigned tx"),
        );
    }
    assert(before.prevouts[i as int] == (psbt.prevouts@[i as int].0@, psbt.prevouts@[i as int].1));
    assert(before.witnesses[i as int] == crate::psbt::witness_view(psbt.witnesses@[i as int]));
    let txid = psbt.prevouts[i].0.as_str();
    let vout: u32 = psbt.prevouts[i].1;
    let local = match find_unspent(&context.unspents, txid, vout) {
        Some(u) => u,
        None => {
            return Err(
                join3(
                    "cannot map PSBT input ",
                    outpoint(txid, vout).as_str(),
                    " to wallet unspents for external signer",
                ),
            );
        },
    };
    let (value, script) = match &psbt.witnesses[i] {
        Some(w) => (w.0, &w.1),
        None => {
            return Err(
                join3("PSBT input index ", number(i as u64).as_str(), " missing witness_utxo"),
            );
        },
    };
    let answer: Option<&WalletInputMetadata> = if i < context.metadata.len() {
        match &context.metadata[i] {
            Some(m) => Some(m),
            None => None,
        }
    } else {
        None
    };
    assert(answer is Some <==> context.answer(i as int) is Some);
    match answer {
        Some(m) => Ok(
            render_descriptor(
                txid,
                vout,
                m.amount_sat,
                m.keyindex,
                m.is_p2sh,
                copy(&m.script_pubkey_hex),
            ),
        ),
        None => {
            if context.external_signer_mode {
                return Err(
                    join2(
                        "external signer did not return wallet input metadata for ",
                        outpoint(txid, vout).as_str(),
                    ),
                );
            }
            let keyindex: u32 = match infer_keyindex_from_script(
                &context.accounts,
                context.network.as_str(),
                script,
            ) {
                Some(idx) => idx,
                None => match keyindex_from_paths(&psbt.paths[i]) {
                    Some(idx) => idx,
                    None => local.derivation_index,
                },
            };
            Ok(render_descriptor(txid, vout, value, keyindex, false, hex_str(script.as_slice())))
        },
    }
}

/// Whether a list of descriptors, or an error, is what the inputs call for.
pub open spec fn describes(
    r: Result<Vec<String>, RgbLibError>,
    expected: Result<Seq<Seq<char>>, Seq<char>>,
) -> bool {
    match expected {
        Ok(all) => r matches Ok(list) && views(list@) == all,
        Err(e) => r is Err && is_internal(r->Err_0, e),
    }
}

/// Describes every input of a transaction for a signer, or says why one cannot be described.
pub fn describe_inputs(context: &SigningContext, psbt: &PsbtInputs) -> (r: Result<
    Vec<String>,
    RgbLibError,
>)
    requires
        network_known(context.network@),
        psbt.witnesses@.len() == psbt.paths@.len(),
    ensures
        describes(r, descriptors(*context, psbt@, psbt.witnesses@.len())),
{
    let mut list: Vec<String> = Vec::new();
    let mut i: usize = 0;
    assert(views(list@) =~= Seq::empty());
    while i < psbt.witnesses.len()
        invariant
            i <= psbt.witnesses@.len(),
            psbt.witnesses@.len() == psbt.paths@.len(),
            network_known(context.network@),
            descriptors(*context, psbt@, i as nat) == Ok::<Seq<Seq<char>>, Seq<char>>(views(list@)),
        decreases psbt.witnesses@.len() - i,
    {
        let ghost before = list@;
        match describe_input(context, psbt, i) {
            Ok(d) => {
                list.push(d);
                assert(views(list@) =~= views(before).push(d@));
                assert(descriptors(*context, psbt@, (i + 1) as nat) == Ok::<
                    Seq<Seq<char>>,
                    Seq<char>,
                >(views(list@)));
            },
            Err(e) => {
                assert(descriptors(*context, psbt@, (i + 1) as nat) == Err::<
                    Seq<Seq<char>>,
                    Seq<char>,
                >(e@));
                proof {
                    lemma_first_error(*context, psbt@, (i + 1) as nat, psbt.witnesses@.len());
                }
                return Err(internal(e));
            },
        }
        i = i + 1;
    }
    Ok(list)
}

/// Describes every input of an unsigned transaction for a signer.
///
/// `unspents` is what the wallet lists of its own outputs; `network` is the wallet's network name in
/// lower case; `metadata` holds the external signer's answers, input by input.
pub fn rgb_signer_descriptors_for_psbt_with_context(
    unspents: Result<Vec<LocalUnspent>, RgbLibError>,
    accounts: RgbWalletAccount,
    network: String,
    metadata: Vec<Option<WalletInputMetadata>>,
    external_signer_mode: bool,
    unsigned_psbt: &str,
) -> (r: Result<Vec<String>, RgbLibError>)
    ensures
        described(
            r,
            psbt_inputs(unsigned_psbt@),
            unspents,
            accounts,
            network,
            metadata,
            external_signer_mode,
        ),
{
    let psbt = match parse_psbt_inputs(unsigned_psbt) {
        Ok(p) => p,
        Err(e) => {
            return Err(
                internal(join2("invalid unsigned PSBT for external signer: ", e.as_str())),
            );
        },
    };
    let unspents = match unspents {
        Ok(u) => u,
        Err(e) => {
            return Err(e);
        },
    };
    if let Err(e) = check_network(network.as_str()) {
        return Err(
            internal(
                join2("invalid bitcoin network for signer descriptor derivation: ", e.as_str()),
            ),
        );
    }
    let context = SigningContext { unspents, accounts, network, metadata, external_signer_mode };
    assert(psbt@.witnesses.len() == psbt.witnesses@.len());
    describe_inputs(&context, &psbt)
}

/// Whether a result is what an unsigned transaction's text, the wallet and the signer call for.
pub open spec fn described(
    r: Result<Vec<String>, RgbLibError>,
    parsed: Result<PsbtInputsView, Seq<char>>,
    unspents: Result<Vec<LocalUnspent>, RgbLibError>,
    accounts: RgbWalletAccount,
    network: String,
    metadata: Vec<Option<WalletInputMetadata>>,
    external_signer_mode: bool,
) -> bool {
    match parsed {
        Err(e) => r is Err && is_internal(
            r->Err_0,
            "invalid unsigned PSBT for external signer: "@ + e,
        ),
        Ok(psbt) => match unspents {
            Err(e) => r == Err::<Vec<String>, RgbLibError>(e),
            Ok(unspents) => if !network_known(network@) {
                r is Err && is_internal(
                    r->Err_0,
                    "invalid bitcoin network for signer descriptor derivation: "@
                        + ("failed to parse "@ + network@ + " as network"@),
                )
            } else {
                describes(
                    r,
                    descriptors(
                        (SigningContext {
                            unspents,
                            accounts,
                            network,
                            metadata,
                            external_signer_mode,
                        }),
                        psbt,
                        psbt.witnesses.len(),
                    ),
                )
            },
        },
    }
}

proof fn lemma_first_error(context: SigningContext, psbt: PsbtInputsView, k: nat, n: nat)
    requires
        k <= n,
        descriptors(context, psbt, k) is Err,
    ensures
        descriptors(context, psbt, n) == descriptors(context, psbt, k),
    decreases n - k,
{
    if k < n {
        lemma_first_error(context, psbt, k, (n - 1) as nat);
    }
}

// ---------------------------------------------------------------------------------------------
// Fee bumping
// ---------------------------------------------------------------------------------------------

/// The transaction that a signed one comes to. An external signer strips the values that a wallet
/// attaches, so a transaction whose fee is not known is accepted from it.
pub open spec fn bump_tx(
    external_signer_mode: bool,
    extracted: Result<ExtractedView, Seq<char>>,
) -> Option<Seq<u8>> {
    match extracted {
        Ok(t) => if t.missing_value is None || external_signer_mode {
            Some(t.tx)
        } else {
            None
        },
        Err(_) => None,
    }
}

/// What a signed transaction is broadcast as.
pub open spec fn is_signed_tx(
    external_signer_mode: bool,
    signed: Option<&str>,
    r: Option<Vec<u8>>,
) -> bool {
    &&& signed is None ==> r is None
    &&& signed matches Some(s) ==> match bump_tx(external_signer_mode, psbt_extracted(s@)) {
            Some(tx) => r matches Some(bytes) && bytes@ == tx,
            None => r is None,
        }
}

/// What a signed transaction is broadcast as, consensus encoded; nothing where signing failed or the
/// transaction cannot be extracted.
pub fn sign_psbt(external_signer_mode: bool, signed: Option<&str>) -> (r: Option<Vec<u8>>)
    ensures
        is_signed_tx(external_signer_mode, signed, r),
{
    match signed {
        None => None,
        Some(s) => match extract_tx(s) {
            Ok(t) => extracted_tx(external_signer_mode, t),
            Err(_) => None,
        },
    }
}

/// The transaction to broadcast out of what was extracted.
pub fn extracted_tx(external_signer_mode: bool, extracted: ExtractedTx) -> (r: Option<Vec<u8>>)
    ensures
        r == (if extracted.missing_value is None || external_signer_mode {
            Some(extracted.tx)
        } else {
            None
        }),
{
    if extracted.missing_value.is_none() || external_signer_mode {
        Some(extracted.tx)
    } else {
        None
    }
}

/// A failing signer is told by how it failed, and one that presents itself wrongly is not attached: only a
/// valid one is, with what it presented.
pub proof fn law_signers_are_attached_only_when_valid<B>(
    bootstrap: Result<B, RlnSignerError>,
    validation: Result<(), String>,
)
    ensures
        attached(bootstrap, validation) is Ok <==> bootstrap is Ok && validation is Ok,
        bootstrap is Ok && validation is Ok ==> attached(bootstrap, validation)->Ok_0
            == bootstrap->Ok_0,
        (bootstrap matches Err(RlnSignerError::Transport(m))) ==> (attached(
            bootstrap,
            validation,
        ) matches Err(APIError::ExternalSignerUnavailable(_))),
        (bootstrap matches Err(RlnSignerError::Protocol(m))) || (
        bootstrap matches Err(RlnSignerError::Unsupported(m))) ==> (attached(
            bootstrap,
            validation,
        ) matches Err(APIError::ExternalSignerProtocolError(_))),
        bootstrap is Ok && validation is Err ==> (attached(
            bootstrap,
            validation,
        ) matches Err(APIError::ExternalSignerProtocolError(_))),
        (bootstrap matches Err(e)) ==> (attached(bootstrap, validation) matches Err(a) && (match a {
            APIError::ExternalSignerUnavailable(m) => m@ == bootstrap->Err_0.said(),
            APIError::ExternalSignerProtocolError(m) => m@ == bootstrap->Err_0.said(),
            _ => false,
        })),
{
}

/// Whether a script is that of a wallet key at an index: directly under an account key or in one of its
/// two branches, of either kind.
pub open spec fn belongs_to_index(
    accounts: RgbWalletAccount,
    network: Seq<char>,
    script: Seq<u8>,
    idx: u32,
) -> bool {
    exists|xpub: Seq<char>, path: Seq<u32>|
        (xpub == accounts.account_xpub_colored@ || xpub == accounts.account_xpub_vanilla@) && (path
            == seq![idx] || path == seq![0u32, idx] || path == seq![1u32, idx]) && (
        #[trigger] derived_scripts(xpub, network, path) matches DerivedView::Scripts { p2wpkh, p2tr }
            && (p2wpkh == script || p2tr == script))
}

proof fn lemma_probe_hits(
    accounts: RgbWalletAccount,
    network: Seq<char>,
    script: Seq<u8>,
    idx: u32,
)
    ensures
        index_probe(accounts, network, script, idx) is Hit ==> belongs_to_index(
            accounts,
            network,
            script,
            idx,
        ),
{
    let colored = accounts.account_xpub_colored@;
    let vanilla = accounts.account_xpub_vanilla@;
    let a = derived_scripts(colored, network, seq![idx]);
    let b = derived_scripts(colored, network, seq![0u32, idx]);
    let c = derived_scripts(colored, network, seq![1u32, idx]);
    let d = derived_scripts(vanilla, network, seq![idx]);
    let e = derived_scripts(vanilla, network, seq![0u32, idx]);
    let f = derived_scripts(vanilla, network, seq![1u32, idx]);
}

/// The index that a script is found under is one of the first ten thousand, the script does belong to
/// it, and no lower one was passed over that it was found under.
pub proof fn law_found_indices_own_the_script(
    accounts: RgbWalletAccount,
    network: Seq<char>,
    script: Seq<u8>,
    from: int,
    lower: int,
)
    requires
        0 <= from,
    ensures
        key_index(accounts, network, script, from) matches Some(idx) ==> {
            &&& from <= idx < 10_000
            &&& belongs_to_index(accounts, network, script, idx)
            &&& from <= lower < idx ==> index_probe(accounts, network, script, lower as u32) is Miss
        },
    decreases 10_000 - from,
{
    if from < 10_000 {
        lemma_probe_hits(accounts, network, script, from as u32);
        if index_probe(accounts, network, script, from as u32) is Miss {
            law_found_indices_own_the_script(accounts, network, script, from + 1, lower);
        }
    }
}

/// A script is found under the lowest index that it belongs to, where every key below can be derived: a
/// key of either account, directly or in a branch, is found.
pub proof fn law_wallet_scripts_are_found(
    accounts: RgbWalletAccount,
    network: Seq<char>,
    script: Seq<u8>,
    from: int,
    idx: u32,
)
    requires
        0 <= from <= idx < 10_000,
        forall|xpub: Seq<char>, path: Seq<u32>|
            #[trigger] derived_scripts(xpub, network, path) is Scripts,
        belongs_to_index(accounts, network, script, idx),
        forall|j: u32|
            from <= j < idx ==> !#[trigger] belongs_to_index(accounts, network, script, j),
    ensures
        key_index(accounts, network, script, from) == Some(idx),
    decreases idx - from,
{
    let at = from as u32;
    lemma_probe_hits(accounts, network, script, at);
    let colored = accounts.account_xpub_colored@;
    let vanilla = accounts.account_xpub_vanilla@;
    let a = derived_scripts(colored, network, seq![at]);
    let b = derived_scripts(colored, network, seq![0u32, at]);
    let c = derived_scripts(colored, network, seq![1u32, at]);
    let d = derived_scripts(vanilla, network, seq![at]);
    let e = derived_scripts(vanilla, network, seq![0u32, at]);
    let f = derived_scripts(vanilla, network, seq![1u32, at]);
    assert(a is Scripts && b is Scripts && c is Scripts && d is Scripts && e is Scripts
        && f is Scripts);
    assert(!(index_probe(accounts, network, script, at) is Stop));
    if from < idx {
        assert(!belongs_to_index(accounts, network, script, at));
        assert(index_probe(accounts, network, script, at) is Miss);
        law_wallet_scripts_are_found(accounts, network, script, from + 1, idx);
    } else {
        let (xpub, path): (Seq<char>, Seq<u32>) = choose|xpub: Seq<char>, path: Seq<u32>|
            (xpub == accounts.account_xpub_colored@ || xpub == accounts.account_xpub_vanilla@) && (
            path == seq![idx] || path == seq![0u32, idx] || path == seq![1u32, idx]) && (
            #[trigger] derived_scripts(xpub, network, path) matches DerivedView::Scripts {
                p2wpkh,
                p2tr,
            } && (p2wpkh == script || p2tr == script));
        assert(index_probe(accounts, network, script, at) is Hit);
    }
}

proof fn lemma_local_unspent(unspents: Seq<LocalUnspent>, txid: Seq<char>, vout: u32, i: int)
    ensures
        local_unspent(unspents, txid, vout) matches Some(u) ==> u.txid@ == txid && u.vout == vout
            && unspents.contains(u),
        0 <= i < unspents.len() && unspents[i].txid@ == txid && unspents[i].vout == vout
            ==> local_unspent(unspents, txid, vout) is Some,
    decreases unspents.len(),
{
    if unspents.len() > 0 {
        let rest = unspents.drop_last();
        lemma_local_unspent(rest, txid, vout, i);
        if 0 <= i < rest.len() {
            assert(rest[i] == unspents[i]);
        }
        if unspents.last().txid@ == txid && unspents.last().vout == vout {
            assert(unspents.contains(unspents.last()));
        } else if local_unspent(rest, txid, vout) is Some {
            let u = local_unspent(rest, txid, vout)->0;
            let k = choose|k: int| 0 <= k < rest.len() && rest[k] == u;
            assert(unspents[k] == u);
        }
    }
}

/// An input is only described where it spends an output of the wallet and brings its value and script. An
/// external signer is told only what it said itself; a node with its own keys always finds an index.
pub proof fn law_described_inputs_are_the_wallets(
    context: SigningContext,
    psbt: PsbtInputsView,
    i: int,
    k: int,
)
    requires
        0 <= i < psbt.prevouts.len(),
    ensures
        input_descriptor(context, psbt, i) is Ok ==> psbt.witnesses[i] is Some && exists|u: int|
            0 <= u < context.unspents@.len() && (#[trigger] context.unspents@[u]).txid@
                == psbt.prevouts[i].0 && context.unspents@[u].vout == psbt.prevouts[i].1,
        context.external_signer_mode && input_descriptor(context, psbt, i) is Ok ==> context.answer(
            i,
        ) is Some,
        0 <= k < context.unspents@.len() && context.unspents@[k].txid@ == psbt.prevouts[i].0
            && context.unspents@[k].vout == psbt.prevouts[i].1 && psbt.witnesses[i] is Some && (
        !context.external_signer_mode || context.answer(i) is Some) ==> input_descriptor(
            context,
            psbt,
            i,
        ) is Ok,
        psbt.witnesses[i] is None ==> input_descriptor(context, psbt, i) is Err,
{
    let (txid, vout) = psbt.prevouts[i];
    lemma_local_unspent(context.unspents@, txid, vout, k);
    if local_unspent(context.unspents@, txid, vout) is Some {
        let u = local_unspent(context.unspents@, txid, vout)->0;
        let n = choose|n: int| 0 <= n < context.unspents@.len() && context.unspents@[n] == u;
        assert(context.unspents@[n].txid@ == txid);
    }
}

/// What a signer answered for an input is what it is told of it, its value, index and script; without an
/// answer the transaction's own value and script are told.
pub proof fn law_signers_hear_what_they_said(
    context: SigningContext,
    psbt: PsbtInputsView,
    i: int,
    d: Seq<char>,
)
    requires
        0 <= i < psbt.prevouts.len(),
        input_descriptor(context, psbt, i) == Ok::<Seq<char>, Seq<char>>(d),
    ensures
        context.answer(i) matches Some(m) ==> d == json_object(
            seq![
                ("txid"@, JsonView::Text(psbt.prevouts[i].0)),
                ("outnum"@, JsonView::Number(psbt.prevouts[i].1 as u64)),
                ("amount"@, JsonView::Number(m.amount_sat)),
                ("keyindex"@, JsonView::Number(m.keyindex as u64)),
                ("is_p2sh"@, JsonView::Flag(m.is_p2sh)),
                ("script_hex"@, JsonView::Text(m.script_pubkey_hex@)),
                ("is_in_coinbase"@, JsonView::Flag(false)),
            ],
        ),
        context.answer(i) is None ==> exists|keyindex: u32|
            d == #[trigger] json_object(
                descriptor_entries(
                    psbt.prevouts[i].0,
                    psbt.prevouts[i].1,
                    (psbt.witnesses[i]->0).0,
                    keyindex,
                    false,
                    hex((psbt.witnesses[i]->0).1),
                ),
            ),
{
}

/// A node with its own keys takes the index that the script shows, else the one that the paths name, else
/// the wallet's own; a node with an external signer takes none of these.
pub proof fn law_key_indices_are_taken_in_order(
    context: SigningContext,
    i: int,
    script: Seq<u8>,
    paths: Seq<Seq<u32>>,
    local: LocalUnspent,
)
    ensures
        ({
            let r = chosen_index(context, i, script, paths, local);
            let shown = key_index(context.accounts, context.network@, script, 0);
            &&& context.answer(i) matches Some(m) ==> r == Some(m.keyindex)
            &&& context.answer(i) is None && context.external_signer_mode ==> r is None
            &&& context.answer(i) is None && !context.external_signer_mode ==> r is Some
            &&& context.answer(i) is None && !context.external_signer_mode && shown is Some ==> r
                == shown
            &&& context.answer(i) is None && !context.external_signer_mode && shown is None
                && path_index(paths) is Some ==> r == path_index(paths)
            &&& context.answer(i) is None && !context.external_signer_mode && shown is None
                && path_index(paths) is None ==> r == Some(local.derivation_index)
        }),
{
}

/// A path names the index of its last step, unless that is hardened or there is none; the first path that
/// has a step counts.
pub proof fn law_paths_name_their_last_step(paths: Seq<Seq<u32>>, steps: Seq<u32>)
    ensures
        path_index(Seq::empty()) is None,
        steps.len() > 0 && steps.last() < 0x8000_0000 ==> path_index(seq![steps] + paths) == Some(
            steps.last(),
        ),
        steps.len() > 0 && steps.last() >= 0x8000_0000 ==> path_index(seq![steps] + paths) is None,
        steps.len() == 0 ==> path_index(seq![steps] + paths) == path_index(paths),
{
    let all = seq![steps] + paths;
    assert(all[0] == steps);
    assert(all.drop_first() =~= paths);
}

/// Every input of a transaction is described, in order, or the first that cannot be says why.
pub proof fn law_every_input_is_described(
    context: SigningContext,
    psbt: PsbtInputsView,
    n: nat,
    i: int,
)
    requires
        0 <= i < n,
    ensures
        descriptors(context, psbt, n) matches Ok(list) ==> list.len() == n && input_descriptor(
            context,
            psbt,
            i,
        ) == Ok::<Seq<char>, Seq<char>>(list[i]),
        input_descriptor(context, psbt, i) is Err ==> descriptors(context, psbt, n) is Err,
        (forall|k: int| 0 <= k < n ==> #[trigger] input_descriptor(context, psbt, k) is Ok)
            ==> descriptors(context, psbt, n) is Ok,
    decreases n,
{
    let m = (n - 1) as nat;
    if m > 0 {
        law_every_input_is_described(
            context,
            psbt,
            m,
            if i < m {
                i
            } else {
                0
            },
        );
    }
    lemma_described_count(context, psbt, m);
}

proof fn lemma_described_count(context: SigningContext, psbt: PsbtInputsView, n: nat)
    ensures
        descriptors(context, psbt, n) matches Ok(list) ==> list.len() == n,
    decreases n,
{
    if n > 0 {
        lemma_described_count(context, psbt, (n - 1) as nat);
    }
}

/// Nothing is described of a transaction that cannot be read, without the wallet's outputs, or on an
/// unknown network.
pub proof fn law_nothing_is_described_blindly(
    r: Result<Vec<String>, RgbLibError>,
    parsed: Result<PsbtInputsView, Seq<char>>,
    unspents: Result<Vec<LocalUnspent>, RgbLibError>,
    accounts: RgbWalletAccount,
    network: String,
    metadata: Vec<Option<WalletInputMetadata>>,
    external_signer_mode: bool,
)
    requires
        described(r, parsed, unspents, accounts, network, metadata, external_signer_mode),
    ensures
        parsed is Err || unspents is Err || !network_known(network@) ==> r is Err,
        r matches Ok(list) ==> list@.len() == parsed->Ok_0.witnesses.len(),
{
    if parsed is Ok && unspents is Ok && network_known(network@) {
        let context = SigningContext {
            unspents: unspents->Ok_0,
            accounts,
            network,
            metadata,
            external_signer_mode,
        };
        lemma_described_count(context, parsed->Ok_0, parsed->Ok_0.witnesses.len());
    }
}

/// A signed transaction is broadcast where it can be extracted and its fee is known; from an external
/// signer, which strips the values, also where the fee is not.
pub proof fn law_signed_transactions_are_broadcast(
    external_signer_mode: bool,
    signed: Option<&str>,
    r: Option<Vec<u8>>,
)
    requires
        is_signed_tx(external_signer_mode, signed, r),
    ensures
        r is Some <==> signed is Some && (psbt_extracted(signed->0@) matches Ok(t) && (
        t.missing_value is None || external_signer_mode)),
        r matches Some(bytes) ==> bytes@ == psbt_extracted(signed->0@)->Ok_0.tx,
{
}

/// The networks that are known are the main one, the two testnets, signet and regtest, and no other.
pub proof fn law_five_networks_are_known(s: Seq<char>)
    ensures
        network_known("bitcoin"@) && network_known("testnet"@) && network_known("testnet4"@)
            && network_known("signet"@) && network_known("regtest"@),
        s != "bitcoin"@ && s != "testnet"@ && s != "testnet4"@ && s != "signet"@ && s != "regtest"@
            ==> !network_known(s),
{
}

} // verus!
