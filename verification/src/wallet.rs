//! What the node asks of its RGB wallet, and what it makes of the wallet's outputs.

use std::str::FromStr;

use bitcoin::key::XOnlyPublicKey;
use bitcoin::{Address, Network, OutPoint, ScriptBuf};
use vstd::prelude::*;
use vstd::string::*;

use crate::crypto::txid_bytes;
use crate::error::{is_internal, RgbLibError};
use crate::funding_preparation::Assignment;
use crate::psbt::psbt_inputs;
use crate::sender_funding::AssetSchema;
use crate::signer::{
    check_network, described, network_known, resolve_rgb_psbt_signer_failure,
    rgb_signer_descriptors_for_psbt_with_context, LocalUnspent, RgbWalletAccount, RlnSignerError,
    WalletInputMetadata,
};
use crate::text::{copy, decimal, fixed_hex};

verus! {

/// Who receives an asset, and how much of it.
#[derive(Debug, PartialEq, Eq)]
pub struct Recipient {
    pub recipient_id: String,
    /// The satoshis and the blinding of an output that is made for the recipient.
    pub witness_data: Option<(u64, Option<u64>)>,
    pub assignment: Assignment,
    pub transport_endpoints: Vec<String>,
}

/// A request to the RGB wallet, with all its arguments.
#[derive(Debug, PartialEq, Eq)]
#[allow(inconsistent_fields)]
pub enum WalletCall {
    BlindReceive {
        asset_id: Option<String>,
        amount: Option<u64>,
        expiration_timestamp: Option<u64>,
        transport_endpoints: Vec<String>,
        min_confirmations: u8,
    },
    CreateConsignments { psbt: String },
    CreateUtxos { up_to: bool, num: Option<u8>, size: Option<u32>, fee_rate: u64, skip_sync: bool },
    CreateUtxosBegin {
        up_to: bool,
        num: Option<u8>,
        size: Option<u32>,
        fee_rate: u64,
        skip_sync: bool,
    },
    CreateUtxosEnd { signed_psbt: String, skip_sync: bool },
    FailTransfers { batch_transfer_idx: Option<i32>, no_asset_only: bool, skip_sync: bool },
    GetAddress,
    GetAssetBalance { contract_id: String },
    GetAssetMetadata { contract_id: String },
    GetBtcBalance { skip_sync: bool, online: bool },
    GetFeeEstimation { blocks: u16 },
    GetKeys,
    GetMediaDir,
    GetSendConsignmentPath { asset_id: String, transfer_id: String },
    Inflate { asset_id: String, inflation_amounts: Vec<u64>, fee_rate: u64, min_confirmations: u8 },
    IssueAssetCfa {
        name: String,
        details: Option<String>,
        precision: u8,
        amounts: Vec<u64>,
        file_path: Option<String>,
    },
    IssueAssetIfa {
        ticker: String,
        name: String,
        precision: u8,
        amounts: Vec<u64>,
        inflation_amounts: Vec<u64>,
        reject_list_url: Option<String>,
    },
    IssueAssetNia { ticker: String, name: String, precision: u8, amounts: Vec<u64> },
    IssueAssetUda {
        ticker: String,
        name: String,
        details: Option<String>,
        precision: u8,
        media_file_path: Option<String>,
        attachments_file_paths: Vec<String>,
    },
    ListAssets { filter_asset_schemas: Vec<AssetSchema> },
    ListTransactions { skip_sync: bool, online: bool },
    ListTransfers { asset_id: Option<String> },
    ListUnspents { skip_sync: bool, online: bool, settled_only: bool },
    PostConsignment {
        proxy_url: String,
        recipient_id: String,
        consignment_path: String,
        txid: String,
        vout: Option<u32>,
    },
    Refresh { skip_sync: bool, asset_id: Option<String>, filter: Vec<u8> },
    Send {
        /// The recipients of each asset.
        recipients: Vec<(String, Vec<Recipient>)>,
        donation: bool,
        fee_rate: u64,
        min_confirmations: u8,
        expiration_timestamp: Option<u64>,
        skip_sync: bool,
    },
    SendBegin {
        /// The recipients of each asset.
        recipients: Vec<(String, Vec<Recipient>)>,
        donation: bool,
        fee_rate: u64,
        min_confirmations: u8,
        expiration_timestamp: Option<u64>,
        dry_run: bool,
    },
    SendBtc { address: String, amount: u64, fee_rate: u64, skip_sync: bool },
    SendBtcBegin { address: String, amount: u64, fee_rate: u64, skip_sync: bool },
    SendBtcEnd { signed_psbt: String, skip_sync: bool },
    SendEnd { signed_psbt: String, skip_sync: bool },
    Sync,
    WitnessReceive {
        asset_id: Option<String>,
        amount: Option<u64>,
        expiration_timestamp: Option<u64>,
        transport_endpoints: Vec<String>,
        min_confirmations: u8,
    },
}

/// What the unlocked node knows of its wallet and its signer.
#[derive(Debug)]
pub struct UnlockedAppState {
    pub accounts: RgbWalletAccount,
    /// The wallet's network name, in lower case.
    pub network: String,
    pub external_signer_mode: bool,
}

/// The request for the BTC balance.
pub open spec fn btc_balance_asked(
    skip_sync: bool,
    r: WalletCall,
) -> bool {
    &&& r == (WalletCall::GetBtcBalance { skip_sync, online: !skip_sync })
}

/// The request for the transactions.
pub open spec fn transactions_asked(
    skip_sync: bool,
    r: WalletCall,
) -> bool {
    &&& r == (WalletCall::ListTransactions { skip_sync, online: !skip_sync })
}

/// The request for the transfers of an asset.
pub open spec fn transfers_asked(
    asset_id: String,
    r: WalletCall,
) -> bool {
    &&& r == (WalletCall::ListTransfers { asset_id: Some(asset_id) })
}

/// The request for the outputs.
pub open spec fn unspents_asked(
    skip_sync: bool,
    r: WalletCall,
) -> bool {
    &&& r == (WalletCall::ListUnspents { skip_sync, online: !skip_sync, settled_only: false })
}

/// The request for a refresh.
pub open spec fn refresh_asked(
    skip_sync: bool,
    r: WalletCall,
) -> bool {
    &&& r matches WalletCall::Refresh { skip_sync: s, asset_id: a, filter: f } && s == skip_sync && a is None && f@
            == Seq::<u8>::empty()
}

/// The request for a transaction that sends BTC.
pub open spec fn btc_begin_asked(
    address: String,
    amount: u64,
    fee_rate: u64,
    r: WalletCall,
) -> bool {
    &&& r == (WalletCall::SendBtcBegin { address, amount, fee_rate, skip_sync: false })
}

/// The request to broadcast a transaction that sends BTC.
pub open spec fn btc_end_asked(
    signed_psbt: String,
    r: WalletCall,
) -> bool {
    &&& r == (WalletCall::SendBtcEnd { signed_psbt, skip_sync: false })
}

/// The request to broadcast the transaction of a transfer.
pub open spec fn send_end_asked(
    signed_psbt: String,
    r: WalletCall,
) -> bool {
    &&& r == (WalletCall::SendEnd { signed_psbt, skip_sync: false })
}

/// The request for outputs that can hold allocations.
pub open spec fn utxos_asked(
    up_to: bool,
    num: u8,
    size: u32,
    fee_rate: u64,
    skip_sync: bool,
    r: WalletCall,
) -> bool {
    &&& r == (WalletCall::CreateUtxos {
                up_to,
                num: Some(num),
                size: Some(size),
                fee_rate,
                skip_sync,
            })
}

/// The request for a transaction that creates outputs.
pub open spec fn utxos_begin_asked(
    up_to: bool,
    num: u8,
    size: u32,
    fee_rate: u64,
    skip_sync: bool,
    r: WalletCall,
) -> bool {
    &&& r == (WalletCall::CreateUtxosBegin {
                up_to,
                num: Some(num),
                size: Some(size),
                fee_rate,
                skip_sync,
            })
}

impl UnlockedAppState {
    fn duplicate_accounts(&self) -> (r: RgbWalletAccount)
        ensures
            r == self.accounts,
    {
        RgbWalletAccount {
            account_xpub_colored: copy(&self.accounts.account_xpub_colored),
            account_xpub_vanilla: copy(&self.accounts.account_xpub_vanilla),
        }
    }

    /// Describes every input of an unsigned transaction for the node's signer.
    pub fn rgb_signer_descriptors_for_psbt(
        &self,
        unspents: Result<Vec<LocalUnspent>, RgbLibError>,
        metadata: Vec<Option<WalletInputMetadata>>,
        unsigned_psbt: &str,
    ) -> (r: Result<Vec<String>, RgbLibError>)
        ensures
            described(
                r,
                psbt_inputs(unsigned_psbt@),
                unspents,
                self.accounts,
                self.network,
                metadata,
                self.external_signer_mode,
            ),
    {
        rgb_signer_descriptors_for_psbt_with_context(
            unspents,
            self.duplicate_accounts(),
            copy(&self.network),
            metadata,
            self.external_signer_mode,
            unsigned_psbt,
        )
    }

    /// Signs a transaction: `sign` is the node's signer, `local_sign` the wallet's own. The inputs
    /// are described only for an external signer.
    pub fn rgb_sign_psbt<
        S: FnOnce(Vec<String>, String) -> Result<String, RlnSignerError>,
        L: FnOnce() -> Result<String, RgbLibError>,
    >(
        &self,
        unspents: Result<Vec<LocalUnspent>, RgbLibError>,
        metadata: Vec<Option<WalletInputMetadata>>,
        unsigned_psbt: String,
        sign: S,
        local_sign: L,
    ) -> (r: Result<String, RgbLibError>)
        requires
            forall|descriptors: Vec<String>, psbt: String|
                call_requires(sign, (descriptors, psbt)),
            !self.external_signer_mode ==> call_requires(local_sign, ()),
        ensures
            !self.external_signer_mode ==> exists|none: Vec<String>, signed: Result<
                String,
                RlnSignerError,
            >|
                none@.len() == 0 && #[trigger] call_ensures(sign, (none, unsigned_psbt), signed)
                    && match signed {
                    Ok(s) => r == Ok::<String, RgbLibError>(s),
                    Err(_) => call_ensures(local_sign, (), r),
                },
            self.external_signer_mode ==> exists|list: Result<Vec<String>, RgbLibError>|
                #[trigger] described(
                    list,
                    psbt_inputs(unsigned_psbt@),
                    unspents,
                    self.accounts,
                    self.network,
                    metadata,
                    true,
                ) && match list {
                    Err(e) => r == Err::<String, RgbLibError>(e),
                    Ok(descriptors) => exists|signed: Result<String, RlnSignerError>|
                        #[trigger] call_ensures(sign, (descriptors, unsigned_psbt), signed)
                            && match signed {
                            Ok(s) => r == Ok::<String, RgbLibError>(s),
                            Err(e) => r is Err && is_internal(
                                r->Err_0,
                                "external signer RGB PSBT signing failed: "@ + e.said(),
                            ),
                        },
                },
    {
        let signer_descriptors: Vec<String> = if self.external_signer_mode {
            let list = self.rgb_signer_descriptors_for_psbt(
                unspents,
                metadata,
                unsigned_psbt.as_str(),
            );
            match list {
                Ok(descriptors) => descriptors,
                Err(e) => {
                    return Err(e);
                },
            }
        } else {
            Vec::new()
        };
        let signed = sign(signer_descriptors, copy(&unsigned_psbt));
        match signed {
            Ok(s) => Ok(s),
            Err(e) => resolve_rgb_psbt_signer_failure(self.external_signer_mode, &e, local_sign),
        }
    }

    /// Asks for a blinded output to receive on; without an amount any is accepted.
    pub fn rgb_blind_receive(
        &self,
        asset_id: Option<String>,
        amount: Option<u64>,
        expiration_timestamp: Option<u64>,
        transport_endpoints: Vec<String>,
        min_confirmations: u8,
    ) -> (r: WalletCall)
        ensures
            r == (WalletCall::BlindReceive {
                asset_id,
                amount,
                expiration_timestamp,
                transport_endpoints,
                min_confirmations,
            }),
    {
        WalletCall::BlindReceive {
            asset_id,
            amount,
            expiration_timestamp,
            transport_endpoints,
            min_confirmations,
        }
    }

    /// Writes the consignments of a transfer.
    pub fn rgb_create_consignments(&self, psbt: String) -> (r: WalletCall)
        ensures
            r == (WalletCall::CreateConsignments { psbt }),
    {
        WalletCall::CreateConsignments { psbt }
    }

    /// Creates outputs that can hold allocations.
    pub fn rgb_create_utxos(
        &self,
        up_to: bool,
        num: u8,
        size: u32,
        fee_rate: u64,
        skip_sync: bool,
    ) -> (r: WalletCall)
        ensures
            utxos_asked(up_to, num, size, fee_rate, skip_sync, r),
    {
        WalletCall::CreateUtxos { up_to, num: Some(num), size: Some(size), fee_rate, skip_sync }
    }

    /// Prepares the transaction that creates outputs.
    pub fn rgb_create_utxos_begin(
        &self,
        up_to: bool,
        num: u8,
        size: u32,
        fee_rate: u64,
        skip_sync: bool,
    ) -> (r: WalletCall)
        ensures
            utxos_begin_asked(up_to, num, size, fee_rate, skip_sync, r),
    {
        WalletCall::CreateUtxosBegin {
            up_to,
            num: Some(num),
            size: Some(size),
            fee_rate,
            skip_sync,
        }
    }

    /// Broadcasts the transaction that creates outputs.
    pub fn rgb_create_utxos_end(&self, signed_psbt: String, skip_sync: bool) -> (r: WalletCall)
        ensures
            r == (WalletCall::CreateUtxosEnd { signed_psbt, skip_sync }),
    {
        WalletCall::CreateUtxosEnd { signed_psbt, skip_sync }
    }

    /// Fails pending transfers.
    pub fn rgb_fail_transfers(
        &self,
        batch_transfer_idx: Option<i32>,
        no_asset_only: bool,
        skip_sync: bool,
    ) -> (r: WalletCall)
        ensures
            r == (WalletCall::FailTransfers { batch_transfer_idx, no_asset_only, skip_sync }),
    {
        WalletCall::FailTransfers { batch_transfer_idx, no_asset_only, skip_sync }
    }

    /// Asks for a new address.
    pub fn rgb_get_address(&self) -> (r: WalletCall)
        ensures
            r == WalletCall::GetAddress,
    {
        WalletCall::GetAddress
    }

    /// Asks for the balance of an asset.
    pub fn rgb_get_asset_balance(&self, contract_id: String) -> (r: WalletCall)
        ensures
            r == (WalletCall::GetAssetBalance { contract_id }),
    {
        WalletCall::GetAssetBalance { contract_id }
    }

    /// Asks for the metadata of an asset.
    pub fn rgb_get_asset_metadata(&self, contract_id: String) -> (r: WalletCall)
        ensures
            r == (WalletCall::GetAssetMetadata { contract_id }),
    {
        WalletCall::GetAssetMetadata { contract_id }
    }

    /// Asks for the BTC balance; the indexer is asked only for a sync.
    pub fn rgb_get_btc_balance(&self, skip_sync: bool) -> (r: WalletCall)
        ensures
            btc_balance_asked(skip_sync, r),
    {
        WalletCall::GetBtcBalance { skip_sync, online: !skip_sync }
    }

    /// Asks for a fee estimate.
    pub fn rgb_get_fee_estimation(&self, blocks: u16) -> (r: WalletCall)
        ensures
            r == (WalletCall::GetFeeEstimation { blocks }),
    {
        WalletCall::GetFeeEstimation { blocks }
    }

    /// Asks for the wallet's keys.
    pub fn rgb_get_keys(&self) -> (r: WalletCall)
        ensures
            r == WalletCall::GetKeys,
    {
        WalletCall::GetKeys
    }

    /// Asks where media files are kept.
    pub fn rgb_get_media_dir(&self) -> (r: WalletCall)
        ensures
            r == WalletCall::GetMediaDir,
    {
        WalletCall::GetMediaDir
    }

    /// Asks where a consignment was written.
    pub fn rgb_get_send_consignment_path(
        &self,
        asset_id: String,
        transfer_id: String,
    ) -> (r: WalletCall)
        ensures
            r == (WalletCall::GetSendConsignmentPath { asset_id, transfer_id }),
    {
        WalletCall::GetSendConsignmentPath { asset_id, transfer_id }
    }

    /// Inflates an asset.
    pub fn rgb_inflate(
        &self,
        asset_id: String,
        inflation_amounts: Vec<u64>,
        fee_rate: u64,
        min_confirmations: u8,
    ) -> (r: WalletCall)
        ensures
            r == (WalletCall::Inflate { asset_id, inflation_amounts, fee_rate, min_confirmations }),
    {
        WalletCall::Inflate { asset_id, inflation_amounts, fee_rate, min_confirmations }
    }

    /// Issues a collectible asset.
    pub fn rgb_issue_asset_cfa(
        &self,
        name: String,
        details: Option<String>,
        precision: u8,
        amounts: Vec<u64>,
        file_path: Option<String>,
    ) -> (r: WalletCall)
        ensures
            r == (WalletCall::IssueAssetCfa { name, details, precision, amounts, file_path }),
    {
        WalletCall::IssueAssetCfa { name, details, precision, amounts, file_path }
    }

    /// Issues an inflatable asset.
    pub fn rgb_issue_asset_ifa(
        &self,
        ticker: String,
        name: String,
        precision: u8,
        amounts: Vec<u64>,
        inflation_amounts: Vec<u64>,
        reject_list_url: Option<String>,
    ) -> (r: WalletCall)
        ensures
            r == (WalletCall::IssueAssetIfa {
                ticker,
                name,
                precision,
                amounts,
                inflation_amounts,
                reject_list_url,
            }),
    {
        WalletCall::IssueAssetIfa {
            ticker,
            name,
            precision,
            amounts,
            inflation_amounts,
            reject_list_url,
        }
    }

    /// Issues a fungible asset.
    pub fn rgb_issue_asset_nia(
        &self,
        ticker: String,
        name: String,
        precision: u8,
        amounts: Vec<u64>,
    ) -> (r: WalletCall)
        ensures
            r == (WalletCall::IssueAssetNia { ticker, name, precision, amounts }),
    {
        WalletCall::IssueAssetNia { ticker, name, precision, amounts }
    }

    /// Issues a unique asset.
    pub fn rgb_issue_asset_uda(
        &self,
        ticker: String,
        name: String,
        details: Option<String>,
        precision: u8,
        media_file_path: Option<String>,
        attachments_file_paths: Vec<String>,
    ) -> (r: WalletCall)
        ensures
            r == (WalletCall::IssueAssetUda {
                ticker,
                name,
                details,
                precision,
                media_file_path,
                attachments_file_paths,
            }),
    {
        WalletCall::IssueAssetUda {
            ticker,
            name,
            details,
            precision,
            media_file_path,
            attachments_file_paths,
        }
    }

    /// Lists the assets of the given schemas.
    pub fn rgb_list_assets(&self, filter_asset_schemas: Vec<AssetSchema>) -> (r: WalletCall)
        ensures
            r == (WalletCall::ListAssets { filter_asset_schemas }),
    {
        WalletCall::ListAssets { filter_asset_schemas }
    }

    /// Lists the transactions; the indexer is asked only for a sync.
    pub fn rgb_list_transactions(&self, skip_sync: bool) -> (r: WalletCall)
        ensures
            transactions_asked(skip_sync, r),
    {
        WalletCall::ListTransactions { skip_sync, online: !skip_sync }
    }

    /// Lists the transfers of an asset.
    pub fn rgb_list_transfers(&self, asset_id: String) -> (r: WalletCall)
        ensures
            transfers_asked(asset_id, r),
    {
        WalletCall::ListTransfers { asset_id: Some(asset_id) }
    }

    /// Lists the outputs, unsettled ones too; the indexer is asked only for a sync.
    pub fn rgb_list_unspents(&self, skip_sync: bool) -> (r: WalletCall)
        ensures
            unspents_asked(skip_sync, r),
    {
        WalletCall::ListUnspents { skip_sync, online: !skip_sync, settled_only: false }
    }

    /// Hands a consignment to a proxy.
    pub fn rgb_post_consignment(
        &self,
        proxy_url: String,
        recipient_id: String,
        consignment_path: String,
        txid: String,
        vout: Option<u32>,
    ) -> (r: WalletCall)
        ensures
            r == (WalletCall::PostConsignment {
                proxy_url,
                recipient_id,
                consignment_path,
                txid,
                vout,
            }),
    {
        WalletCall::PostConsignment { proxy_url, recipient_id, consignment_path, txid, vout }
    }

    /// Refreshes the transfers of every asset, in every state.
    pub fn rgb_refresh(&self, skip_sync: bool) -> (r: WalletCall)
        ensures
            refresh_asked(skip_sync, r),
    {
        WalletCall::Refresh { skip_sync, asset_id: None, filter: Vec::new() }
    }

    /// Sends assets.
    pub fn rgb_send(
        &self,
        recipients: Vec<(String, Vec<Recipient>)>,
        donation: bool,
        fee_rate: u64,
        min_confirmations: u8,
        expiration_timestamp: Option<u64>,
        skip_sync: bool,
    ) -> (r: WalletCall)
        ensures
            r == (WalletCall::Send {
                recipients,
                donation,
                fee_rate,
                min_confirmations,
                expiration_timestamp,
                skip_sync,
            }),
    {
        WalletCall::Send {
            recipients,
            donation,
            fee_rate,
            min_confirmations,
            expiration_timestamp,
            skip_sync,
        }
    }

    /// Prepares the transaction that sends assets.
    pub fn rgb_send_begin(
        &self,
        recipients: Vec<(String, Vec<Recipient>)>,
        donation: bool,
        fee_rate: u64,
        min_confirmations: u8,
        expiration_timestamp: Option<u64>,
        dry_run: bool,
    ) -> (r: WalletCall)
        ensures
            r == (WalletCall::SendBegin {
                recipients,
                donation,
                fee_rate,
                min_confirmations,
                expiration_timestamp,
                dry_run,
            }),
    {
        WalletCall::SendBegin {
            recipients,
            donation,
            fee_rate,
            min_confirmations,
            expiration_timestamp,
            dry_run,
        }
    }

    /// Sends BTC.
    pub fn rgb_send_btc(
        &self,
        address: String,
        amount: u64,
        fee_rate: u64,
        skip_sync: bool,
    ) -> (r: WalletCall)
        ensures
            r == (WalletCall::SendBtc { address, amount, fee_rate, skip_sync }),
    {
        WalletCall::SendBtc { address, amount, fee_rate, skip_sync }
    }

    /// Prepares the transaction that sends BTC, after a sync.
    pub fn rgb_send_btc_begin(&self, address: String, amount: u64, fee_rate: u64) -> (r: WalletCall)
        ensures
            btc_begin_asked(address, amount, fee_rate, r),
    {
        WalletCall::SendBtcBegin { address, amount, fee_rate, skip_sync: false }
    }

    /// Broadcasts the transaction that sends BTC, and syncs.
    pub fn rgb_send_btc_end(&self, signed_psbt: String) -> (r: WalletCall)
        ensures
            btc_end_asked(signed_psbt, r),
    {
        WalletCall::SendBtcEnd { signed_psbt, skip_sync: false }
    }

    /// Broadcasts the transaction of a transfer, and syncs.
    pub fn rgb_send_end(&self, signed_psbt: String) -> (r: WalletCall)
        ensures
            send_end_asked(signed_psbt, r),
    {
        WalletCall::SendEnd { signed_psbt, skip_sync: false }
    }

    /// Syncs the wallet.
    pub fn rgb_sync(&self) -> (r: WalletCall)
        ensures
            r == WalletCall::Sync,
    {
        WalletCall::Sync
    }

    /// Asks for an address to receive on; without an amount any is accepted.
    pub fn rgb_witness_receive(
        &self,
        asset_id: Option<String>,
        amount: Option<u64>,
        expiration_timestamp: Option<u64>,
        transport_endpoints: Vec<String>,
        min_confirmations: u8,
    ) -> (r: WalletCall)
        ensures
            r == (WalletCall::WitnessReceive {
                asset_id,
                amount,
                expiration_timestamp,
                transport_endpoints,
                min_confirmations,
            }),
    {
        WalletCall::WitnessReceive {
            asset_id,
            amount,
            expiration_timestamp,
            transport_endpoints,
            min_confirmations,
        }
    }

}

// ---------------------------------------------------------------------------------------------
// Outputs for fee bumping
// ---------------------------------------------------------------------------------------------

/// What satisfying a P2WPKH input adds to a transaction's weight.
pub const P2WPKH_SATISFACTION_WEIGHT: u64 = 112;

/// What satisfying a P2TR input through its key adds to a transaction's weight: the empty signature
/// script, the number of witness items, and a Schnorr signature with its length.
pub const P2TR_SATISFACTION_WEIGHT: u64 = 4 + 1 + 1 + 64;

/// The witness version and program of an output script that is one: a version opcode and one push
/// of 2 to 40 bytes; of version 0 only 20 or 32 bytes have an address.
pub open spec fn witness_program(script: Seq<u8>) -> Option<(u8, Seq<u8>)> {
    if 4 <= script.len() <= 42 && script[1] == script.len() - 2 && (script[0] == 0 || 0x51
        <= script[0] <= 0x60) && (script[0] == 0 ==> script[1] == 20 || script[1] == 32) {
        Some((if script[0] == 0 { 0u8 } else { (script[0] - 0x50) as u8 }, script.skip(2)))
    } else {
        None
    }
}

/// `bitcoin::Address::from_script` and `witness_program`: the witness version and program of the
/// address that a script pays to, nothing for a script without an address or with one of another
/// form.
#[verifier::external_body]
fn address_program(script: &Vec<u8>, network: &str) -> (r: Option<(u8, Vec<u8>)>)
    requires
        network_known(network@),
    ensures
        r is Some <==> witness_program(script@) is Some,
        r matches Some(p) ==> witness_program(script@) == Some((p.0, p.1@)),
{
    let script = ScriptBuf::from_bytes(script.clone());
    let network = Network::from_str(network).ok()?;
    let program = Address::from_script(&script, network).ok()?.witness_program()?;
    Some((program.version().to_num(), program.program().as_bytes().to_vec()))
}

/// Whether 32 bytes are the x coordinate of a public key.
pub uninterp spec fn xonly_key(bytes: Seq<u8>) -> bool;

/// `bitcoin::key::XOnlyPublicKey::from_slice`: whether the bytes are the x coordinate of a point of
/// the curve, a function of the bytes.
#[verifier::external_body]
fn is_xonly_key(bytes: &Vec<u8>) -> (r: bool)
    ensures
        r == xonly_key(bytes@),
{
    XOnlyPublicKey::from_slice(bytes).is_ok()
}

/// Whether a text writes an outpoint: the transaction ID in hexadecimal, a colon, and the index in
/// decimal.
pub open spec fn writes_outpoint(outpoint: Seq<char>, txid: Seq<u8>, vout: u32) -> bool {
    &&& outpoint.len() > 65
    &&& fixed_hex(outpoint.take(64), 32)
    &&& txid == txid_bytes(outpoint.take(64))
    &&& outpoint.skip(64) == ":"@ + decimal(vout as nat)
}

/// Whether a text is an outpoint.
pub open spec fn is_outpoint(outpoint: Seq<char>) -> bool {
    exists|vout: u32| #[trigger]
        writes_outpoint(outpoint, txid_bytes(outpoint.take(64)), vout)
}

/// `bitcoin::OutPoint::from_str`: succeeds exactly on 64 hexadecimal digits in either case, a colon,
/// and an index in decimal without leading zeros or a sign; yields the transaction ID, its bytes in
/// reverse order, and the index.
#[verifier::external_body]
fn parse_outpoint(outpoint: &str) -> (r: Option<([u8; 32], u32)>)
    ensures
        r is Some <==> is_outpoint(outpoint@),
        r matches Some(o) ==> writes_outpoint(outpoint@, o.0@, o.1),
{
    let outpoint = OutPoint::from_str(outpoint).ok()?;
    Some((bitcoin::hashes::Hash::to_byte_array(outpoint.txid), outpoint.vout))
}

/// An output of the wallet, as the wallet lists it.
#[derive(Clone, Debug, PartialEq, Eq)]
pub struct WalletOutput {
    /// The transaction ID and the index, as the wallet writes them.
    pub outpoint: String,
    pub value_sat: u64,
    pub script: Vec<u8>,
}

/// An output that fee bumping can spend.
#[derive(Clone, Debug, PartialEq, Eq)]
pub struct ConfirmedUtxo {
    /// The transaction ID, in memory order.
    pub txid: [u8; 32],
    pub vout: u32,
    pub value_sat: u64,
    pub script: Vec<u8>,
    /// The weight of satisfying an input that spends it.
    pub satisfaction_weight: u64,
}

/// The weight of satisfying an input that spends a script, where fee bumping can spend it.
pub open spec fn satisfaction_weight(script: Seq<u8>) -> Option<u64> {
    match witness_program(script) {
        Some((version, program)) => if version == 0 && program.len() == 20 {
            Some(P2WPKH_SATISFACTION_WEIGHT)
        } else if version == 1 && program.len() == 32 && xonly_key(program) {
            Some(P2TR_SATISFACTION_WEIGHT)
        } else {
            None
        },
        None => None,
    }
}

/// The places of the outputs that fee bumping can spend, in order, each with its weight.
pub open spec fn spendable(outputs: Seq<WalletOutput>) -> Seq<(int, u64)>
    decreases outputs.len(),
{
    if outputs.len() == 0 {
        Seq::empty()
    } else {
        let before = spendable(outputs.drop_last());
        match satisfaction_weight(outputs.last().script@) {
            Some(weight) if is_outpoint(outputs.last().outpoint@) => before.push(
                (outputs.len() - 1, weight),
            ),
            _ => before,
        }
    }
}

fn weigh(script: &Vec<u8>, network: &str) -> (r: Option<u64>)
    requires
        network_known(network@),
    ensures
        r == satisfaction_weight(script@),
{
    match address_program(script, network) {
        Some((version, program)) => {
            if version == 0 && program.len() == 20 {
                Some(P2WPKH_SATISFACTION_WEIGHT)
            } else if version == 1 && program.len() == 32 && is_xonly_key(&program) {
                Some(P2TR_SATISFACTION_WEIGHT)
            } else {
                None
            }
        },
        None => None,
    }
}

/// Whether an output that can be spent is the one that the wallet lists.
pub open spec fn is_utxo(utxo: ConfirmedUtxo, output: WalletOutput, weight: u64) -> bool {
    &&& writes_outpoint(output.outpoint@, utxo.txid@, utxo.vout)
    &&& utxo.value_sat == output.value_sat
    &&& utxo.script@ == output.script@
    &&& utxo.satisfaction_weight == weight
}

/// Whether outputs are those of the wallet that fee bumping can spend, in order.
pub open spec fn are_spendable(list: Seq<ConfirmedUtxo>, outputs: Seq<WalletOutput>) -> bool {
    &&& list.len() == spendable(outputs).len()
    &&& forall|k: int|
        0 <= k < list.len() ==> is_utxo(
            #[trigger] list[k],
            outputs[spendable(outputs)[k].0],
            spendable(outputs)[k].1,
        )
}

proof fn lemma_places(outputs: Seq<WalletOutput>)
    ensures
        forall|k: int|
            0 <= k < spendable(outputs).len() ==> 0 <= (#[trigger] spendable(outputs)[k]).0
                < outputs.len(),
    decreases outputs.len(),
{
    if outputs.len() > 0 {
        let before = spendable(outputs.drop_last());
        lemma_places(outputs.drop_last());
        assert forall|k: int| 0 <= k < spendable(outputs).len() implies 0 <= (
        #[trigger] spendable(outputs)[k]).0 < outputs.len() by {
            if k < before.len() {
                assert(spendable(outputs)[k] == before[k]);
            }
        }
    }
}

/// The outputs that fee bumping can spend.
pub open spec fn are_confirmed_utxos(
    network: Seq<char>,
    unspents: Option<&Vec<WalletOutput>>,
    r: Option<
    Vec<ConfirmedUtxo>,
>,
) -> bool {
    &&& r is Some <==> network_known(network) && unspents is Some
    &&& r matches Some(list) ==> are_spendable(list@, unspents->0@)
}

/// The confirmed outputs that fee bumping can spend: P2WPKH ones, and P2TR ones with a valid key, each
/// with a valid outpoint. `unspents` is what the wallet lists, nothing where it failed.
pub fn list_confirmed_utxos(network: &str, unspents: Option<&Vec<WalletOutput>>) -> (r: Option<
    Vec<ConfirmedUtxo>,
>)
    ensures
        are_confirmed_utxos(network@, unspents, r),
{
    if check_network(network).is_err() {
        return None;
    }
    let outputs = match unspents {
        Some(outputs) => outputs,
        None => {
            return None;
        },
    };
    let mut list: Vec<ConfirmedUtxo> = Vec::new();
    let mut i: usize = 0;
    while i < outputs.len()
        invariant
            i <= outputs@.len(),
            network_known(network@),
            are_spendable(list@, outputs@.take(i as int)),
        decreases outputs@.len() - i,
    {
        let ghost before = list@;
        let ghost seen = outputs@.take(i as int);
        let ghost more = outputs@.take(i + 1);
        assert(more.drop_last() =~= seen);
        assert(more.last() == outputs@[i as int]);
        if let Some(weight) = weigh(&outputs[i].script, network) {
            if let Some((txid, vout)) = parse_outpoint(outputs[i].outpoint.as_str()) {
                list.push(
                    ConfirmedUtxo {
                        txid,
                        vout,
                        value_sat: outputs[i].value_sat,
                        script: vstd::slice::slice_to_vec(outputs[i].script.as_slice()),
                        satisfaction_weight: weight,
                    },
                );
            }
        }
        proof {
            lemma_places(seen);
            assert forall|k: int| 0 <= k < list@.len() implies is_utxo(
                #[trigger] list@[k],
                more[spendable(more)[k].0],
                spendable(more)[k].1,
            ) by {
                if k < before.len() {
                    assert(list@[k] == before[k]);
                    assert(spendable(more)[k] == spendable(seen)[k]);
                    assert(more[spendable(seen)[k].0] == seen[spendable(seen)[k].0]);
                }
            }
        }
        i = i + 1;
    }
    assert(outputs@.take(i as int) =~= outputs@);
    Some(list)
}

/// The script that an address pays to, if the text is an address.
pub uninterp spec fn address_script(address: Seq<char>) -> Option<Seq<u8>>;

/// `bitcoin::Address::from_str`, `assume_checked` and `script_pubkey`: the script of an address of any
/// network, nothing where the text is no address. It is a function of the text.
#[verifier::external_body]
fn script_of_address(address: &str) -> (r: Option<Vec<u8>>)
    ensures
        r is Some <==> address_script(address@) is Some,
        r matches Some(script) ==> script@ == address_script(address@)->0,
{
    Some(Address::from_str(address).ok()?.assume_checked().script_pubkey().into_bytes())
}

/// The script that change goes to.
pub open spec fn is_change_script(
    address: Result<String, RgbLibError>,
    r: Result<Vec<u8>, ()>,
) -> bool {
    &&& r is Ok <==> address is Ok && address_script(address->Ok_0@) is Some
    &&& r matches Ok(script) ==> script@ == address_script(address->Ok_0@)->0
}

/// The script that change goes to: that of the address that the wallet gives out. Fails where there is
/// none, or the wallet's text is no address.
pub fn get_change_script(address: Result<String, RgbLibError>) -> (r: Result<Vec<u8>, ()>)
    ensures
        is_change_script(address, r),
{
    match address {
        Ok(address) => match script_of_address(address.as_str()) {
            Some(script) => Ok(script),
            None => Err(()),
        },
        Err(_) => Err(()),
    }
}

/// The wallet asks the indexer exactly where it is to sync, and unsettled outputs are listed too.
pub proof fn law_the_indexer_is_asked_only_for_a_sync(
    skip_sync: bool,
    balance: WalletCall,
    transactions: WalletCall,
    unspents: WalletCall,
)
    requires
        btc_balance_asked(skip_sync, balance),
        transactions_asked(skip_sync, transactions),
        unspents_asked(skip_sync, unspents),
    ensures
        balance matches WalletCall::GetBtcBalance { skip_sync: s, online } && s == skip_sync && online
            != skip_sync,
        transactions matches WalletCall::ListTransactions { skip_sync: s, online } && s == skip_sync
            && online != skip_sync,
        unspents matches WalletCall::ListUnspents { skip_sync: s, online, settled_only } && s
            == skip_sync && online != skip_sync && !settled_only,
{
}

/// Whatever is broadcast is synced after, and what is signed is what was handed in.
pub proof fn law_broadcasts_are_synced(
    signed_psbt: String,
    address: String,
    amount: u64,
    fee_rate: u64,
    begin: WalletCall,
    end: WalletCall,
    send_end: WalletCall,
)
    requires
        btc_begin_asked(address, amount, fee_rate, begin),
        btc_end_asked(signed_psbt, end),
        send_end_asked(signed_psbt, send_end),
    ensures
        begin matches WalletCall::SendBtcBegin { address: a, amount: n, fee_rate: f, skip_sync } && a
            == address && n == amount && f == fee_rate && !skip_sync,
        end matches WalletCall::SendBtcEnd { signed_psbt: p, skip_sync } && p == signed_psbt
            && !skip_sync,
        send_end matches WalletCall::SendEnd { signed_psbt: p, skip_sync } && p == signed_psbt
            && !skip_sync,
{
}

/// A refresh is of every asset in every state, and transfers are listed of the asset that was asked for.
pub proof fn law_refreshes_leave_nothing_out(
    skip_sync: bool,
    refresh: WalletCall,
    asset_id: String,
    transfers: WalletCall,
)
    requires
        refresh_asked(skip_sync, refresh),
        transfers_asked(asset_id, transfers),
    ensures
        refresh matches WalletCall::Refresh { skip_sync: s, asset_id: a, filter } && s == skip_sync
            && a is None && filter@.len() == 0,
        transfers matches WalletCall::ListTransfers { asset_id: a } && a == Some(asset_id),
{
}

/// Outputs are created in the number and of the size that was asked for, at once or in two steps alike.
pub proof fn law_outputs_are_created_as_asked(
    up_to: bool,
    num: u8,
    size: u32,
    fee_rate: u64,
    skip_sync: bool,
    at_once: WalletCall,
    begun: WalletCall,
)
    requires
        utxos_asked(up_to, num, size, fee_rate, skip_sync, at_once),
        utxos_begin_asked(up_to, num, size, fee_rate, skip_sync, begun),
    ensures
        at_once matches WalletCall::CreateUtxos { up_to: u, num: n, size: s, fee_rate: f, skip_sync: k }
            && u == up_to && n == Some(num) && s == Some(size) && f == fee_rate && k == skip_sync,
        begun matches WalletCall::CreateUtxosBegin {
            up_to: u,
            num: n,
            size: s,
            fee_rate: f,
            skip_sync: k,
        } && u == up_to && n == Some(num) && s == Some(size) && f == fee_rate && k == skip_sync,
{
}

/// A witness program is a script of a version and one push of it, that has an address.
pub proof fn law_witness_programs_are_single_pushes(script: Seq<u8>)
    ensures
        witness_program(script) matches Some(p) ==> {
            &&& p.1.len() + 2 == script.len() && p.1.len() == script[1]
            &&& 2 <= p.1.len() <= 40
            &&& p.0 <= 16
            &&& p.0 == 0 ==> script[0] == 0 && (p.1.len() == 20 || p.1.len() == 32)
            &&& p.0 > 0 ==> script[0] == 0x50 + p.0
            &&& forall|k: int| 0 <= k < p.1.len() ==> #[trigger] p.1[k] == script[k + 2]
        },
{
}

/// Fee bumping spends a P2WPKH output, at 112 weight units, and a P2TR output with a valid key, at 70, and
/// nothing else.
pub proof fn law_only_single_key_outputs_are_spent(script: Seq<u8>)
    ensures
        script.len() == 22 && script[0] == 0 && script[1] == 20 ==> satisfaction_weight(script)
            == Some(112u64),
        script.len() == 34 && script[0] == 0x51 && script[1] == 32 && xonly_key(script.skip(2))
            ==> satisfaction_weight(script) == Some(70u64),
        satisfaction_weight(script) is Some ==> (script.len() == 22 && script[0] == 0 && script[1]
            == 20) || (script.len() == 34 && script[0] == 0x51 && script[1] == 32 && xonly_key(
            script.skip(2),
        )),
{
}

proof fn lemma_spendable(outputs: Seq<WalletOutput>, i: int)
    ensures
        forall|k: int|
            0 <= k < spendable(outputs).len() ==> {
                let p = #[trigger] spendable(outputs)[k];
                &&& 0 <= p.0 < outputs.len()
                &&& satisfaction_weight(outputs[p.0].script@) == Some(p.1)
                &&& is_outpoint(outputs[p.0].outpoint@)
            },
        0 <= i < outputs.len() && satisfaction_weight(outputs[i].script@) is Some && is_outpoint(
            outputs[i].outpoint@,
        ) ==> exists|k: int|
            0 <= k < spendable(outputs).len() && (#[trigger] spendable(outputs)[k]).0 == i,
        forall|a: int, b: int|
            0 <= a < b < spendable(outputs).len() ==> (#[trigger] spendable(outputs)[a]).0 < (
            #[trigger] spendable(outputs)[b]).0,
    decreases outputs.len(),
{
    if outputs.len() > 0 {
        let rest = outputs.drop_last();
        lemma_spendable(rest, i);
        assert forall|k: int| 0 <= k < spendable(outputs).len() implies ({
            let p = #[trigger] spendable(outputs)[k];
            &&& 0 <= p.0 < outputs.len()
            &&& satisfaction_weight(outputs[p.0].script@) == Some(p.1)
            &&& is_outpoint(outputs[p.0].outpoint@)
        }) by {
            if k < spendable(rest).len() {
                assert(spendable(outputs)[k] == spendable(rest)[k]);
                assert(rest[spendable(rest)[k].0] == outputs[spendable(rest)[k].0]);
            }
        }
        assert forall|a: int, b: int| 0 <= a < b < spendable(outputs).len() implies (
        #[trigger] spendable(outputs)[a]).0 < (#[trigger] spendable(outputs)[b]).0 by {
            assert(spendable(outputs)[a] == spendable(rest)[a]);
            if b < spendable(rest).len() {
                assert(spendable(outputs)[b] == spendable(rest)[b]);
            }
        }
        if 0 <= i < outputs.len() && satisfaction_weight(outputs[i].script@) is Some && is_outpoint(
            outputs[i].outpoint@,
        ) {
            if i < rest.len() {
                assert(rest[i] == outputs[i]);
                let k = choose|k: int|
                    0 <= k < spendable(rest).len() && (#[trigger] spendable(rest)[k]).0 == i;
                assert(spendable(outputs)[k] == spendable(rest)[k]);
            } else {
                assert(spendable(outputs)[spendable(rest).len() as int].0 == i);
            }
        }
    }
}

/// Fee bumping gets every output of the wallet that it can spend, once, with its own value and script,
/// and none that it cannot.
pub proof fn law_every_spendable_output_is_offered(
    network: Seq<char>,
    outputs: Vec<WalletOutput>,
    list: Vec<ConfirmedUtxo>,
    i: int,
    k: int,
)
    requires
        are_confirmed_utxos(network, Some(&outputs), Some(list)),
    ensures
        0 <= i < outputs@.len() && satisfaction_weight(outputs@[i].script@) is Some && is_outpoint(
            outputs@[i].outpoint@,
        ) ==> exists|n: int|
            0 <= n < list@.len() && (#[trigger] list@[n]).value_sat == outputs@[i].value_sat
                && list@[n].script@ == outputs@[i].script@,
        0 <= k < list@.len() ==> exists|n: int|
            0 <= n < outputs@.len() && list@[k].value_sat == (#[trigger] outputs@[n]).value_sat
                && list@[k].script@ == outputs@[n].script@ && writes_outpoint(
                outputs@[n].outpoint@,
                list@[k].txid@,
                list@[k].vout,
            ) && satisfaction_weight(outputs@[n].script@) == Some(list@[k].satisfaction_weight),
        list@.len() <= outputs@.len(),
{
    lemma_spendable(outputs@, i);
    lemma_spendable_count(outputs@);
    if 0 <= i < outputs@.len() && satisfaction_weight(outputs@[i].script@) is Some && is_outpoint(
        outputs@[i].outpoint@,
    ) {
        let n = choose|n: int|
            0 <= n < spendable(outputs@).len() && (#[trigger] spendable(outputs@)[n]).0 == i;
        assert(is_utxo(list@[n], outputs@[spendable(outputs@)[n].0], spendable(outputs@)[n].1));
    }
    if 0 <= k < list@.len() {
        let n = spendable(outputs@)[k].0;
        assert(is_utxo(list@[k], outputs@[n], spendable(outputs@)[k].1));
        assert(outputs@[n].value_sat == list@[k].value_sat);
    }
}

proof fn lemma_spendable_count(outputs: Seq<WalletOutput>)
    ensures
        spendable(outputs).len() <= outputs.len(),
    decreases outputs.len(),
{
    if outputs.len() > 0 {
        lemma_spendable_count(outputs.drop_last());
    }
}

/// Change goes to the address that the wallet gives out, and nowhere without one.
pub proof fn law_change_goes_to_the_wallet(
    address: Result<String, RgbLibError>,
    r: Result<Vec<u8>, ()>,
)
    requires
        is_change_script(address, r),
    ensures
        address is Err ==> r is Err,
        r is Ok ==> address is Ok && address_script(address->Ok_0@) == Some(r->Ok_0@),
        address is Ok && address_script(address->Ok_0@) is Some ==> r is Ok,
{
}

/// Outputs are offered exactly where the network is known and the wallet could list them: each with its
/// own value and script, and no more than the wallet has.
pub proof fn law_offered_outputs_are_the_wallets(
    network: Seq<char>,
    unspents: Option<&Vec<WalletOutput>>,
    r: Option<Vec<ConfirmedUtxo>>,
    k: int,
)
    requires
        are_confirmed_utxos(network, unspents, r),
    ensures
        r is Some <==> network_known(network) && unspents is Some,
        r matches Some(list) ==> list@.len() == spendable(unspents->0@).len(),
        r matches Some(list) ==> 0 <= k < list@.len() ==> {
            let i = spendable(unspents->0@)[k].0;
            &&& 0 <= i < unspents->0@.len()
            &&& list@[k].value_sat == unspents->0@[i].value_sat
            &&& list@[k].script@ == unspents->0@[i].script@
            &&& writes_outpoint(unspents->0@[i].outpoint@, list@[k].txid@, list@[k].vout)
        },
{
    if r is Some {
        lemma_places(unspents->0@);
    }
}

} // verus!
