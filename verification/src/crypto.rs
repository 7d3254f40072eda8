//! Hashes, keys and identifiers that the Bitcoin and Lightning libraries compute.

use std::str::FromStr;

use bitcoin::Txid;
use lightning::ln::types::ChannelId;
use vstd::prelude::*;

use crate::text::{fixed_hex, hex, hex_str};

verus! {

/// The value of a hexadecimal digit.
pub open spec fn hex_value(c: char) -> int {
    if '0' <= c <= '9' {
        c as int - '0' as int
    } else if 'a' <= c <= 'f' {
        c as int - 'a' as int + 10
    } else {
        c as int - 'A' as int + 10
    }
}

/// The bytes of a transaction ID in memory order, the reverse of how it is written.
pub open spec fn txid_bytes(s: Seq<char>) -> Seq<u8> {
    Seq::new(
        32,
        |i: int| (16 * hex_value(s[2 * (31 - i)]) + hex_value(s[2 * (31 - i) + 1])) as u8,
    )
}

/// What the Bitcoin library says of a text that is no transaction ID.
pub uninterp spec fn txid_parse_error(s: Seq<char>) -> Seq<char>;

/// `bitcoin::Txid::from_str`: succeeds exactly on 64 hexadecimal digits in either case, and yields
/// the bytes in reverse order; otherwise the error's text is a function of the input.
#[verifier::external_body]
pub(crate) fn parse_txid(s: &str) -> (r: Result<[u8; 32], String>)
    ensures
        r is Ok <==> fixed_hex(s@, 32),
        r matches Ok(bytes) ==> bytes@ == txid_bytes(s@),
        r matches Err(e) ==> e@ == txid_parse_error(s@),
{
    Txid::from_str(s).map(|txid| bitcoin::hashes::Hash::to_byte_array(txid)).map_err(|e| e.to_string())
}

/// The channel ID of a funding output: the transaction ID with the output index folded into its
/// last two bytes.
pub open spec fn funding_channel_id(txid: Seq<u8>, output_index: u16) -> Seq<u8> {
    txid.update(30, txid[30] ^ ((output_index >> 8) & 0xff) as u8).update(
        31,
        txid[31] ^ (output_index & 0xff) as u8,
    )
}

/// `lightning::ln::types::ChannelId::v1_from_funding_txid`: copies the transaction ID and xors the
/// output index into the last two bytes, high byte first.
#[verifier::external_body]
pub(crate) fn channel_id_from_funding_txid(txid: &[u8; 32], output_index: u16) -> (r: [u8; 32])
    ensures
        r@ == funding_channel_id(txid@, output_index),
{
    ChannelId::v1_from_funding_txid(txid, output_index).0
}

/// The final channel ID, in hexadecimal, of a channel funded by the given output.
pub fn final_channel_id(funding_txid: &str, output_index: u16) -> (r: Result<String, String>)
    ensures
        r is Ok <==> fixed_hex(funding_txid@, 32),
        r matches Ok(id) ==> id@ == hex(funding_channel_id(txid_bytes(funding_txid@), output_index)),
        r matches Err(e) ==> e@ == txid_parse_error(funding_txid@),
{
    match parse_txid(funding_txid) {
        Ok(txid) => {
            let id = channel_id_from_funding_txid(&txid, output_index);
            Ok(hex_str(id.as_slice()))
        },
        Err(e) => Err(e),
    }
}

/// The SHA-256 digest of bytes.
pub uninterp spec fn sha256(data: Seq<u8>) -> Seq<u8>;

/// `bitcoin::hashes::sha256::Hash::hash`: the digest, a function of the bytes.
#[verifier::external_body]
pub(crate) fn sha256_of(data: &[u8]) -> (r: [u8; 32])
    ensures
        r@ == sha256(data@),
{
    bitcoin::hashes::Hash::to_byte_array(<bitcoin::hashes::sha256::Hash as bitcoin::hashes::Hash>::hash(data))
}

/// The bytes that hexadecimal digits stand for, two digits a byte.
pub open spec fn hex_bytes(s: Seq<char>) -> Seq<u8> {
    Seq::new(
        s.len() / 2,
        |i: int| (16 * hex_value(s[2 * i]) + hex_value(s[2 * i + 1])) as u8,
    )
}

/// `bitcoin::hashes::sha256::Hash::from_str`: succeeds exactly on 64 hexadecimal digits in either
/// case, and yields their bytes in order.
#[verifier::external_body]
pub(crate) fn parse_sha256(s: &str) -> (r: Option<[u8; 32]>)
    ensures
        r is Some <==> fixed_hex(s@, 32),
        r matches Some(bytes) ==> bytes@ == hex_bytes(s@),
{
    bitcoin::hashes::sha256::Hash::from_str(s).ok().map(bitcoin::hashes::Hash::to_byte_array)
}

/// The compressed public key of a secret key; what the curve library says where there is none.
pub uninterp spec fn secp_public_key(secret: Seq<u8>) -> Result<Seq<u8>, Seq<char>>;

/// `bitcoin::secp256k1::SecretKey::from_slice`, `public_key` and `serialize`: the 33 bytes of the
/// compressed public key, or the text of the error where the bytes are no secret key. Which it is,
/// and what it holds, is a function of the bytes.
#[verifier::external_body]
pub(crate) fn public_key(secret: &[u8; 32]) -> (r: Result<[u8; 33], String>)
    ensures
        match r {
            Ok(key) => secp_public_key(secret@) is Ok && key@ == secp_public_key(secret@)->Ok_0,
            Err(e) => secp_public_key(secret@) is Err && e@ == secp_public_key(secret@)->Err_0,
        },
{
    bitcoin::secp256k1::SecretKey::from_slice(secret)
        .map(|key| key.public_key(&bitcoin::secp256k1::Secp256k1::new()).serialize())
        .map_err(|e| e.to_string())
}

/// The secret key under a path of hardened steps from the master key of a seed; the outer error is
/// that of the master key, the inner one that of the path.
pub uninterp spec fn hardened_secret(seed: Seq<u8>, path: Seq<u32>) -> Result<
    Result<Seq<u8>, Seq<char>>,
    Seq<char>,
>;

/// `bitcoin::bip32::Xpriv::new_master` and `derive_priv`: the secret key under a path of hardened
/// steps, or the text of the error of either call. It is a function of the seed and the path; the
/// network, which is only kept beside the key, has no part in it.
#[verifier::external_body]
pub(crate) fn hardened_child(seed: &[u8], path: &[u32]) -> (r: Result<Result<[u8; 32], String>, String>)
    ensures
        match r {
            Ok(Ok(key)) => hardened_secret(seed@, path@) is Ok && hardened_secret(seed@, path@)->Ok_0 is Ok
                && key@ == hardened_secret(seed@, path@)->Ok_0->Ok_0,
            Ok(Err(e)) => hardened_secret(seed@, path@) is Ok && hardened_secret(seed@, path@)->Ok_0 is Err
                && e@ == hardened_secret(seed@, path@)->Ok_0->Err_0,
            Err(e) => hardened_secret(seed@, path@) is Err && e@ == hardened_secret(seed@, path@)->Err_0,
        },
{
    let steps: Vec<bitcoin::bip32::ChildNumber> =
        path.iter().map(|index| bitcoin::bip32::ChildNumber::Hardened { index: *index }).collect();
    let master = bitcoin::bip32::Xpriv::new_master(bitcoin::NetworkKind::Main, seed).map_err(|e| e.to_string())?;
    Ok(master.derive_priv(&bitcoin::secp256k1::Secp256k1::new(), &steps)
        .map(|child| child.private_key.secret_bytes())
        .map_err(|e| e.to_string()))
}

/// Hexadecimal digits of bytes stand for these bytes, in order.
pub proof fn law_hexadecimal_stands_for_its_bytes(bytes: Seq<u8>)
    ensures
        hex_bytes(hex(bytes)) == bytes,
{
    assert forall|i: int| 0 <= i < bytes.len() implies #[trigger] hex_bytes(hex(bytes))[i]
        == bytes[i] by {
        assert((2 * i) / 2 == i && (2 * i) % 2 == 0);
        assert((2 * i + 1) / 2 == i && (2 * i + 1) % 2 == 1);
        let hi = bytes[i] / 16;
        let lo = bytes[i] % 16;
        assert(hex_value(crate::text::digit_char(hi as nat)) == hi);
        assert(hex_value(crate::text::digit_char(lo as nat)) == lo);
        assert(16 * hi + lo == bytes[i]);
    }
}

/// A transaction ID is written with its last byte first.
pub proof fn law_transaction_ids_are_written_backwards(s: Seq<char>, i: int)
    requires
        s.len() == 64,
        0 <= i < 32,
    ensures
        txid_bytes(s).len() == 32,
        txid_bytes(s)[i] == hex_bytes(s)[31 - i],
{
}

/// A channel's ID is its funding transaction's, but for the last two bytes, and different outputs of one
/// transaction fund channels of different IDs.
pub proof fn law_outputs_fund_different_channels(txid: Seq<u8>, a: u16, b: u16)
    requires
        txid.len() == 32,
    ensures
        funding_channel_id(txid, a).len() == 32,
        forall|i: int| 0 <= i < 30 ==> #[trigger] funding_channel_id(txid, a)[i] == txid[i],
        funding_channel_id(txid, 0) == txid,
        funding_channel_id(txid, a) == funding_channel_id(txid, b) ==> a == b,
{
    let x = txid[30];
    let y = txid[31];
    assert(x ^ ((0u16 >> 8) & 0xff) as u8 == x) by (bit_vector);
    assert(y ^ (0u16 & 0xff) as u8 == y) by (bit_vector);
    if funding_channel_id(txid, a) == funding_channel_id(txid, b) {
        assert(funding_channel_id(txid, a)[30] == funding_channel_id(txid, b)[30]);
        assert(funding_channel_id(txid, a)[31] == funding_channel_id(txid, b)[31]);
        assert(a == b) by (bit_vector)
            requires
                x ^ ((a >> 8) & 0xff) as u8 == x ^ ((b >> 8) & 0xff) as u8,
                y ^ (a & 0xff) as u8 == y ^ (b & 0xff) as u8,
        ;
    }
}

} // verus!
