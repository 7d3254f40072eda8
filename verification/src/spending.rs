//! The transactions that sweeps of colored outputs ended in.

use std::collections::HashMap;

use bitcoin::consensus::encode::{deserialize, serialize};
use bitcoin::Transaction;
use lightning::util::hash_tables::HashMap as LdkHashMap;
use lightning::util::ser::{Readable, Writeable};
use vstd::prelude::*;

verus! {

/// The key that the table is stored under, in no namespace.
pub const OUTPUT_SPENDER_TXES_KEY: &'static str = "output_spender_txes";

/// The length in bytes up to which a stored transaction is read back.
pub const MAX_STORED_TX_LEN: usize = 4_000_000;

// ---------------------------------------------------------------------------------------------
// The stored form
// ---------------------------------------------------------------------------------------------

/// The bytes of the transactions by the hash of the outputs that they spend.
pub open spec fn plain(txes: Map<u64, Vec<u8>>) -> Map<u64, Seq<u8>> {
    txes.map_values(|tx: Vec<u8>| tx@)
}

/// The transactions that a stored table is read as, if it can be read.
pub uninterp spec fn txes_decoded(bytes: Seq<u8>) -> Option<Map<u64, Seq<u8>>>;

/// Whether bytes are the consensus encoding of a transaction, with nothing after it.
pub uninterp spec fn is_transaction(bytes: Seq<u8>) -> bool;

/// The ID of the transaction that bytes encode.
pub uninterp spec fn transaction_id(bytes: Seq<u8>) -> Seq<char>;

/// `bitcoin::consensus::encode::deserialize` and `bitcoin::Transaction::compute_txid`: the ID of a
/// transaction in hexadecimal, a function of its bytes; nothing exactly where the bytes are no
/// transaction.
#[verifier::external_body]
pub(crate) fn txid_of(bytes: &Vec<u8>) -> (r: Option<String>)
    ensures
        r is Some <==> is_transaction(bytes@),
        r matches Some(txid) ==> txid@ == transaction_id(bytes@),
{
    let tx: Transaction = deserialize(bytes).ok()?;
    Some(tx.compute_txid().to_string())
}

/// `lightning::util::ser::Readable::read` for a map of `u64` to `bitcoin::Transaction`, each
/// transaction in its consensus encoding: a function of the bytes.
#[verifier::external_body]
fn decode_txes(bytes: &Vec<u8>) -> (r: Option<HashMap<u64, Vec<u8>>>)
    ensures
        match r {
            Some(txes) => txes_decoded(bytes@) == Some(plain(txes@)),
            None => txes_decoded(bytes@) is None,
        },
{
    let txes = LdkHashMap::<u64, Transaction>::read(&mut bytes.as_slice()).ok()?;
    Some(txes.iter().map(|(hash, tx)| (*hash, serialize(tx))).collect())
}

/// `lightning::util::ser::Writeable::encode` for a map of `u64` to `bitcoin::Transaction`, each read
/// by `bitcoin::consensus::encode::deserialize`: succeeds exactly where all of them are transactions.
/// Reading gives the map back where no transaction is longer than the 4,000,000 bytes that
/// `bitcoin::consensus::encode::Decodable::consensus_decode` reads. The order in which the bytes hold
/// the transactions is left open.
#[verifier::external_body]
fn encode_txes(txes: &HashMap<u64, Vec<u8>>) -> (r: Option<Vec<u8>>)
    ensures
        r is Some <==> (forall|hash: u64| #[trigger]
            txes@.dom().contains(hash) ==> is_transaction(txes@[hash]@)),
        r matches Some(bytes) ==> (forall|hash: u64| #[trigger]
            txes@.dom().contains(hash) ==> txes@[hash]@.len() <= MAX_STORED_TX_LEN)
            ==> txes_decoded(bytes@) == Some(plain(txes@)),
{
    let txes: Option<LdkHashMap<u64, Transaction>> =
        txes.iter().map(|(hash, tx)| Some((*hash, deserialize(tx).ok()?))).collect();
    Some(txes?.encode())
}

// ---------------------------------------------------------------------------------------------
// The table
// ---------------------------------------------------------------------------------------------

/// The transactions that were handed out for colored outputs, by the hash of the outputs. Plain
/// spends are not kept.
#[derive(Debug)]
pub struct SpendingTxes {
    pub txes: HashMap<u64, Vec<u8>>,
}

impl View for SpendingTxes {
    type V = Map<u64, Seq<u8>>;

    open spec fn view(&self) -> Map<u64, Seq<u8>> {
        plain(self.txes@)
    }
}

/// The table that a start begins with: an unreadable one counts as empty, as a missing one does.
pub open spec fn loaded(stored: Option<Seq<u8>>) -> Map<u64, Seq<u8>> {
    match stored {
        Some(bytes) => match txes_decoded(bytes) {
            Some(txes) => txes,
            None => Map::empty(),
        },
        None => Map::empty(),
    }
}

/// The table after a transaction was to be added to it: as before where it could not be written.
pub open spec fn after_write(
    txes: Map<u64, Seq<u8>>,
    descriptors: u64,
    tx: Seq<u8>,
    written: Result<(), String>,
) -> Map<u64, Seq<u8>> {
    match written {
        Ok(_) => txes.insert(descriptors, tx),
        Err(_) => txes,
    }
}

/// Whether a table can be written.
pub open spec fn are_transactions(txes: Map<u64, Seq<u8>>) -> bool {
    forall|hash: u64| #[trigger] txes.dom().contains(hash) ==> is_transaction(txes[hash])
}

/// Whether a table that was written can be read back.
pub open spec fn are_short(txes: Map<u64, Seq<u8>>) -> bool {
    forall|hash: u64| #[trigger]
        txes.dom().contains(hash) ==> txes[hash].len() <= MAX_STORED_TX_LEN
}

impl SpendingTxes {
    /// The table of a start, from what was stored.
    pub fn load(stored: Option<Vec<u8>>) -> (r: Self)
        ensures
            r@ == loaded(
                match stored {
                    Some(bytes) => Some(bytes@),
                    None => None,
                },
            ),
    {
        let decoded = match stored {
            Some(bytes) => decode_txes(&bytes),
            None => None,
        };
        match decoded {
            Some(txes) => SpendingTxes { txes },
            None => {
                let txes: HashMap<u64, Vec<u8>> = HashMap::new();
                assert(plain(txes@) =~= Map::<u64, Seq<u8>>::empty());
                SpendingTxes { txes }
            },
        }
    }

    /// The transaction of outputs, if they were swept.
    pub fn get(&self, descriptors: u64) -> (r: Option<Vec<u8>>)
        ensures
            r is Some <==> self@.dom().contains(descriptors),
            r matches Some(tx) ==> tx@ == self@[descriptors],
    {
        broadcast use vstd::std_specs::hash::group_hash_axioms;

        match self.txes.get(&descriptors) {
            Some(tx) => {
                let copied = tx.clone();
                assert(copied@ =~= tx@);
                Some(copied)
            },
            None => None,
        }
    }

    /// What is written to the store before a transaction is handed out: the whole table, with the
    /// transaction in it. `None` where it holds what is no transaction.
    pub fn proposed(&self, descriptors: u64, tx: &Vec<u8>) -> (r: Option<Vec<u8>>)
        ensures
            r is Some <==> are_transactions(self@.insert(descriptors, tx@)),
            r matches Some(bytes) ==> are_short(self@.insert(descriptors, tx@)) ==> loaded(
                Some(bytes@),
            ) == self@.insert(descriptors, tx@),
    {
        broadcast use vstd::std_specs::hash::group_hash_axioms;

        let mut next = self.txes.clone();
        let copied = tx.clone();
        assert(copied@ =~= tx@);
        next.insert(descriptors, copied);
        proof {
            let model = self@.insert(descriptors, tx@);
            assert(plain(next@) =~= model);
            assert forall|hash: u64| next@.dom().contains(hash) implies next@[hash]@
                == model[hash] by {
                assert(plain(next@).dom().contains(hash));
            }
            assert(forall|hash: u64| #[trigger]
                next@.dom().contains(hash) <==> model.dom().contains(hash));
        }
        encode_txes(&next)
    }

    /// Takes a transaction over once it was written; one that could not be written leaves no entry.
    pub fn persisted(&mut self, descriptors: u64, tx: Vec<u8>, written: Result<(), String>)
        ensures
            final(self)@ == after_write(old(self)@, descriptors, tx@, written),
    {
        broadcast use vstd::std_specs::hash::group_hash_axioms;

        if written.is_ok() {
            self.txes.insert(descriptors, tx);
            assert(self@ =~= old(self)@.insert(descriptors, tx@));
        }
    }
}

/// A transaction is kept exactly where it was written, and no other entry changes; what was written is
/// what outputs are answered with from then on.
pub proof fn law_written_spends_are_kept(
    txes: Map<u64, Seq<u8>>,
    descriptors: u64,
    tx: Seq<u8>,
    written: Result<(), String>,
    other: u64,
)
    ensures
        written is Ok ==> after_write(txes, descriptors, tx, written).dom().contains(descriptors)
            && after_write(txes, descriptors, tx, written)[descriptors] == tx,
        written is Err ==> after_write(txes, descriptors, tx, written) == txes,
        other != descriptors ==> after_write(txes, descriptors, tx, written).dom().contains(other)
            == txes.dom().contains(other) && after_write(txes, descriptors, tx, written)[other]
            == txes[other],
{
}

/// A start has what was stored where it can be read, and nothing else.
pub proof fn law_stored_spends_are_loaded(stored: Option<Seq<u8>>, hash: u64)
    ensures
        loaded(stored).dom().contains(hash) ==> stored is Some && txes_decoded(stored->0) is Some
            && txes_decoded(stored->0)->0.dom().contains(hash),
        stored is Some && txes_decoded(stored->0) is Some ==> loaded(stored) == txes_decoded(
            stored->0,
        )->0,
{
}

} // verus!
