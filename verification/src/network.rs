//! The Bitcoin networks.

use bitcoin_bech32::{constants, WitnessProgram};
use vstd::prelude::*;
use vstd::string::*;

use crate::wallet::witness_program;

verus! {

/// A Bitcoin network, as the RGB wallet tells them apart.
#[derive(Clone, Copy, Debug, PartialEq, Eq, Structural)]
pub enum BitcoinNetwork {
    Mainnet,
    Testnet,
    Testnet4,
    Regtest,
    Signet,
    SignetCustom,
}

/// A Bitcoin network, as far as addresses tell them apart.
#[derive(Clone, Copy, Debug, PartialEq, Eq, Structural)]
pub enum AddressNetwork {
    Bitcoin,
    Testnet,
    Regtest,
    Signet,
}

impl BitcoinNetwork {
    /// How addresses of the network are marked.
    pub open spec fn addresses(self) -> AddressNetwork {
        match self {
            BitcoinNetwork::Mainnet => AddressNetwork::Bitcoin,
            BitcoinNetwork::Testnet | BitcoinNetwork::Testnet4 => AddressNetwork::Testnet,
            BitcoinNetwork::Regtest => AddressNetwork::Regtest,
            BitcoinNetwork::Signet | BitcoinNetwork::SignetCustom => AddressNetwork::Signet,
        }
    }

    fn address_network(self) -> (r: AddressNetwork)
        ensures
            r == self.addresses(),
    {
        match self {
            BitcoinNetwork::Mainnet => AddressNetwork::Bitcoin,
            BitcoinNetwork::Testnet | BitcoinNetwork::Testnet4 => AddressNetwork::Testnet,
            BitcoinNetwork::Regtest => AddressNetwork::Regtest,
            BitcoinNetwork::Signet | BitcoinNetwork::SignetCustom => AddressNetwork::Signet,
        }
    }

    /// What the network is called in hashed data.
    pub open spec fn name(self) -> Seq<char> {
        match self {
            BitcoinNetwork::Mainnet => "mainnet"@,
            BitcoinNetwork::Testnet => "testnet"@,
            BitcoinNetwork::Testnet4 => "testnet4"@,
            BitcoinNetwork::Regtest => "regtest"@,
            BitcoinNetwork::Signet | BitcoinNetwork::SignetCustom => "signet"@,
        }
    }

    /// What the network is called in hashed data.
    pub fn tag(self) -> (r: &'static str)
        ensures
            r@ == self.name(),
    {
        match self {
            BitcoinNetwork::Mainnet => "mainnet",
            BitcoinNetwork::Testnet => "testnet",
            BitcoinNetwork::Testnet4 => "testnet4",
            BitcoinNetwork::Regtest => "regtest",
            BitcoinNetwork::Signet | BitcoinNetwork::SignetCustom => "signet",
        }
    }
}

/// The address of an output script.
pub uninterp spec fn segwit_address(script: Seq<u8>, network: AddressNetwork) -> Seq<char>;

/// `bitcoin_bech32::WitnessProgram::from_scriptpubkey` and `to_address`: the address of a witness
/// program, a function of the script and the network. On other scripts the call fails, or panics on
/// a version out of range.
#[verifier::external_body]
fn encode_address(script: &Vec<u8>, network: AddressNetwork) -> (r: String)
    requires
        witness_program(script@) is Some,
    ensures
        r@ == segwit_address(script@, network),
{
    let network = match network {
        AddressNetwork::Bitcoin => constants::Network::Bitcoin,
        AddressNetwork::Testnet => constants::Network::Testnet,
        AddressNetwork::Regtest => constants::Network::Regtest,
        AddressNetwork::Signet => constants::Network::Signet,
    };
    WitnessProgram::from_scriptpubkey(script, network).unwrap().to_address()
}

/// The address that a channel's funding output pays to.
pub fn funding_address(script: &Vec<u8>, network: BitcoinNetwork) -> (r: String)
    requires
        witness_program(script@) is Some,
    ensures
        r@ == segwit_address(script@, network.addresses()),
{
    encode_address(script, network.address_network())
}

/// Networks share the mark of their addresses only within the two testnets and the two signets, and
/// their name only within the signets: what is meant for one is never taken for another.
pub proof fn law_networks_are_told_apart(a: BitcoinNetwork, b: BitcoinNetwork)
    requires
        a != b,
    ensures
        a.addresses() == b.addresses() <==> {
            ||| (a is Testnet && b is Testnet4) || (a is Testnet4 && b is Testnet)
            ||| (a is Signet && b is SignetCustom) || (a is SignetCustom && b is Signet)
        },
        a.name() == b.name() <==> (a is Signet && b is SignetCustom) || (a is SignetCustom
            && b is Signet),
{
    reveal_strlit("mainnet");
    reveal_strlit("testnet");
    reveal_strlit("testnet4");
    reveal_strlit("regtest");
    reveal_strlit("signet");
    assert("mainnet"@[0] == 'm' && "testnet"@[0] == 't' && "testnet4"@[0] == 't' && "regtest"@[0]
        == 'r' && "signet"@[0] == 's');
    assert("testnet"@.len() == 7 && "testnet4"@.len() == 8);
}

/// Addresses of the main network, and of the regression test network, are marked as such.
pub proof fn law_addresses_are_marked_for_their_network(n: BitcoinNetwork)
    ensures
        n.addresses() == AddressNetwork::Bitcoin <==> n is Mainnet,
        n.addresses() == AddressNetwork::Regtest <==> n is Regtest,
        n.addresses() == AddressNetwork::Testnet <==> n is Testnet || n is Testnet4,
        n.addresses() == AddressNetwork::Signet <==> n is Signet || n is SignetCustom,
{
}

} // verus!
