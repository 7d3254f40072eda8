//! The settings of the signer daemon.

use vstd::prelude::*;
use vstd::string::*;

use crate::crypto::{hex_bytes, hex_value};
use crate::signer::{check_network, network_known};
use crate::text::{
    hex, hex_str, is_hex_char, is_white_space, join2, same, text, trim, trimmed,
};

verus! {

/// Whether a text is hexadecimal: an even number of hexadecimal digits.
pub open spec fn is_hex(s: Seq<char>) -> bool {
    s.len() % 2 == 0 && forall|i: int| 0 <= i < s.len() ==> is_hex_char(#[trigger] s[i])
}

/// `bitcoin::hex::FromHex::from_hex` for `Vec<u8>`: succeeds exactly on an even number of hexadecimal
/// digits in either case, and yields their bytes in order.
#[verifier::external_body]
fn decode_hex(s: &str) -> (r: Option<Vec<u8>>)
    ensures
        r is Some <==> is_hex(s@),
        r matches Some(bytes) ==> bytes@ == hex_bytes(s@),
{
    <Vec<u8> as bitcoin::hex::FromHex>::from_hex(s).ok()
}

/// Why a seed file cannot be used.
#[derive(Clone, Copy, Debug, PartialEq, Eq, Structural)]
pub enum SeedError {
    NotHex,
    WrongLength,
}

impl SeedError {
    /// What is said of it.
    pub fn message(self) -> (r: &'static str)
        ensures
            r@ == (match self {
                SeedError::NotHex => "seed file must be hex"@,
                SeedError::WrongLength => "seed file must decode to exactly 32 bytes"@,
            }),
    {
        match self {
            SeedError::NotHex => "seed file must be hex",
            SeedError::WrongLength => "seed file must decode to exactly 32 bytes",
        }
    }
}

/// What a seed file holds.
pub open spec fn seed_in(contents: Seq<char>) -> Result<Seq<u8>, SeedError> {
    let digits = trimmed(contents);
    if !is_hex(digits) {
        Err(SeedError::NotHex)
    } else if digits.len() != 64 {
        Err(SeedError::WrongLength)
    } else {
        Ok(hex_bytes(digits))
    }
}

/// The seed in a seed file: 64 hexadecimal digits, with white space around them or not.
pub fn parse_seed(contents: &str) -> (r: Result<[u8; 32], SeedError>)
    ensures
        match r {
            Ok(seed) => seed_in(contents@) == Ok::<Seq<u8>, SeedError>(seed@),
            Err(e) => seed_in(contents@) == Err::<Seq<u8>, SeedError>(e),
        },
{
    match decode_hex(trim(contents)) {
        None => Err(SeedError::NotHex),
        Some(bytes) => {
            if bytes.len() != 32 {
                return Err(SeedError::WrongLength);
            }
            let mut seed: [u8; 32] = [0;32];
            let mut i: usize = 0;
            while i < 32
                invariant
                    i <= 32,
                    bytes@.len() == 32,
                    forall|j: int| 0 <= j < i ==> seed@[j] == #[trigger] bytes@[j],
                decreases 32 - i,
            {
                seed[i] = bytes[i];
                i += 1;
            }
            assert(seed@ =~= bytes@);
            Ok(seed)
        },
    }
}

/// What is written to the seed file of a new seed.
pub fn seed_contents(seed: &[u8; 32]) -> (r: String)
    ensures
        r@ == hex(seed@),
{
    hex_str(seed.as_slice())
}

/// A seed that was written is read back.
pub proof fn law_written_seeds_are_read_back(seed: Seq<u8>)
    requires
        seed.len() == 32,
    ensures
        seed_in(hex(seed)) == Ok::<Seq<u8>, SeedError>(seed),
{
    let written = hex(seed);
    assert forall|i: int| 0 <= i < 64 implies is_hex_char(#[trigger] written[i]) && hex_value(
        written[i],
    ) == (if i % 2 == 0 {
        seed[i / 2] / 16
    } else {
        seed[i / 2] % 16
    }) by {}
    assert(!is_white_space(written[0]) && !is_white_space(written[63]));
    assert(trimmed(written) == written);
    assert forall|i: int| 0 <= i < 32 implies #[trigger] hex_bytes(written)[i] == seed[i] by {
        let high = 2 * i;
        let low = 2 * i + 1;
        assert(high / 2 == i && high % 2 == 0 && low / 2 == i && low % 2 == 1);
        assert(hex_value(written[high]) == seed[i] / 16);
        assert(hex_value(written[low]) == seed[i] % 16);
    }
    assert(hex_bytes(written) =~= seed);
}

/// The permissions that a seed file is created with: only its owner may read and write it.
pub const SEED_FILE_MODE: u32 = 0o600;

/// What is done about the seed at the daemon's start.
#[derive(Debug)]
pub enum SeedPlan {
    /// The seed of the file is used; the file stays as it is.
    Use([u8; 32]),
    /// A file with the given permissions is created in one step, and the new seed used.
    Create { seed: [u8; 32], contents: String, mode: u32 },
    Refuse(SeedError),
}

/// Whether a plan is the one for what the seed file holds, if there is one, and a new seed.
pub open spec fn is_seed_plan(r: SeedPlan, file: Option<Seq<char>>, fresh: Seq<u8>) -> bool {
    match file {
        Some(contents) => match seed_in(contents) {
            Ok(seed) => r matches SeedPlan::Use(s) && s@ == seed,
            Err(e) => r == SeedPlan::Refuse(e),
        },
        None => r matches SeedPlan::Create { seed, contents, mode } && seed@ == fresh && contents@
            == hex(fresh) && mode == SEED_FILE_MODE,
    }
}

/// Takes the seed of the seed file where there is one, and has a new one kept where there is none.
pub fn load_or_generate_seed(file: Option<&str>, fresh: [u8; 32]) -> (r: SeedPlan)
    ensures
        is_seed_plan(
            r,
            match file {
                Some(contents) => Some(contents@),
                None => None,
            },
            fresh@,
        ),
{
    match file {
        Some(contents) => match parse_seed(contents) {
            Ok(seed) => SeedPlan::Use(seed),
            Err(e) => SeedPlan::Refuse(e),
        },
        None => SeedPlan::Create {
            seed: fresh,
            contents: seed_contents(&fresh),
            mode: SEED_FILE_MODE,
        },
    }
}

/// A seed that was generated is kept: the file is created for its owner alone, and every later start
/// uses the same seed and leaves the file as it is.
pub proof fn law_generated_seeds_are_kept(
    first: SeedPlan,
    fresh: Seq<u8>,
    second: SeedPlan,
    unused: Seq<u8>,
)
    requires
        fresh.len() == 32,
        is_seed_plan(first, None, fresh),
        is_seed_plan(second, Some(first->contents@), unused),
    ensures
        first matches SeedPlan::Create { seed, mode, .. } && seed@ == fresh && mode == SEED_FILE_MODE,
        second matches SeedPlan::Use(seed) && seed@ == fresh,
{
    law_written_seeds_are_read_back(fresh);
}

/// /// Whether a result is what checking the daemon's settings comes to.
pub open spec fn are_settings(
    network: Seq<char>,
    permissive: bool,
    r: Result<(), String>,
) -> bool {
    &&& if !network_known(network) {
            r matches Err(m) && m@ == "invalid --network: "@ + network
        } else if network == "bitcoin"@ && permissive {
            r matches Err(m) && m@ == "--permissive is not allowed on mainnet"@
        } else {
            r is Ok
        }
}

/// Refuses settings that the daemon must not run with: an unknown network, or a permissive policy on
/// mainnet.
pub fn check_settings(network: &str, permissive: bool) -> (r: Result<(), String>)
    ensures
        are_settings(network@, permissive, r),
{
    if check_network(network).is_err() {
        return Err(join2("invalid --network: ", network));
    }
    if permissive && same(network, "bitcoin") {
        return Err(text("--permissive is not allowed on mainnet"));
    }
    Ok(())
}

/// Where the daemon's certificate, key and trusted authority are.
#[derive(Debug)]
pub struct DaemonTlsConfig<P> {
    pub cert_path: P,
    pub key_path: P,
    pub client_ca_path: Option<P>,
}

/// What the daemon speaks TLS with, if it does.
pub open spec fn tls_of<P>(cert: Option<P>, key: Option<P>, client_ca: Option<P>) -> Option<
    DaemonTlsConfig<P>,
> {
    match (cert, key) {
        (Some(cert_path), Some(key_path)) => Some(
            DaemonTlsConfig { cert_path, key_path, client_ca_path: client_ca },
        ),
        _ => None,
    }
}

/// The daemon speaks TLS where both a certificate and a key are given.
pub fn tls_config<P>(cert: Option<P>, key: Option<P>, client_ca: Option<P>) -> (r: Option<
    DaemonTlsConfig<P>,
>)
    ensures
        r == tls_of(cert, key, client_ca),
{
    match (cert, key) {
        (Some(cert_path), Some(key_path)) => Some(
            DaemonTlsConfig { cert_path, key_path, client_ca_path: client_ca },
        ),
        _ => None,
    }
}

/// A daemon never runs permissively on mainnet, nor on a network that it does not know; everything else
/// is allowed.
pub proof fn law_mainnet_daemons_are_strict(
    network: Seq<char>,
    permissive: bool,
    r: Result<(), String>,
)
    requires
        are_settings(network, permissive, r),
    ensures
        r is Ok ==> network_known(network),
        r is Ok && permissive ==> network != "bitcoin"@,
        network_known(network) && (!permissive || network != "bitcoin"@) ==> r is Ok,
{
}

/// A daemon speaks TLS exactly where it has both a certificate and a key, and then with these.
pub proof fn law_tls_needs_certificate_and_key<P>(
    cert: Option<P>,
    key: Option<P>,
    client_ca: Option<P>,
)
    ensures
        tls_of(cert, key, client_ca) is Some <==> cert is Some && key is Some,
        tls_of(cert, key, client_ca) matches Some(tls) ==> cert == Some(tls.cert_path) && key == Some(
            tls.key_path,
        ) && client_ca == tls.client_ca_path,
{
}

/// A seed file is accepted exactly where it holds 64 hexadecimal digits, but for white space around
/// them, and then holds 32 bytes; a file that is there is never replaced.
pub proof fn law_seed_files_hold_a_seed_or_are_refused(
    contents: Seq<char>,
    plan: SeedPlan,
    fresh: Seq<u8>,
)
    requires
        is_seed_plan(plan, Some(contents), fresh),
    ensures
        !(plan is Create),
        plan is Use <==> trimmed(contents).len() == 64 && forall|i: int|
            0 <= i < 64 ==> is_hex_char(#[trigger] trimmed(contents)[i]),
        plan matches SeedPlan::Use(seed) ==> seed@ == hex_bytes(trimmed(contents)),
        plan == SeedPlan::Refuse(SeedError::WrongLength) ==> trimmed(contents).len() != 64,
{
}

} // verus!
