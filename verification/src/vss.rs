//! The remote store: the identity under which a node keeps its state there, and what is done when
//! the state has to be fetched from it.

use vstd::prelude::*;
use vstd::string::*;
use vstd::utf8::encode_utf8;

use crate::crypto::{hardened_child, hardened_secret, public_key, secp_public_key, sha256, sha256_of};
use crate::error::APIError;
use crate::text::{hex, hex_str, join2, join3, join4, text};

verus! {

/// The identity of a node at the remote store.
#[derive(Debug, PartialEq, Eq)]
pub struct VssIdentity {
    /// Signs the requests, and yields the keys that encrypt the values.
    pub signing_key: [u8; 32],
    /// The public key, which names the store.
    pub pubkey_hex: String,
}

/// The public identity of an external signer.
#[derive(Debug, PartialEq, Eq)]
pub struct SignerIdentity {
    pub node_id: String,
    pub account_xpub_vanilla: String,
    pub account_xpub_colored: String,
    pub master_fingerprint: String,
}

/// What an external signer says of itself.
#[derive(Debug, PartialEq, Eq)]
pub struct BootstrapData {
    pub identity: SignerIdentity,
    pub protocol_version: String,
    pub api_level: u32,
}

/// What is kept of an external signer on disk.
#[derive(Debug, PartialEq, Eq)]
pub struct KeySourceFile {
    pub node_id: String,
    pub account_xpub_vanilla: String,
    pub account_xpub_colored: String,
    pub master_fingerprint: String,
    pub protocol_version: String,
}

impl KeySourceFile {
    /// What is kept of a signer.
    pub fn from_bootstrap(bootstrap: &BootstrapData) -> (r: Self)
        ensures
            r == kept_of(*bootstrap),
    {
        KeySourceFile {
            node_id: bootstrap.identity.node_id.clone(),
            account_xpub_vanilla: bootstrap.identity.account_xpub_vanilla.clone(),
            account_xpub_colored: bootstrap.identity.account_xpub_colored.clone(),
            master_fingerprint: bootstrap.identity.master_fingerprint.clone(),
            protocol_version: bootstrap.protocol_version.clone(),
        }
    }
}

/// What is kept of a signer.
pub open spec fn kept_of(bootstrap: BootstrapData) -> KeySourceFile {
    KeySourceFile {
        node_id: bootstrap.identity.node_id,
        account_xpub_vanilla: bootstrap.identity.account_xpub_vanilla,
        account_xpub_colored: bootstrap.identity.account_xpub_colored,
        master_fingerprint: bootstrap.identity.master_fingerprint,
        protocol_version: bootstrap.protocol_version,
    }
}

/// The bytes that the identity of an external signer's node is made of.
pub open spec fn seed_material(
    node_id: Seq<char>,
    account_xpub_vanilla: Seq<char>,
    account_xpub_colored: Seq<char>,
    master_fingerprint: Seq<char>,
    protocol_version: Seq<char>,
) -> Seq<u8> {
    encode_utf8("rln-vss-identity-v1"@) + encode_utf8(node_id) + encode_utf8(account_xpub_vanilla)
        + encode_utf8(account_xpub_colored) + encode_utf8(master_fingerprint) + encode_utf8(
        protocol_version,
    )
}

/// The bytes for what is kept of a signer.
pub open spec fn key_source_material(source: KeySourceFile) -> Seq<u8> {
    seed_material(
        source.node_id@,
        source.account_xpub_vanilla@,
        source.account_xpub_colored@,
        source.master_fingerprint@,
        source.protocol_version@,
    )
}

/// Whether a result is an error of setting up the remote store, with a given text.
pub open spec fn fails_vss<T>(r: Result<T, APIError>, message: Seq<char>) -> bool {
    r matches Err(APIError::FailedVssInit(m)) && m@ == message
}

/// Whether a result is the identity of a secret key, or says why it has none.
pub open spec fn identity_of(
    secret: Seq<u8>,
    no_key: Seq<char>,
    r: Result<VssIdentity, APIError>,
) -> bool {
    match secp_public_key(secret) {
        Ok(key) => r matches Ok(identity) && identity.signing_key@ == secret
            && identity.pubkey_hex@ == hex(key),
        Err(e) => fails_vss(r, no_key + e),
    }
}

fn failed<T>(context: &str, error: &str) -> (r: Result<T, APIError>)
    ensures
        fails_vss(r, context@ + error@),
{
    Err(APIError::FailedVssInit(join2(context, error)))
}

fn identity(secret: [u8; 32], no_key: &str) -> (r: Result<VssIdentity, APIError>)
    ensures
        identity_of(secret@, no_key@, r),
{
    match public_key(&secret) {
        Ok(key) => Ok(VssIdentity { signing_key: secret, pubkey_hex: hex_str(key.as_slice()) }),
        Err(e) => failed(no_key, e.as_str()),
    }
}

/// Whether a result is the identity that a wallet's seed yields.
pub open spec fn seed_identity(seed: Seq<u8>, r: Result<VssIdentity, APIError>) -> bool {
    match hardened_secret(seed, seq![535u32, 1u32]) {
        Err(e) => fails_vss(r, "VSS identity: invalid mnemonic: "@ + e),
        Ok(Err(e)) => fails_vss(r, "VSS identity: derive_priv failed: "@ + e),
        Ok(Ok(secret)) => identity_of(secret, "VSS identity: derive_priv failed: "@, r),
    }
}

/// The identity of a node that holds its own seed: the key at `m/535'/1'`.
pub fn derive_vss_identity(seed: Result<Vec<u8>, String>) -> (r: Result<VssIdentity, APIError>)
    ensures
        match seed {
            Err(e) => fails_vss(r, "VSS identity: invalid mnemonic: "@ + e@),
            Ok(seed) => seed_identity(seed@, r),
        },
{
    let seed = match seed {
        Ok(seed) => seed,
        Err(e) => {
            return failed("VSS identity: invalid mnemonic: ", e.as_str());
        },
    };
    let path: [u32; 2] = [535, 1];
    assert(path@ =~= seq![535u32, 1u32]);
    match hardened_child(seed.as_slice(), path.as_slice()) {
        Ok(Ok(secret)) => identity(secret, "VSS identity: derive_priv failed: "),
        Ok(Err(e)) => failed("VSS identity: derive_priv failed: ", e.as_str()),
        Err(e) => failed("VSS identity: invalid mnemonic: ", e.as_str()),
    }
}

/// The seed of the Lightning keys of a node that holds its own seed: the key at `m/535'`.
pub fn ldk_seed(seed: &Vec<u8>) -> (r: Result<[u8; 32], String>)
    ensures
        match hardened_secret(seed@, seq![535u32]) {
            Ok(Ok(secret)) => r matches Ok(key) && key@ == secret,
            Ok(Err(e)) => r matches Err(m) && m@ == e,
            Err(e) => r matches Err(m) && m@ == e,
        },
{
    let path: [u32; 1] = [535];
    assert(path@ =~= seq![535u32]);
    match hardened_child(seed.as_slice(), path.as_slice()) {
        Ok(Ok(secret)) => Ok(secret),
        Ok(Err(e)) => Err(e),
        Err(e) => Err(e),
    }
}

fn append(bytes: &mut Vec<u8>, s: &str)
    ensures
        final(bytes)@ == old(bytes)@ + encode_utf8(s@),
{
    let part = s.as_bytes();
    let ghost before = bytes@;
    let mut i: usize = 0;
    while i < part.len()
        invariant
            i <= part@.len(),
            part@ == encode_utf8(s@),
            bytes@ == before + part@.take(i as int),
        decreases part@.len() - i,
    {
        bytes.push(part[i]);
        assert(part@.take(i + 1) =~= part@.take(i as int).push(part@[i as int]));
        i += 1;
    }
    assert(part@.take(i as int) =~= part@);
}

fn derive_vss_identity_from_public_material(
    node_id: &str,
    account_xpub_vanilla: &str,
    account_xpub_colored: &str,
    master_fingerprint: &str,
    protocol_version: &str,
) -> (r: Result<VssIdentity, APIError>)
    ensures
        identity_of(
            sha256(
                seed_material(
                    node_id@,
                    account_xpub_vanilla@,
                    account_xpub_colored@,
                    master_fingerprint@,
                    protocol_version@,
                ),
            ),
            "VSS identity: invalid derived key from bootstrap: "@,
            r,
        ),
{
    let mut material: Vec<u8> = Vec::new();
    append(&mut material, "rln-vss-identity-v1");
    append(&mut material, node_id);
    append(&mut material, account_xpub_vanilla);
    append(&mut material, account_xpub_colored);
    append(&mut material, master_fingerprint);
    append(&mut material, protocol_version);
    assert(material@ =~= seed_material(
        node_id@,
        account_xpub_vanilla@,
        account_xpub_colored@,
        master_fingerprint@,
        protocol_version@,
    ));
    identity(
        sha256_of(material.as_slice()),
        "VSS identity: invalid derived key from bootstrap: ",
    )
}

/// The identity of a node whose keys an external signer holds, from what is kept of the signer.
pub fn derive_vss_identity_from_key_source(key_source: &KeySourceFile) -> (r: Result<
    VssIdentity,
    APIError,
>)
    ensures
        identity_of(
            sha256(key_source_material(*key_source)),
            "VSS identity: invalid derived key from bootstrap: "@,
            r,
        ),
{
    derive_vss_identity_from_public_material(
        key_source.node_id.as_str(),
        key_source.account_xpub_vanilla.as_str(),
        key_source.account_xpub_colored.as_str(),
        key_source.master_fingerprint.as_str(),
        key_source.protocol_version.as_str(),
    )
}

/// The identity of a node whose keys an external signer holds, from what the signer says of itself.
pub fn derive_vss_identity_from_bootstrap(bootstrap: &BootstrapData) -> (r: Result<
    VssIdentity,
    APIError,
>)
    ensures
        identity_of(
            sha256(key_source_material(kept_of(*bootstrap))),
            "VSS identity: invalid derived key from bootstrap: "@,
            r,
        ),
{
    derive_vss_identity_from_public_material(
        bootstrap.identity.node_id.as_str(),
        bootstrap.identity.account_xpub_vanilla.as_str(),
        bootstrap.identity.account_xpub_colored.as_str(),
        bootstrap.identity.master_fingerprint.as_str(),
        bootstrap.protocol_version.as_str(),
    )
}

/// The name of the store that holds the RGB wallet.
pub fn rgb_store_id(identity: &VssIdentity) -> (r: String)
    ensures
        r@ == identity.pubkey_hex@ + "_rgb"@,
{
    join2(identity.pubkey_hex.as_str(), "_rgb")
}

/// Whether a result is the identity that a node has at the remote store, or says why it has none.
pub open spec fn is_vss_identity(
    vss_configured: bool,
    seed: Option<Result<Vec<u8>, String>>,
    bootstrap: Option<&BootstrapData>,
    r: Result<Option<VssIdentity>, APIError>,
) -> bool {
    if !vss_configured {
        r == Ok::<Option<VssIdentity>, APIError>(None)
    } else {
        match (seed, bootstrap) {
            (None, None) => fails_vss(
                r,
                "VSS identity: external-signer mode is missing bootstrap data"@,
            ),
            (Some(Err(e)), _) => fails_vss(r, "VSS identity: invalid mnemonic: "@ + e@),
            (Some(Ok(seed)), _) => exists|inner: Result<VssIdentity, APIError>| #[trigger]
                seed_identity(seed@, inner) && r == some_of(inner),
            (None, Some(bootstrap)) => exists|inner: Result<VssIdentity, APIError>| #[trigger]
                identity_of(
                    sha256(key_source_material(kept_of(*bootstrap))),
                    "VSS identity: invalid derived key from bootstrap: "@,
                    inner,
                ) && r == some_of(inner),
        }
    }
}

/// Which identity a node has at the remote store: none without such a store, that of its seed where
/// it holds one, else that of its external signer.
pub fn vss_identity(
    vss_configured: bool,
    seed: Option<Result<Vec<u8>, String>>,
    bootstrap: Option<&BootstrapData>,
) -> (r: Result<Option<VssIdentity>, APIError>)
    ensures
        is_vss_identity(vss_configured, seed, bootstrap, r),
{
    if !vss_configured {
        return Ok(None);
    }
    let identity = match (seed, bootstrap) {
        (Some(seed), _) => derive_vss_identity(seed),
        (None, Some(bootstrap)) => derive_vss_identity_from_bootstrap(bootstrap),
        (None, None) => {
            return Err(
                APIError::FailedVssInit(
                    text("VSS identity: external-signer mode is missing bootstrap data"),
                ),
            );
        },
    };
    match identity {
        Ok(identity) => Ok(Some(identity)),
        Err(e) => Err(e),
    }
}

/// A result with its value made optional.
pub open spec fn some_of(r: Result<VssIdentity, APIError>) -> Result<Option<VssIdentity>, APIError> {
    match r {
        Ok(identity) => Ok(Some(identity)),
        Err(e) => Err(e),
    }
}

// ---------------------------------------------------------------------------------------------
// Restoring
// ---------------------------------------------------------------------------------------------

/// Whether a result is what fetching the node's state comes to.
pub open spec fn is_restore(
    has_local_data: bool,
    restored: Result<usize, String>,
    allow_empty_restore: bool,
    r: Result<usize, APIError>,
) -> bool {
    if has_local_data {
        r == Ok::<usize, APIError>(0)
    } else {
        match restored {
            Ok(keys) => r == Ok::<usize, APIError>(keys),
            Err(e) => if allow_empty_restore {
                r == Ok::<usize, APIError>(0)
            } else {
                fails_vss(
                    r,
                    "VSS restore failed: "@ + e@
                        + ". Pass --vss-allow-empty-restore to start with an empty local state instead (UNSAFE if you previously had active channels)."@,
                )
            },
        }
    }
}

/// What became of fetching the node's state, with how many keys were fetched. It is only fetched
/// where no channel state is stored locally, and a failure is only passed over on request.
pub fn restore_from_vss(
    has_local_data: bool,
    restored: Result<usize, String>,
    allow_empty_restore: bool,
) -> (r: Result<usize, APIError>)
    ensures
        is_restore(has_local_data, restored, allow_empty_restore, r),
{
    if has_local_data {
        return Ok(0);
    }
    match restored {
        Ok(keys) => Ok(keys),
        Err(e) => if allow_empty_restore {
            Ok(0)
        } else {
            Err(
                APIError::FailedVssInit(
                    join3(
                        "VSS restore failed: ",
                        e.as_str(),
                        ". Pass --vss-allow-empty-restore to start with an empty local state instead (UNSAFE if you previously had active channels).",
                    ),
                ),
            )
        },
    }
}

/// What is to be done next to fetch the RGB wallet.
#[derive(Debug)]
pub enum RgbRestoreStep {
    /// See whether the wallet's directory is there.
    LookForWallet,
    /// Create the data directory.
    CreateDataDir,
    /// Fetch the wallet.
    Restore,
    Done(Result<(), APIError>),
}

/// What came of fetching a wallet.
#[derive(Debug)]
pub enum WalletRestore {
    Restored,
    NotFound,
    Failed(String),
}

/// What came of a step.
#[derive(Debug)]
pub enum RgbRestoreReply {
    Present(bool),
    Created(Result<(), String>),
    Restored(WalletRestore),
}

/// Fetching the RGB wallet from the remote store.
#[derive(Debug)]
pub struct RgbRestore {
    pub step: RgbRestoreStep,
    pub data_dir: String,
    pub allow_empty_restore: bool,
}

/// Whether a reply answers a step.
pub open spec fn rgb_restore_fits(step: RgbRestoreStep, reply: RgbRestoreReply) -> bool {
    match step {
        RgbRestoreStep::LookForWallet => reply is Present,
        RgbRestoreStep::CreateDataDir => reply is Created,
        RgbRestoreStep::Restore => reply is Restored,
        RgbRestoreStep::Done(_) => false,
    }
}

/// Whether a run ends with a result.
pub open spec fn ends(step: RgbRestoreStep, message: Option<Seq<char>>) -> bool {
    match message {
        None => step matches RgbRestoreStep::Done(Ok(_)),
        Some(m) => step matches RgbRestoreStep::Done(r) && fails_vss(r, m),
    }
}

/// Whether a step follows a reply.
pub open spec fn rgb_restore_next(job: RgbRestore, reply: RgbRestoreReply, next: RgbRestore) -> bool {
    &&& next.data_dir == job.data_dir
    &&& next.allow_empty_restore == job.allow_empty_restore
    &&& match reply {
        RgbRestoreReply::Present(true) => ends(next.step, None),
        RgbRestoreReply::Present(false) => next.step is CreateDataDir,
        RgbRestoreReply::Created(Ok(_)) => next.step is Restore,
        RgbRestoreReply::Created(Err(e)) => ends(
            next.step,
            Some("RGB VSS restore: failed to create data_dir "@ + job.data_dir@ + ": "@ + e@),
        ),
        RgbRestoreReply::Restored(WalletRestore::Restored) => ends(next.step, None),
        RgbRestoreReply::Restored(WalletRestore::NotFound) => ends(next.step, None),
        RgbRestoreReply::Restored(WalletRestore::Failed(e)) => if job.allow_empty_restore {
            ends(next.step, None)
        } else {
            ends(
                next.step,
                Some(
                    "RGB VSS restore failed: "@ + e@
                        + ". Pass --vss-allow-empty-restore to start with an empty RGB wallet instead (UNSAFE if you previously had RGB assets)."@,
                ),
            )
        },
    }
}

impl RgbRestore {
    /// Starts fetching the RGB wallet.
    pub fn maybe_restore_rgb_from_vss(data_dir: String, allow_empty_restore: bool) -> (r: Self)
        ensures
            r.step is LookForWallet,
            r.data_dir == data_dir,
            r.allow_empty_restore == allow_empty_restore,
    {
        RgbRestore { step: RgbRestoreStep::LookForWallet, data_dir, allow_empty_restore }
    }

    /// Takes the reply to the step that was done.
    pub fn advance(self, reply: RgbRestoreReply) -> (r: Self)
        requires
            rgb_restore_fits(self.step, reply),
        ensures
            rgb_restore_next(self, reply, r),
    {
        let mut job = self;
        job.step = match reply {
            RgbRestoreReply::Present(true) => RgbRestoreStep::Done(Ok(())),
            RgbRestoreReply::Present(false) => RgbRestoreStep::CreateDataDir,
            RgbRestoreReply::Created(Ok(_)) => RgbRestoreStep::Restore,
            RgbRestoreReply::Created(Err(e)) => RgbRestoreStep::Done(
                Err(
                    APIError::FailedVssInit(
                        join4(
                            "RGB VSS restore: failed to create data_dir ",
                            job.data_dir.as_str(),
                            ": ",
                            e.as_str(),
                        ),
                    ),
                ),
            ),
            RgbRestoreReply::Restored(WalletRestore::Failed(e)) => if job.allow_empty_restore {
                RgbRestoreStep::Done(Ok(()))
            } else {
                RgbRestoreStep::Done(
                    Err(
                        APIError::FailedVssInit(
                            join3(
                                "RGB VSS restore failed: ",
                                e.as_str(),
                                ". Pass --vss-allow-empty-restore to start with an empty RGB wallet instead (UNSAFE if you previously had RGB assets).",
                            ),
                        ),
                    ),
                )
            },
            RgbRestoreReply::Restored(_) => RgbRestoreStep::Done(Ok(())),
        };
        job
    }
}

/// What is kept of an external signer yields the same identity as what the signer says of itself.
pub proof fn law_key_source_names_the_same_store(
    bootstrap: BootstrapData,
    a: Result<VssIdentity, APIError>,
    b: Result<VssIdentity, APIError>,
)
    requires
        identity_of(
            sha256(key_source_material(kept_of(bootstrap))),
            "VSS identity: invalid derived key from bootstrap: "@,
            a,
        ),
        identity_of(
            sha256(key_source_material(kept_of(bootstrap))),
            "VSS identity: invalid derived key from bootstrap: "@,
            b,
        ),
        a is Ok,
    ensures
        b is Ok,
        a->Ok_0.signing_key@ == b->Ok_0.signing_key@,
        a->Ok_0.pubkey_hex@ == b->Ok_0.pubkey_hex@,
{
}

/// A wallet that is there is never overwritten: nothing is fetched once its directory was seen.
pub proof fn law_local_wallet_is_never_replaced(
    job: RgbRestore,
    reply: RgbRestoreReply,
    next: RgbRestore,
)
    requires
        rgb_restore_fits(job.step, reply),
        rgb_restore_next(job, reply, next),
        next.step is Restore,
    ensures
        job.step is CreateDataDir,
        reply matches RgbRestoreReply::Created(Ok(_)),
{
}

/// A node has an identity at the remote store exactly where one is configured, and never its signer's
/// where it holds a seed of its own.
pub proof fn law_identities_come_with_a_store(
    vss_configured: bool,
    seed: Option<Result<Vec<u8>, String>>,
    bootstrap: Option<&BootstrapData>,
    other: Option<&BootstrapData>,
    r: Result<Option<VssIdentity>, APIError>,
)
    requires
        is_vss_identity(vss_configured, seed, bootstrap, r),
    ensures
        r matches Ok(None) <==> !vss_configured,
        vss_configured && seed is None && bootstrap is None ==> r is Err,
        seed is Some ==> is_vss_identity(vss_configured, seed, other, r),
{
}

/// Every identity is a key with its own public half: the store is named by what the signing key can sign
/// for.
pub proof fn law_stores_are_named_by_their_key(
    seed: Option<Result<Vec<u8>, String>>,
    bootstrap: Option<&BootstrapData>,
    identity: VssIdentity,
)
    requires
        is_vss_identity(true, seed, bootstrap, Ok(Some(identity))),
    ensures
        secp_public_key(identity.signing_key@) is Ok,
        identity.pubkey_hex@ == hex(secp_public_key(identity.signing_key@)->Ok_0),
{
}

/// What an external signer's node is made of shows in its seed, each part in its place: it starts with
/// the label and ends with the protocol's version, and is as long as its parts.
pub proof fn law_seeds_hold_every_part(
    node_id: Seq<char>,
    vanilla: Seq<char>,
    colored: Seq<char>,
    fingerprint: Seq<char>,
    version: Seq<char>,
)
    ensures
        ({
            let m = seed_material(node_id, vanilla, colored, fingerprint, version);
            let a = encode_utf8("rln-vss-identity-v1"@).len() as int;
            let b = a + encode_utf8(node_id).len();
            let c = b + encode_utf8(vanilla).len();
            let d = c + encode_utf8(colored).len();
            let e = d + encode_utf8(fingerprint).len();
            &&& m.len() == e + encode_utf8(version).len()
            &&& m.subrange(0, a) == encode_utf8("rln-vss-identity-v1"@)
            &&& m.subrange(a, b) == encode_utf8(node_id)
            &&& m.subrange(b, c) == encode_utf8(vanilla)
            &&& m.subrange(c, d) == encode_utf8(colored)
            &&& m.subrange(d, e) == encode_utf8(fingerprint)
            &&& m.subrange(e, m.len() as int) == encode_utf8(version)
        }),
{
}

/// What is kept of a signer is what it said, field for field.
pub proof fn law_signers_are_kept_as_they_are(bootstrap: BootstrapData)
    ensures
        kept_of(bootstrap).node_id == bootstrap.identity.node_id,
        kept_of(bootstrap).account_xpub_vanilla == bootstrap.identity.account_xpub_vanilla,
        kept_of(bootstrap).account_xpub_colored == bootstrap.identity.account_xpub_colored,
        kept_of(bootstrap).master_fingerprint == bootstrap.identity.master_fingerprint,
        kept_of(bootstrap).protocol_version == bootstrap.protocol_version,
{
}

/// State is never fetched over state that is there; a fetch that failed stops the start unless an empty
/// one was asked for, and what was fetched is counted.
pub proof fn law_failed_fetches_stop_unless_allowed(
    has_local_data: bool,
    restored: Result<usize, String>,
    allow_empty_restore: bool,
    r: Result<usize, APIError>,
)
    requires
        is_restore(has_local_data, restored, allow_empty_restore, r),
    ensures
        r is Err <==> !has_local_data && restored is Err && !allow_empty_restore,
        r matches Ok(n) ==> (n > 0 ==> !has_local_data && restored == Ok::<usize, String>(n)),
        !has_local_data && restored is Ok ==> r == Ok::<usize, APIError>(restored->Ok_0),
{
}

/// A wallet is fetched exactly where none is there and its directory could be made; one that is not found
/// is no error, and one that could not be fetched is one unless an empty one was asked for.
pub proof fn law_wallets_are_fetched_when_missing(
    job: RgbRestore,
    reply: RgbRestoreReply,
    next: RgbRestore,
)
    requires
        rgb_restore_fits(job.step, reply),
        rgb_restore_next(job, reply, next),
    ensures
        job.step is LookForWallet ==> (next.step is CreateDataDir <==> reply
            == RgbRestoreReply::Present(false)),
        job.step is CreateDataDir ==> (next.step is Restore <==> (reply matches RgbRestoreReply::Created(
            Ok(_),
        ))),
        next.step matches RgbRestoreStep::Done(r) ==> (r is Err <==> match reply {
            RgbRestoreReply::Present(_) => false,
            RgbRestoreReply::Created(c) => c is Err,
            RgbRestoreReply::Restored(c) => c is Failed && !job.allow_empty_restore,
        }),
        job.step is Restore ==> next.step is Done,
{
}

/// What a fetch of the wallet was started with stays as it is.
pub proof fn law_wallet_fetches_keep_their_settings(
    job: RgbRestore,
    reply: RgbRestoreReply,
    next: RgbRestore,
)
    requires
        rgb_restore_fits(job.step, reply),
        rgb_restore_next(job, reply, next),
    ensures
        next.data_dir == job.data_dir,
        next.allow_empty_restore == job.allow_empty_restore,
{
}

} // verus!
