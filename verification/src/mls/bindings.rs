//! The trusted boundary to the group key-agreement engine.
//!
//! Every item here either declares an outside type so that Verus can carry
//! its values through, or wraps exactly one call into the engine. The engine
//! decides cryptographic outcomes, so most wrappers promise nothing of the
//! values that come back: the verified protocol logic around them states what
//! holds whatever the engine returns.

use vstd::prelude::*;

verus! {

// === Outside types carried through the verified logic ===

#[verifier::external_type_specification]
#[verifier::external_body]
pub struct ExOpenMlsRustCrypto(openmls_rust_crypto::OpenMlsRustCrypto);

#[verifier::external_type_specification]
#[verifier::external_body]
pub struct ExCiphersuite(openmls_traits::types::Ciphersuite);

#[verifier::external_type_specification]
#[verifier::external_body]
pub struct ExSignatureScheme(openmls_traits::types::SignatureScheme);

#[verifier::external_type_specification]
#[verifier::external_body]
pub struct ExSignatureKeyPair(openmls_basic_credential::SignatureKeyPair);

#[verifier::external_type_specification]
#[verifier::external_body]
pub struct ExMlsGroup(openmls::group::MlsGroup);

#[verifier::external_type_specification]
#[verifier::external_body]
pub struct ExMlsGroupConfig(openmls::group::MlsGroupConfig);

#[verifier::external_type_specification]
#[verifier::external_body]
pub struct ExPublicGroup(openmls::group::PublicGroup);

#[verifier::external_type_specification]
#[verifier::external_body]
pub struct ExProposalStore(openmls::prelude::ProposalStore);

#[verifier::external_type_specification]
#[verifier::external_body]
pub struct ExMlsMessageIn(openmls::prelude::MlsMessageIn);

#[verifier::external_type_specification]
#[verifier::external_body]
pub struct ExMlsMessageOut(openmls::prelude::MlsMessageOut);

#[verifier::external_type_specification]
#[verifier::external_body]
pub struct ExPublicMessageIn(openmls::prelude::PublicMessageIn);

#[verifier::external_type_specification]
#[verifier::external_body]
pub struct ExWelcome(openmls::prelude::Welcome);

#[verifier::external_type_specification]
#[verifier::external_body]
pub struct ExVerifiableGroupInfo(openmls::messages::group_info::VerifiableGroupInfo);

#[verifier::external_type_specification]
#[verifier::external_body]
pub struct ExProcessedMessage(openmls::prelude::ProcessedMessage);

#[verifier::external_type_specification]
#[verifier::external_body]
pub struct ExStagedCommit(openmls::prelude::StagedCommit);

#[verifier::external_type_specification]
#[verifier::external_body]
pub struct ExKeyPackage(openmls::prelude::KeyPackage);

#[verifier::external_type_specification]
#[verifier::external_body]
pub struct ExCredential(openmls::prelude::Credential);

#[verifier::external_type_specification]
#[verifier::external_body]
pub struct ExCredentialWithKey(openmls::prelude::CredentialWithKey);

#[verifier::external_type_specification]
#[verifier::external_body]
pub struct ExRatchetTree(openmls::treesync::RatchetTree);

#[verifier::external_type_specification]
#[verifier::external_body]
pub struct ExRatchetTreeIn(openmls::prelude::RatchetTreeIn);

// === Plain-value summaries handed out by the boundary ===

/// The body of a received MLS message, narrowed to the kinds the protocol
/// acts on.
pub enum MessageBody {
    /// A public handshake message.
    Public(openmls::prelude::PublicMessageIn),
    /// A welcome addressed to a newly added member.
    Welcome(openmls::prelude::Welcome),
    /// A signed public group descriptor.
    GroupInfo(openmls::messages::group_info::VerifiableGroupInfo),
    /// Anything else: a private message or a key package.
    Other,
}

/// The outcome of handing a public message to a client's group.
pub enum ProcessOutcome {
    /// The engine accepted and validated the message.
    Processed(openmls::prelude::ProcessedMessage),
    /// The message is the client's own pending commit, echoed back: the
    /// pending change must be merged locally instead of reprocessed.
    OwnCommit,
    /// The engine rejected the message.
    Failed(String),
}

/// The content of a validated message, narrowed to what the protocol acts on.
pub enum CommitContent {
    /// A staged commit, ready to be merged.
    Staged(openmls::prelude::StagedCommit),
    /// An application message or a proposal: not a membership transition.
    NotACommit,
}

/// What the verified logic reads of one ratchet-tree leaf: the leaf's
/// signature key and whether the leaf carries a parent hash. A leaf carries a
/// parent hash exactly when its key material was last set by a commit of its
/// own member — the cross-signing proof — rather than by the key package the
/// member was added with.
pub struct LeafView {
    pub signature_key: Vec<u8>,
    pub has_parent_hash: bool,
}

// === Clone impls of carried engine values ===

/// Relies on CredentialWithKey's derived Clone.
pub assume_specification[ <openmls::prelude::CredentialWithKey as core::clone::Clone>::clone ](
    credential: &openmls::prelude::CredentialWithKey,
) -> openmls::prelude::CredentialWithKey;

/// Relies on KeyPackage's derived Clone.
pub assume_specification[ <openmls::prelude::KeyPackage as core::clone::Clone>::clone ](
    key_package: &openmls::prelude::KeyPackage,
) -> openmls::prelude::KeyPackage;

/// Relies on MlsMessageIn's derived Clone.
pub assume_specification[ <openmls::prelude::MlsMessageIn as core::clone::Clone>::clone ](
    message: &openmls::prelude::MlsMessageIn,
) -> openmls::prelude::MlsMessageIn;

/// Relies on MlsMessageOut's derived Clone.
pub assume_specification[ <openmls::prelude::MlsMessageOut as core::clone::Clone>::clone ](
    message: &openmls::prelude::MlsMessageOut,
) -> openmls::prelude::MlsMessageOut;

// === The backend and its configuration ===

/// Relies on OpenMlsRustCrypto::default: a fresh crypto provider with an
/// empty key store.
#[verifier::external_body]
pub(crate) fn default_crypto_backend() -> openmls_rust_crypto::OpenMlsRustCrypto {
    openmls_rust_crypto::OpenMlsRustCrypto::default()
}

/// Relies on openmls_traits' Ciphersuite: the MLS_128_DHKEMX25519_AES128GCM_SHA256_Ed25519 suite.
#[verifier::external_body]
pub(crate) fn default_ciphersuite() -> openmls_traits::types::Ciphersuite {
    openmls_traits::types::Ciphersuite::MLS_128_DHKEMX25519_AES128GCM_SHA256_Ed25519
}

/// Relies on Ciphersuite::signature_algorithm: the suite's signature scheme.
#[verifier::external_body]
pub(crate) fn ciphersuite_signature_scheme(
    ciphersuite: &openmls_traits::types::Ciphersuite,
) -> openmls_traits::types::SignatureScheme {
    ciphersuite.signature_algorithm()
}

/// Relies on MlsGroupConfig::builder: plaintext wire format, the ratchet tree
/// carried as an extension, and an out-of-order tolerance of 10 messages and
/// a maximum forward distance of 2000.
#[verifier::external_body]
pub(crate) fn gen_mls_group_config() -> openmls::group::MlsGroupConfig {
    openmls::group::MlsGroupConfig::builder()
        .sender_ratchet_configuration(openmls::prelude::SenderRatchetConfiguration::new(10, 2000))
        .use_ratchet_tree_extension(true)
        .wire_format_policy(openmls::prelude::PURE_PLAINTEXT_WIRE_FORMAT_POLICY)
        .build()
}

// === Group operations of a client ===

/// Relies on MlsGroup::new: a new group with the creator as its only member
/// and a random group id; the creator's leaf is signed with the given key.
#[verifier::external_body]
pub(crate) fn group_create(
    backend: &openmls_rust_crypto::OpenMlsRustCrypto,
    signer: &openmls_basic_credential::SignatureKeyPair,
    config: &openmls::group::MlsGroupConfig,
    credential: openmls::prelude::CredentialWithKey,
) -> Result<openmls::group::MlsGroup, String> {
    openmls::group::MlsGroup::new(backend, signer, config, credential).map_err(|e| e.to_string())
}

/// Relies on MlsGroup::new_from_welcome: a group built from a welcome
/// message, with the ratchet tree taken from the welcome's extension.
#[verifier::external_body]
pub(crate) fn group_from_welcome(
    backend: &openmls_rust_crypto::OpenMlsRustCrypto,
    config: &openmls::group::MlsGroupConfig,
    welcome: openmls::prelude::Welcome,
) -> Result<openmls::group::MlsGroup, String> {
    openmls::group::MlsGroup::new_from_welcome(backend, config, welcome, None)
        .map_err(|e| e.to_string())
}

/// Relies on MlsGroup::add_members: a commit adding the key package's owner,
/// and the welcome addressed to it.
#[verifier::external_body]
pub(crate) fn group_add_member(
    group: &mut openmls::group::MlsGroup,
    backend: &openmls_rust_crypto::OpenMlsRustCrypto,
    signer: &openmls_basic_credential::SignatureKeyPair,
    key_package: openmls::prelude::KeyPackage,
) -> Result<(openmls::prelude::MlsMessageOut, openmls::prelude::MlsMessageOut), String> {
    group.add_members(backend, signer, &[key_package]).map(|(m, w, _)| (m, w)).map_err(
        |e| e.to_string(),
    )
}

/// Relies on MlsGroup::remove_members: a commit removing the member at the
/// given leaf index, and a welcome if the commit also added someone.
#[verifier::external_body]
pub(crate) fn group_remove_member(
    group: &mut openmls::group::MlsGroup,
    backend: &openmls_rust_crypto::OpenMlsRustCrypto,
    signer: &openmls_basic_credential::SignatureKeyPair,
    leaf_index: u32,
) -> Result<(openmls::prelude::MlsMessageOut, Option<openmls::prelude::MlsMessageOut>), String> {
    group.remove_members(backend, signer, &[openmls::prelude::LeafNodeIndex::new(leaf_index)])
        .map(|(m, w, _)| (m, w))
        .map_err(|e| e.to_string())
}

/// Relies on MlsGroup::self_update: a commit rotating the caller's own leaf
/// key material.
#[verifier::external_body]
pub(crate) fn group_self_update(
    group: &mut openmls::group::MlsGroup,
    backend: &openmls_rust_crypto::OpenMlsRustCrypto,
    signer: &openmls_basic_credential::SignatureKeyPair,
) -> Result<openmls::prelude::MlsMessageOut, String> {
    group.self_update(backend, signer).map(|(m, _, _)| m).map_err(|e| e.to_string())
}

/// Relies on MlsGroup::process_message, and on StageCommitError::OwnCommit
/// marking a commit the group itself authored and still holds pending.
#[verifier::external_body]
pub(crate) fn group_process_message(
    group: &mut openmls::group::MlsGroup,
    backend: &openmls_rust_crypto::OpenMlsRustCrypto,
    message: openmls::prelude::PublicMessageIn,
) -> ProcessOutcome {
    match group.process_message(backend, message) {
        Ok(processed) => ProcessOutcome::Processed(processed),
        Err(openmls::prelude::ProcessMessageError::InvalidCommit(
            openmls::prelude::StageCommitError::OwnCommit,
        )) => ProcessOutcome::OwnCommit,
        Err(e) => ProcessOutcome::Failed(e.to_string()),
    }
}

/// Relies on ProcessedMessage::into_content: the validated content, a staged
/// commit where the message was a commit.
#[verifier::external_body]
pub(crate) fn processed_into_content(
    message: openmls::prelude::ProcessedMessage,
) -> CommitContent {
    match message.into_content() {
        openmls::prelude::ProcessedMessageContent::StagedCommitMessage(staged) => {
            CommitContent::Staged(*staged)
        },
        _ => CommitContent::NotACommit,
    }
}

/// Relies on MlsGroup::merge_staged_commit: the staged commit becomes the
/// group's state, advancing its epoch.
#[verifier::external_body]
pub(crate) fn group_merge_staged_commit(
    group: &mut openmls::group::MlsGroup,
    backend: &openmls_rust_crypto::OpenMlsRustCrypto,
    staged: openmls::prelude::StagedCommit,
) -> Result<(), String> {
    group.merge_staged_commit(backend, staged).map_err(|e| e.to_string())
}

/// Relies on MlsGroup::merge_pending_commit: the group's own pending commit
/// becomes its state.
#[verifier::external_body]
pub(crate) fn group_merge_pending_commit(
    group: &mut openmls::group::MlsGroup,
    backend: &openmls_rust_crypto::OpenMlsRustCrypto,
) -> Result<(), String> {
    group.merge_pending_commit(backend).map_err(|e| e.to_string())
}

/// Relies on MlsGroup::is_active: false once this group's own member has
/// been removed from it.
#[verifier::external_body]
pub(crate) fn group_is_active(group: &openmls::group::MlsGroup) -> bool {
    group.is_active()
}

/// Relies on MlsGroup::export_group_info: the group's signed public
/// descriptor, without the ratchet tree embedded.
#[verifier::external_body]
pub(crate) fn group_export_group_info(
    group: &openmls::group::MlsGroup,
    backend: &openmls_rust_crypto::OpenMlsRustCrypto,
    signer: &openmls_basic_credential::SignatureKeyPair,
) -> Result<openmls::prelude::MlsMessageOut, String> {
    group.export_group_info(backend, signer, false).map_err(|e| e.to_string())
}

/// Relies on MlsGroup::export_ratchet_tree: the group's public tree.
#[verifier::external_body]
pub(crate) fn group_export_ratchet_tree(
    group: &openmls::group::MlsGroup,
) -> openmls::treesync::RatchetTree {
    group.export_ratchet_tree()
}

// === Operations of the public, secretless group view ===

/// Relies on ProposalStore::new: an empty proposal store.
#[verifier::external_body]
pub(crate) fn new_proposal_store() -> openmls::prelude::ProposalStore {
    openmls::prelude::ProposalStore::new()
}

/// Relies on PublicGroup::from_external: a public group view built from a
/// ratchet tree and a signed group descriptor; it verifies the descriptor's
/// signature against the signer's key taken from the tree, and fails if the
/// signature or the tree is invalid.
#[verifier::external_body]
pub(crate) fn public_group_from_external(
    backend: &openmls_rust_crypto::OpenMlsRustCrypto,
    tree: openmls::prelude::RatchetTreeIn,
    group_info: openmls::messages::group_info::VerifiableGroupInfo,
    store: openmls::prelude::ProposalStore,
) -> Result<openmls::group::PublicGroup, String> {
    openmls::group::PublicGroup::from_external(backend, tree, group_info, store)
        .map(|(g, _)| g)
        .map_err(|e| e.to_string())
}

/// Relies on PublicGroup::process_message: validation of a public message
/// against the public group state, using public material only.
#[verifier::external_body]
pub(crate) fn public_group_process_message(
    group: &openmls::group::PublicGroup,
    backend: &openmls_rust_crypto::OpenMlsRustCrypto,
    message: openmls::prelude::PublicMessageIn,
) -> Result<openmls::prelude::ProcessedMessage, String> {
    group.process_message(backend, message).map_err(|e| e.to_string())
}

/// Relies on PublicGroup::merge_commit: the staged commit becomes the public
/// group's state.
#[verifier::external_body]
pub(crate) fn public_group_merge_commit(
    group: &mut openmls::group::PublicGroup,
    staged: openmls::prelude::StagedCommit,
) {
    group.merge_commit(staged)
}

/// Relies on PublicGroup::leaf, LeafNode::signature_key and
/// LeafNode::parent_hash: what the leaf at the given index holds, if the
/// index is within the tree and its leaf is not blank.
#[verifier::external_body]
pub(crate) fn public_group_leaf_view(
    group: &openmls::group::PublicGroup,
    leaf_index: u32,
) -> Option<LeafView> {
    group.leaf(openmls::prelude::LeafNodeIndex::new(leaf_index)).map(
        |leaf| LeafView {
            signature_key: leaf.signature_key().as_slice().to_vec(),
            has_parent_hash: leaf.parent_hash().is_some(),
        },
    )
}

/// Relies on serde of PublicGroup (via serde_json): an equal, independent
/// copy of the public group view.
#[verifier::external_body]
pub(crate) fn clone_public_group(
    group: &openmls::group::PublicGroup,
) -> Result<openmls::group::PublicGroup, String> {
    let serialized = serde_json::to_string(group).map_err(|e| e.to_string())?;
    serde_json::from_str(&serialized).map_err(|e| e.to_string())
}

// === Wire encoding of engine messages ===

/// Relies on tls_codec::Serialize of MlsMessageOut: the message's detached
/// TLS encoding.
#[verifier::external_body]
pub(crate) fn mls_out_to_bytes(
    message: &openmls::prelude::MlsMessageOut,
) -> Result<Vec<u8>, String> {
    tls_codec::Serialize::tls_serialize_detached(message).map_err(|e| e.to_string())
}

/// Relies on tls_codec::Serialize of Option<MlsMessageOut>: a presence byte,
/// then the message's TLS encoding if present.
#[verifier::external_body]
pub(crate) fn opt_mls_out_to_bytes(
    message: &Option<openmls::prelude::MlsMessageOut>,
) -> Result<Vec<u8>, String> {
    tls_codec::Serialize::tls_serialize_detached(message).map_err(|e| e.to_string())
}

/// Relies on tls_codec::Serialize of RatchetTree: the tree's detached TLS
/// encoding.
#[verifier::external_body]
pub(crate) fn ratchet_tree_to_bytes(
    tree: &openmls::treesync::RatchetTree,
) -> Result<Vec<u8>, String> {
    tls_codec::Serialize::tls_serialize_detached(tree).map_err(|e| e.to_string())
}

/// Relies on tls_codec::Deserialize of MlsMessageIn: one message read from
/// the front of the buffer, and how many bytes it took.
#[verifier::external_body]
pub(crate) fn mls_in_from_bytes(
    bytes: &[u8],
) -> (r: Result<(openmls::prelude::MlsMessageIn, usize), String>)
    ensures
        r matches Ok((_, used)) ==> used <= bytes@.len(),
{
    let mut reader = bytes;
    let message: openmls::prelude::MlsMessageIn =
        tls_codec::Deserialize::tls_deserialize(&mut reader).map_err(|e| e.to_string())?;
    Ok((message, bytes.len() - reader.len()))
}

/// Relies on tls_codec::Deserialize of Option<MlsMessageIn>: an optional
/// message read from the front of the buffer, and how many bytes it took.
#[verifier::external_body]
pub(crate) fn opt_mls_in_from_bytes(
    bytes: &[u8],
) -> (r: Result<(Option<openmls::prelude::MlsMessageIn>, usize), String>)
    ensures
        r matches Ok((_, used)) ==> used <= bytes@.len(),
{
    let mut reader = bytes;
    let message: Option<openmls::prelude::MlsMessageIn> =
        tls_codec::Deserialize::tls_deserialize(&mut reader).map_err(|e| e.to_string())?;
    Ok((message, bytes.len() - reader.len()))
}

/// Relies on tls_codec::Deserialize of RatchetTreeIn: one tree read from the
/// front of the buffer, and how many bytes it took.
#[verifier::external_body]
pub(crate) fn ratchet_tree_in_from_bytes(
    bytes: &[u8],
) -> (r: Result<(openmls::prelude::RatchetTreeIn, usize), String>)
    ensures
        r matches Ok((_, used)) ==> used <= bytes@.len(),
{
    let mut reader = bytes;
    let tree: openmls::prelude::RatchetTreeIn =
        tls_codec::Deserialize::tls_deserialize(&mut reader).map_err(|e| e.to_string())?;
    Ok((tree, bytes.len() - reader.len()))
}

/// Relies on MlsMessageIn::extract: the message's body, narrowed to the kinds
/// the protocol acts on.
#[verifier::external_body]
pub(crate) fn mls_in_extract(message: openmls::prelude::MlsMessageIn) -> MessageBody {
    match message.extract() {
        openmls::prelude::MlsMessageInBody::PublicMessage(m) => MessageBody::Public(m),
        openmls::prelude::MlsMessageInBody::Welcome(w) => MessageBody::Welcome(w),
        openmls::prelude::MlsMessageInBody::GroupInfo(gi) => MessageBody::GroupInfo(gi),
        _ => MessageBody::Other,
    }
}

/// Relies on From<RatchetTree> for RatchetTreeIn: the exported tree as an
/// incoming tree.
#[verifier::external_body]
pub(crate) fn ratchet_tree_into_in(
    tree: openmls::treesync::RatchetTree,
) -> openmls::prelude::RatchetTreeIn {
    tree.into()
}

// === Credentials and key material ===

/// Relies on Credential::new with the basic credential type: a credential
/// holding the given identity bytes.
#[verifier::external_body]
pub(crate) fn credential_new(
    identity: Vec<u8>,
) -> Result<openmls::prelude::Credential, String> {
    openmls::prelude::Credential::new(identity, openmls::prelude::CredentialType::Basic)
        .map_err(|e| e.to_string())
}

/// Relies on SignatureKeyPair::new: a fresh random key pair for the scheme.
#[verifier::external_body]
pub(crate) fn signature_keypair_new(
    scheme: openmls_traits::types::SignatureScheme,
) -> Result<openmls_basic_credential::SignatureKeyPair, String> {
    openmls_basic_credential::SignatureKeyPair::new(scheme).map_err(|e| e.to_string())
}

/// Relies on SignatureKeyPair::store: the key pair, stored in the backend's
/// key store under its public key.
#[verifier::external_body]
pub(crate) fn signature_keypair_store(
    key_pair: &openmls_basic_credential::SignatureKeyPair,
    backend: &openmls_rust_crypto::OpenMlsRustCrypto,
) -> Result<(), String> {
    key_pair.store(openmls_traits::OpenMlsCryptoProvider::key_store(backend)).map_err(
        |e| e.to_string(),
    )
}

/// Relies on SignatureKeyPair::to_public_vec: the public half of the pair.
#[verifier::external_body]
pub(crate) fn signature_keypair_public(
    key_pair: &openmls_basic_credential::SignatureKeyPair,
) -> Vec<u8> {
    key_pair.to_public_vec()
}

/// Relies on CredentialWithKey being a pair of credential and public key.
#[verifier::external_body]
pub(crate) fn credential_with_key(
    credential: openmls::prelude::Credential,
    signature_key: Vec<u8>,
) -> openmls::prelude::CredentialWithKey {
    openmls::prelude::CredentialWithKey { credential, signature_key: signature_key.into() }
}

/// Relies on CredentialWithKey's signature_key field: the bytes of the
/// member's public signature key.
#[verifier::external_body]
pub(crate) fn credential_signature_key_bytes(
    credential: &openmls::prelude::CredentialWithKey,
) -> Vec<u8> {
    credential.signature_key.as_slice().to_vec()
}

/// Relies on KeyPackage::builder and KeyPackageBuilder::build: a key package
/// for the ciphersuite, bound to the credential and signed with the key pair.
#[verifier::external_body]
pub(crate) fn key_package_build(
    ciphersuite: openmls_traits::types::Ciphersuite,
    backend: &openmls_rust_crypto::OpenMlsRustCrypto,
    signer: &openmls_basic_credential::SignatureKeyPair,
    credential: openmls::prelude::CredentialWithKey,
) -> Result<openmls::prelude::KeyPackage, String> {
    openmls::prelude::KeyPackage::builder()
        .build(
            openmls::prelude::CryptoConfig::with_default_version(ciphersuite),
            backend,
            signer,
            credential,
        )
        .map_err(|e| e.to_string())
}

} // verus!
