//! Public projections of the node's consensus configuration.
//!
//! The node exposes its configuration over a read endpoint. The full
//! configuration holds secret key material, so what is exposed is a redacted
//! projection: every field of the source structure is visited exactly once
//! and either carried through unchanged or replaced by a fixed redaction
//! marker. The exhaustive destructuring makes adding a field to a source
//! structure a compile error here, so a new secret field can never slip
//! through unnoticed.

use vstd::prelude::*;

verus! {

/// A consensus (staking) public key. Public data, carried through the
/// sanitizer unchanged.
#[derive(Clone, Copy, Debug, PartialEq, Eq, Structural)]
pub struct PubKey {
    pub id: u64,
}

/// A light-client state signing key pair.
///
/// `sign_key` is raw secret material and must never appear in a public
/// projection. `ver_key` is the serialized public verification key: the one
/// identity artifact of the pair that may be exposed.
pub struct StateKeyPair {
    pub sign_key: Vec<u8>,
    pub ver_key: String,
}

/// One peer's public entry in the stake table.
#[derive(Clone, Copy, Debug, PartialEq, Eq, Structural)]
pub struct PeerConfig {
    pub public_key: PubKey,
    pub stake: u64,
}

/// Whether consensus runs continuously or in single increments.
#[derive(Clone, Copy, Debug, PartialEq, Eq, Structural)]
pub enum ExecutionType {
    Continuous,
    Incremental,
}

/// The full validator configuration, secret key material included.
pub struct ValidatorConfig {
    pub public_key: PubKey,
    /// Raw consensus signing key bytes. Never exposed.
    pub private_key: Vec<u8>,
    pub stake_value: u64,
    pub state_key_pair: StateKeyPair,
    pub is_da: bool,
}

/// The mathematical value of a redacted validator configuration.
pub struct ValidatorProjection {
    pub public_key: PubKey,
    pub stake_value: u64,
    pub is_da: bool,
    pub private_key: Seq<char>,
    pub state_public_key: Seq<char>,
    pub state_key_pair: Seq<char>,
}

/// The redacted public validator configuration. Private key and state key
/// pair are excluded for security reasons and replaced by a fixed marker.
pub struct PublicValidatorConfig {
    pub public_key: PubKey,
    pub stake_value: u64,
    pub is_da: bool,
    pub private_key: &'static str,
    pub state_public_key: String,
    pub state_key_pair: &'static str,
}

impl View for PublicValidatorConfig {
    type V = ValidatorProjection;

    open spec fn view(&self) -> ValidatorProjection {
        ValidatorProjection {
            public_key: self.public_key,
            stake_value: self.stake_value,
            is_da: self.is_da,
            private_key: self.private_key@,
            state_public_key: self.state_public_key@,
            state_key_pair: self.state_key_pair@,
        }
    }
}

/// What the sanitizer produces for a given validator configuration: the
/// public fields carried through, both pieces of secret key material
/// replaced by the fixed marker, and the serialized verification key as the
/// sole surviving identity artifact.
pub open spec fn spec_sanitize_validator(v: ValidatorConfig) -> ValidatorProjection {
    ValidatorProjection {
        public_key: v.public_key,
        stake_value: v.stake_value,
        is_da: v.is_da,
        private_key: "*****"@,
        state_public_key: v.state_key_pair.ver_key@,
        state_key_pair: "*****"@,
    }
}

impl PublicValidatorConfig {
    /// Redact a full validator configuration.
    ///
    /// Every field of the source is destructured explicitly, so a field
    /// added to [`ValidatorConfig`] fails to compile here rather than
    /// leaking silently.
    pub fn from(v: ValidatorConfig) -> (r: Self)
        ensures
            r@ == spec_sanitize_validator(v),
    {
        let ValidatorConfig {
            public_key,
            private_key: _,
            stake_value,
            state_key_pair,
            is_da,
        } = v;

        let StateKeyPair { sign_key: _, ver_key } = state_key_pair;

        Self {
            public_key,
            stake_value,
            is_da,
            state_public_key: ver_key,
            private_key: "*****",
            state_key_pair: "*****",
        }
    }
}

/// The projection replaces both secret fields with the fixed marker and
/// keeps exactly the serialized verification key as identity.
pub proof fn lemma_sanitizer_redacts(v: ValidatorConfig)
    ensures
        spec_sanitize_validator(v).private_key == "*****"@,
        spec_sanitize_validator(v).state_key_pair == "*****"@,
        spec_sanitize_validator(v).state_public_key == v.state_key_pair.ver_key@,
{
}

/// The projection is independent of the secret key material: two
/// configurations that agree on the public fields produce the same
/// projection, whatever their private key bytes and signing key hold. No
/// part of a secret can therefore reach the projection.
pub proof fn lemma_sanitizer_ignores_secrets(v1: ValidatorConfig, v2: ValidatorConfig)
    requires
        v1.public_key == v2.public_key,
        v1.stake_value == v2.stake_value,
        v1.is_da == v2.is_da,
        v1.state_key_pair.ver_key == v2.state_key_pair.ver_key,
    ensures
        spec_sanitize_validator(v1) == spec_sanitize_validator(v2),
{
}

/// The full consensus configuration, as the node itself runs with it.
/// `my_own_validator_config` holds secret key material.
pub struct HotShotConfig {
    pub execution_type: ExecutionType,
    pub start_threshold: (u64, u64),
    /// Total nodes with stake; must be at least one.
    pub num_nodes_with_stake: usize,
    pub num_nodes_without_stake: usize,
    pub known_nodes_with_stake: Vec<PeerConfig>,
    pub known_da_nodes: Vec<PeerConfig>,
    pub known_nodes_without_stake: Vec<PubKey>,
    pub my_own_validator_config: ValidatorConfig,
    pub da_staked_committee_size: usize,
    pub da_non_staked_committee_size: usize,
    pub fixed_leader_for_gpuvid: usize,
    pub next_view_timeout: u64,
    /// View-sync phase timeout, in milliseconds.
    pub view_sync_timeout: u64,
    pub timeout_ratio: (u64, u64),
    pub round_start_delay: u64,
    pub start_delay: u64,
    pub num_bootstrap: usize,
    /// Builder request timeout, in milliseconds.
    pub builder_timeout: u64,
    /// Data request delay, in milliseconds.
    pub data_request_delay: u64,
    /// Builder base addresses; must hold at least one entry.
    pub builder_urls: Vec<String>,
    pub start_proposing_view: u64,
    pub stop_proposing_view: u64,
    pub start_voting_view: u64,
    pub stop_voting_view: u64,
}

impl HotShotConfig {
    /// Structural well-formedness: at least one staked node and at least
    /// one builder address.
    pub open spec fn wf(&self) -> bool {
        &&& self.num_nodes_with_stake >= 1
        &&& self.builder_urls@.len() >= 1
    }
}

/// The mathematical value of a redacted consensus configuration.
pub struct ConfigProjection {
    pub execution_type: ExecutionType,
    pub start_threshold: (u64, u64),
    pub num_nodes_with_stake: usize,
    pub num_nodes_without_stake: usize,
    pub known_nodes_with_stake: Seq<PeerConfig>,
    pub known_da_nodes: Seq<PeerConfig>,
    pub known_nodes_without_stake: Seq<PubKey>,
    pub my_own_validator_config: ValidatorProjection,
    pub da_staked_committee_size: usize,
    pub da_non_staked_committee_size: usize,
    pub fixed_leader_for_gpuvid: usize,
    pub next_view_timeout: u64,
    pub view_sync_timeout: u64,
    pub timeout_ratio: (u64, u64),
    pub round_start_delay: u64,
    pub start_delay: u64,
    pub num_bootstrap: usize,
    pub builder_timeout: u64,
    pub data_request_delay: u64,
    pub builder_urls: Seq<Seq<char>>,
    pub start_proposing_view: u64,
    pub stop_proposing_view: u64,
    pub start_voting_view: u64,
    pub stop_voting_view: u64,
}

/// The redacted public consensus configuration, safe for exposure over a
/// read endpoint: identical to the full configuration except that the
/// validator identity sub-object is redacted.
pub struct PublicHotShotConfig {
    pub execution_type: ExecutionType,
    pub start_threshold: (u64, u64),
    pub num_nodes_with_stake: usize,
    pub num_nodes_without_stake: usize,
    pub known_nodes_with_stake: Vec<PeerConfig>,
    pub known_da_nodes: Vec<PeerConfig>,
    pub known_nodes_without_stake: Vec<PubKey>,
    pub my_own_validator_config: PublicValidatorConfig,
    pub da_staked_committee_size: usize,
    pub da_non_staked_committee_size: usize,
    pub fixed_leader_for_gpuvid: usize,
    pub next_view_timeout: u64,
    pub view_sync_timeout: u64,
    pub timeout_ratio: (u64, u64),
    pub round_start_delay: u64,
    pub start_delay: u64,
    pub num_bootstrap: usize,
    pub builder_timeout: u64,
    pub data_request_delay: u64,
    pub builder_urls: Vec<String>,
    pub start_proposing_view: u64,
    pub stop_proposing_view: u64,
    pub start_voting_view: u64,
    pub stop_voting_view: u64,
}

impl View for PublicHotShotConfig {
    type V = ConfigProjection;

    open spec fn view(&self) -> ConfigProjection {
        ConfigProjection {
            execution_type: self.execution_type,
            start_threshold: self.start_threshold,
            num_nodes_with_stake: self.num_nodes_with_stake,
            num_nodes_without_stake: self.num_nodes_without_stake,
            known_nodes_with_stake: self.known_nodes_with_stake@,
            known_da_nodes: self.known_da_nodes@,
            known_nodes_without_stake: self.known_nodes_without_stake@,
            my_own_validator_config: self.my_own_validator_config@,
            da_staked_committee_size: self.da_staked_committee_size,
            da_non_staked_committee_size: self.da_non_staked_committee_size,
            fixed_leader_for_gpuvid: self.fixed_leader_for_gpuvid,
            next_view_timeout: self.next_view_timeout,
            view_sync_timeout: self.view_sync_timeout,
            timeout_ratio: self.timeout_ratio,
            round_start_delay: self.round_start_delay,
            start_delay: self.start_delay,
            num_bootstrap: self.num_bootstrap,
            builder_timeout: self.builder_timeout,
            data_request_delay: self.data_request_delay,
            builder_urls: self.builder_urls.deep_view(),
            start_proposing_view: self.start_proposing_view,
            stop_proposing_view: self.stop_proposing_view,
            start_voting_view: self.start_voting_view,
            stop_voting_view: self.stop_voting_view,
        }
    }
}

/// What the sanitizer produces for a full consensus configuration: every
/// field carried through, except the validator identity, which is redacted.
pub open spec fn spec_sanitize_config(v: HotShotConfig) -> ConfigProjection {
    ConfigProjection {
        execution_type: v.execution_type,
        start_threshold: v.start_threshold,
        num_nodes_with_stake: v.num_nodes_with_stake,
        num_nodes_without_stake: v.num_nodes_without_stake,
        known_nodes_with_stake: v.known_nodes_with_stake@,
        known_da_nodes: v.known_da_nodes@,
        known_nodes_without_stake: v.known_nodes_without_stake@,
        my_own_validator_config: spec_sanitize_validator(v.my_own_validator_config),
        da_staked_committee_size: v.da_staked_committee_size,
        da_non_staked_committee_size: v.da_non_staked_committee_size,
        fixed_leader_for_gpuvid: v.fixed_leader_for_gpuvid,
        next_view_timeout: v.next_view_timeout,
        view_sync_timeout: v.view_sync_timeout,
        timeout_ratio: v.timeout_ratio,
        round_start_delay: v.round_start_delay,
        start_delay: v.start_delay,
        num_bootstrap: v.num_bootstrap,
        builder_timeout: v.builder_timeout,
        data_request_delay: v.data_request_delay,
        builder_urls: v.builder_urls.deep_view(),
        start_proposing_view: v.start_proposing_view,
        stop_proposing_view: v.stop_proposing_view,
        start_voting_view: v.start_voting_view,
        stop_voting_view: v.stop_voting_view,
    }
}

impl PublicHotShotConfig {
    /// Redact a full consensus configuration.
    ///
    /// All fields are destructured from the source so that a field added
    /// to [`HotShotConfig`] is a compile error here: every field must be handled
    /// explicitly, and an unnoticed new secret field would be a security
    /// leak, not a cosmetic bug.
    pub fn from(v: HotShotConfig) -> (r: Self)
        ensures
            r@ == spec_sanitize_config(v),
    {
        let HotShotConfig {
            execution_type,
            start_threshold,
            num_nodes_with_stake,
            num_nodes_without_stake,
            known_nodes_with_stake,
            known_da_nodes,
            known_nodes_without_stake,
            my_own_validator_config,
            da_staked_committee_size,
            da_non_staked_committee_size,
            fixed_leader_for_gpuvid,
            next_view_timeout,
            view_sync_timeout,
            timeout_ratio,
            round_start_delay,
            start_delay,
            num_bootstrap,
            builder_timeout,
            data_request_delay,
            builder_urls,
            start_proposing_view,
            stop_proposing_view,
            start_voting_view,
            stop_voting_view,
        } = v;

        Self {
            execution_type,
            start_threshold,
            num_nodes_with_stake,
            num_nodes_without_stake,
            known_nodes_with_stake,
            known_da_nodes,
            known_nodes_without_stake,
            my_own_validator_config: PublicValidatorConfig::from(my_own_validator_config),
            da_staked_committee_size,
            da_non_staked_committee_size,
            fixed_leader_for_gpuvid,
            next_view_timeout,
            view_sync_timeout,
            timeout_ratio,
            round_start_delay,
            start_delay,
            num_bootstrap,
            builder_timeout,
            data_request_delay,
            builder_urls,
            start_proposing_view,
            stop_proposing_view,
            start_voting_view,
            stop_voting_view,
        }
    }
}

/// The configuration projection is independent of the secret key material
/// of the node's own validator identity: two full configurations that agree
/// on everything public produce the same projection.
pub proof fn lemma_config_sanitizer_ignores_secrets(v1: HotShotConfig, v2: HotShotConfig)
    requires
        v1.execution_type == v2.execution_type,
        v1.start_threshold == v2.start_threshold,
        v1.num_nodes_with_stake == v2.num_nodes_with_stake,
        v1.num_nodes_without_stake == v2.num_nodes_without_stake,
        v1.known_nodes_with_stake == v2.known_nodes_with_stake,
        v1.known_da_nodes == v2.known_da_nodes,
        v1.known_nodes_without_stake == v2.known_nodes_without_stake,
        v1.my_own_validator_config.public_key == v2.my_own_validator_config.public_key,
        v1.my_own_validator_config.stake_value == v2.my_own_validator_config.stake_value,
        v1.my_own_validator_config.is_da == v2.my_own_validator_config.is_da,
        v1.my_own_validator_config.state_key_pair.ver_key
            == v2.my_own_validator_config.state_key_pair.ver_key,
        v1.da_staked_committee_size == v2.da_staked_committee_size,
        v1.da_non_staked_committee_size == v2.da_non_staked_committee_size,
        v1.fixed_leader_for_gpuvid == v2.fixed_leader_for_gpuvid,
        v1.next_view_timeout == v2.next_view_timeout,
        v1.view_sync_timeout == v2.view_sync_timeout,
        v1.timeout_ratio == v2.timeout_ratio,
        v1.round_start_delay == v2.round_start_delay,
        v1.start_delay == v2.start_delay,
        v1.num_bootstrap == v2.num_bootstrap,
        v1.builder_timeout == v2.builder_timeout,
        v1.data_request_delay == v2.data_request_delay,
        v1.builder_urls == v2.builder_urls,
        v1.start_proposing_view == v2.start_proposing_view,
        v1.stop_proposing_view == v2.stop_proposing_view,
        v1.start_voting_view == v2.start_voting_view,
        v1.stop_voting_view == v2.stop_voting_view,
    ensures
        spec_sanitize_config(v1) == spec_sanitize_config(v2),
{
}

/// Sanitizing preserves well-formedness in the projection: the sizing
/// fields and peer lists come through unchanged, so a well-formed
/// configuration projects to one with a staked node and a builder address.
pub proof fn lemma_sanitizer_preserves_shape(v: HotShotConfig)
    ensures
        spec_sanitize_config(v).num_nodes_with_stake == v.num_nodes_with_stake,
        spec_sanitize_config(v).known_nodes_with_stake == v.known_nodes_with_stake@,
        spec_sanitize_config(v).builder_urls.len() == v.builder_urls@.len(),
        v.wf() ==> spec_sanitize_config(v).num_nodes_with_stake >= 1 && spec_sanitize_config(
            v,
        ).builder_urls.len() >= 1,
{
    assert(v.builder_urls.deep_view().len() == v.builder_urls@.len());
}

} // verus!
