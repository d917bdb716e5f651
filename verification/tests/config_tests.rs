use sequencer_catchup::config::ExecutionType;
use sequencer_catchup::config::HotShotConfig;
use sequencer_catchup::config::PeerConfig;
use sequencer_catchup::config::PubKey;
use sequencer_catchup::config::PublicHotShotConfig;
use sequencer_catchup::config::PublicValidatorConfig;
use sequencer_catchup::config::StateKeyPair;
use sequencer_catchup::config::ValidatorConfig;

fn sample_validator_config() -> ValidatorConfig {
    ValidatorConfig {
        public_key: PubKey { id: 11 },
        private_key: vec![0xde, 0xad, 0xbe, 0xef],
        stake_value: 1,
        state_key_pair: StateKeyPair {
            sign_key: vec![0x01, 0x02, 0x03],
            ver_key: "SCHNORR_VER_KEY~sample".to_string(),
        },
        is_da: true,
    }
}

fn sample_hotshot_config() -> HotShotConfig {
    HotShotConfig {
        execution_type: ExecutionType::Continuous,
        start_threshold: (2, 3),
        num_nodes_with_stake: 5,
        num_nodes_without_stake: 1,
        known_nodes_with_stake: vec![
            PeerConfig { public_key: PubKey { id: 11 }, stake: 1 },
            PeerConfig { public_key: PubKey { id: 12 }, stake: 2 },
        ],
        known_da_nodes: vec![PeerConfig { public_key: PubKey { id: 11 }, stake: 1 }],
        known_nodes_without_stake: vec![PubKey { id: 30 }],
        my_own_validator_config: sample_validator_config(),
        da_staked_committee_size: 1,
        da_non_staked_committee_size: 0,
        fixed_leader_for_gpuvid: 1,
        next_view_timeout: 12_000,
        view_sync_timeout: 10_000,
        timeout_ratio: (11, 10),
        round_start_delay: 1,
        start_delay: 500,
        num_bootstrap: 4,
        builder_timeout: 2_000,
        data_request_delay: 5_000,
        builder_urls: vec!["https://builder.example".to_string()],
        start_proposing_view: 0,
        stop_proposing_view: u64::MAX,
        start_voting_view: 0,
        stop_voting_view: u64::MAX,
    }
}

#[test]
fn validator_projection_redacts_secrets() {
    let v = sample_validator_config();
    let p = PublicValidatorConfig::from(v);
    assert_eq!(p.private_key, "*****");
    assert_eq!(p.state_key_pair, "*****");
    assert_eq!(p.state_public_key, "SCHNORR_VER_KEY~sample");
    assert_eq!(p.public_key, PubKey { id: 11 });
    assert_eq!(p.stake_value, 1);
    assert!(p.is_da);
}

#[test]
fn validator_projection_same_for_any_secret() {
    let mut a = sample_validator_config();
    let mut b = sample_validator_config();
    a.private_key = vec![1, 1, 1];
    b.private_key = vec![2, 2, 2];
    a.state_key_pair.sign_key = vec![9];
    b.state_key_pair.sign_key = vec![8, 8];
    let pa = PublicValidatorConfig::from(a);
    let pb = PublicValidatorConfig::from(b);
    assert_eq!(pa.public_key, pb.public_key);
    assert_eq!(pa.stake_value, pb.stake_value);
    assert_eq!(pa.is_da, pb.is_da);
    assert_eq!(pa.private_key, pb.private_key);
    assert_eq!(pa.state_public_key, pb.state_public_key);
    assert_eq!(pa.state_key_pair, pb.state_key_pair);
}

#[test]
fn config_projection_visits_every_field() {
    let v = sample_hotshot_config();
    let p = PublicHotShotConfig::from(v);
    // Every field of the source is asserted on, so a field added to the
    // full configuration without extending the sanitizer shows up here as
    // well as at compile time.
    assert_eq!(p.execution_type, ExecutionType::Continuous);
    assert_eq!(p.start_threshold, (2, 3));
    assert_eq!(p.num_nodes_with_stake, 5);
    assert_eq!(p.num_nodes_without_stake, 1);
    assert_eq!(
        p.known_nodes_with_stake,
        vec![
            PeerConfig { public_key: PubKey { id: 11 }, stake: 1 },
            PeerConfig { public_key: PubKey { id: 12 }, stake: 2 },
        ]
    );
    assert_eq!(
        p.known_da_nodes,
        vec![PeerConfig { public_key: PubKey { id: 11 }, stake: 1 }]
    );
    assert_eq!(p.known_nodes_without_stake, vec![PubKey { id: 30 }]);
    assert_eq!(p.my_own_validator_config.public_key, PubKey { id: 11 });
    assert_eq!(p.my_own_validator_config.private_key, "*****");
    assert_eq!(p.my_own_validator_config.state_key_pair, "*****");
    assert_eq!(p.my_own_validator_config.state_public_key, "SCHNORR_VER_KEY~sample");
    assert_eq!(p.da_staked_committee_size, 1);
    assert_eq!(p.da_non_staked_committee_size, 0);
    assert_eq!(p.fixed_leader_for_gpuvid, 1);
    assert_eq!(p.next_view_timeout, 12_000);
    assert_eq!(p.view_sync_timeout, 10_000);
    assert_eq!(p.timeout_ratio, (11, 10));
    assert_eq!(p.round_start_delay, 1);
    assert_eq!(p.start_delay, 500);
    assert_eq!(p.num_bootstrap, 4);
    assert_eq!(p.builder_timeout, 2_000);
    assert_eq!(p.data_request_delay, 5_000);
    assert_eq!(p.builder_urls, vec!["https://builder.example".to_string()]);
    assert_eq!(p.start_proposing_view, 0);
    assert_eq!(p.stop_proposing_view, u64::MAX);
    assert_eq!(p.start_voting_view, 0);
    assert_eq!(p.stop_voting_view, u64::MAX);
}

#[test]
fn config_projection_contains_no_secret_bytes() {
    let v = sample_hotshot_config();
    let secret = v.my_own_validator_config.private_key.clone();
    let sign_key = v.my_own_validator_config.state_key_pair.sign_key.clone();
    let p = PublicHotShotConfig::from(v);
    let secret_hex: String = secret.iter().map(|b| format!("{b:02x}")).collect();
    let sign_hex: String = sign_key.iter().map(|b| format!("{b:02x}")).collect();
    let exposed = format!(
        "{} {} {}",
        p.my_own_validator_config.private_key,
        p.my_own_validator_config.state_key_pair,
        p.my_own_validator_config.state_public_key,
    );
    assert!(!exposed.contains(&secret_hex));
    assert!(!exposed.contains(&sign_hex));
}
