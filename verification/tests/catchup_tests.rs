use sequencer_catchup::CatchupError;
use sequencer_catchup::catchup::AccountQueryData;
use sequencer_catchup::catchup::BlocksFrontier;
use sequencer_catchup::catchup::CatchupDataSource;
use sequencer_catchup::catchup::ChainConfig;
use sequencer_catchup::catchup::ChainConfigCommitment;
use sequencer_catchup::catchup::MetricsDataSource;
use sequencer_catchup::data_source::Snapshot;
use sequencer_catchup::data_source::SqlDataSource;
use sequencer_catchup::data_source::Store;
use sequencer_catchup::provider::Provider;

fn capable_source() -> SqlDataSource {
    SqlDataSource {
        store: Store {
            snapshots: vec![
                Snapshot {
                    accounts: vec![
                        (100, AccountQueryData { balance: 10, proof: vec![1, 2] }),
                        (200, AccountQueryData { balance: 20, proof: vec![3] }),
                    ],
                    frontier: BlocksFrontier { path: vec![7] },
                },
                Snapshot {
                    accounts: vec![(100, AccountQueryData { balance: 15, proof: vec![4, 5] })],
                    frontier: BlocksFrontier { path: vec![7, 8] },
                },
            ],
            chain_configs: vec![
                (
                    ChainConfigCommitment { value: 0xc0ffee },
                    ChainConfig { chain_id: 1, max_block_size: 30_000, base_fee: 2 },
                ),
            ],
        },
        provider: Provider { clients: vec![] },
    }
}

#[test]
fn metrics_source_unsupported_for_all_inputs() {
    let ds = MetricsDataSource {};
    for height in [0u64, 1, u64::MAX] {
        for view_number in [0u64, 3, u64::MAX] {
            assert!(matches!(
                ds.get_account(height, view_number, 100),
                Err(CatchupError::Unsupported)
            ));
            assert!(matches!(
                ds.get_frontier(height, view_number),
                Err(CatchupError::Unsupported)
            ));
        }
    }
    assert!(matches!(
        ds.get_chain_config(ChainConfigCommitment { value: 0xc0ffee }),
        Err(CatchupError::Unsupported)
    ));
    assert_eq!(
        CatchupError::Unsupported.message(),
        "merklized state catchup is not supported for this data source"
    );
}

#[test]
fn account_matches_committed_state_at_height() {
    let ds = capable_source();
    let d0 = ds.get_account(0, 5, 100).unwrap();
    assert_eq!(d0.balance, 10);
    assert_eq!(d0.proof, vec![1, 2]);
    let d1 = ds.get_account(1, 6, 100).unwrap();
    assert_eq!(d1.balance, 15);
    assert_eq!(d1.proof, vec![4, 5]);
    let d2 = ds.get_account(0, 5, 200).unwrap();
    assert_eq!(d2.balance, 20);
    assert_eq!(d2.proof, vec![3]);
}

#[test]
fn height_beyond_decided_head_not_found() {
    let ds = capable_source();
    assert!(matches!(ds.get_account(2, 9, 100), Err(CatchupError::NotFound)));
    assert!(matches!(ds.get_account(u64::MAX, 9, 100), Err(CatchupError::NotFound)));
    assert!(matches!(ds.get_frontier(2, 9), Err(CatchupError::NotFound)));
}

#[test]
fn absent_account_not_found() {
    let ds = capable_source();
    assert!(matches!(ds.get_account(1, 6, 200), Err(CatchupError::NotFound)));
    assert!(matches!(ds.get_account(0, 5, 999), Err(CatchupError::NotFound)));
}

#[test]
fn account_result_independent_of_view() {
    let ds = capable_source();
    let a = ds.get_account(0, 3, 100).unwrap();
    let b = ds.get_account(0, 4, 100).unwrap();
    assert_eq!(a.balance, b.balance);
    assert_eq!(a.proof, b.proof);
}

#[test]
fn frontier_matches_snapshot() {
    let ds = capable_source();
    assert_eq!(ds.get_frontier(0, 5).unwrap().path, vec![7]);
    assert_eq!(ds.get_frontier(1, 6).unwrap().path, vec![7, 8]);
}

#[test]
fn chain_config_by_commitment_idempotent() {
    let ds = capable_source();
    let c = ChainConfigCommitment { value: 0xc0ffee };
    let first = ds.get_chain_config(c);
    let second = ds.get_chain_config(c);
    assert_eq!(first, second);
    let cfg = first.unwrap();
    assert_eq!(cfg, ChainConfig { chain_id: 1, max_block_size: 30_000, base_fee: 2 });
}

#[test]
fn unknown_commitment_not_found() {
    let ds = capable_source();
    let r = ds.get_chain_config(ChainConfigCommitment { value: 0xdead });
    assert!(matches!(r, Err(CatchupError::NotFound)));
    assert_eq!(
        CatchupError::NotFound.message(),
        "requested snapshot is not present in this data source"
    );
}
