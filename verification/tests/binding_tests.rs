use sequencer_catchup::CatchupError;
use sequencer_catchup::data_source::BackendKind;
use sequencer_catchup::data_source::DataSourceOptions;
use sequencer_catchup::data_source::FsOptions;
use sequencer_catchup::data_source::Options;
use sequencer_catchup::data_source::Query;
use sequencer_catchup::data_source::QueryModule;
use sequencer_catchup::data_source::SequencerDataSource;
use sequencer_catchup::data_source::Snapshot;
use sequencer_catchup::data_source::SqlOptions;
use sequencer_catchup::data_source::Store;
use sequencer_catchup::data_source::create_data_source;
use sequencer_catchup::catchup::AccountQueryData;
use sequencer_catchup::catchup::BlocksFrontier;
use sequencer_catchup::provider::provider;

fn sql_options() -> SqlOptions {
    SqlOptions {
        uri: "postgres://localhost/sequencer".to_string(),
        reachable: true,
        persisted: Store {
            snapshots: vec![Snapshot {
                accounts: vec![(100, AccountQueryData { balance: 10, proof: vec![1] })],
                frontier: BlocksFrontier { path: vec![2] },
            }],
            chain_configs: vec![],
        },
    }
}

#[test]
fn sql_options_yield_sql_backed_read_api() {
    let ds = create_data_source(sql_options(), provider(vec![]), false).unwrap();
    assert_eq!(ds.kind(), BackendKind::Sql);
}

#[test]
fn fs_options_yield_fs_backed_read_api() {
    let opt = FsOptions { path: "/var/lib/sequencer".to_string(), reachable: true };
    let ds = create_data_source(opt, provider(vec![]), false).unwrap();
    assert_eq!(ds.kind(), BackendKind::Fs);
}

#[test]
fn create_without_reset_keeps_persisted_state() {
    let ds = create_data_source(sql_options(), provider(vec![]), false).unwrap();
    assert_eq!(ds.store.snapshots.len(), 1);
    assert_eq!(ds.store.snapshots[0].accounts[0].0, 100);
}

#[test]
fn create_with_reset_discards_persisted_state() {
    let ds = create_data_source(sql_options(), provider(vec![]), true).unwrap();
    assert!(ds.store.snapshots.is_empty());
    assert!(ds.store.chain_configs.is_empty());
}

#[test]
fn unreachable_store_fails_initialization() {
    let mut opt = sql_options();
    opt.reachable = false;
    let r = create_data_source(opt, provider(vec![]), false);
    assert!(matches!(r, Err(CatchupError::InitializationFailure)));
    assert_eq!(
        CatchupError::InitializationFailure.message(),
        "could not initialize the persistence backend"
    );

    let fs = FsOptions { path: "/var/lib/sequencer".to_string(), reachable: false };
    let r = create_data_source(fs, provider(vec![]), false);
    assert!(matches!(r, Err(CatchupError::InitializationFailure)));
}

#[test]
fn enable_query_module_mounts_matching_backend() {
    let base = Options { http_port: 8080, query: None };
    let mounted = sql_options().enable_query_module(
        base,
        Query { peers: vec!["https://peer.example".to_string()] },
    );
    assert_eq!(mounted.http_port, 8080);
    match mounted.query {
        Some(QueryModule::Sql(q, o)) => {
            assert_eq!(q.peers, vec!["https://peer.example".to_string()]);
            assert_eq!(o.uri, "postgres://localhost/sequencer");
        },
        _ => panic!("expected a SQL-backed query module"),
    }

    let base = Options { http_port: 9090, query: None };
    let fs = FsOptions { path: "/var/lib/sequencer".to_string(), reachable: true };
    let mounted = fs.enable_query_module(base, Query { peers: vec![] });
    assert_eq!(mounted.http_port, 9090);
    assert!(matches!(mounted.query, Some(QueryModule::Fs(_, _))));
}
