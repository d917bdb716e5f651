//! Backend options binding and the two concrete data sources.
//!
//! A persistence backend is bound to exactly one read-API implementation
//! type at configuration time: the binding is an associated type, so no two
//! backend kinds can share a read-API type and the pairing cannot be
//! changed at runtime. The SQL-backed kind retains authenticated trees and
//! serves catch-up; the filesystem-backed kind does not and fails every
//! catch-up operation as unsupported.

use vstd::prelude::*;

use crate::CatchupError;
use crate::catchup::AccountQueryData;
use crate::catchup::AccountQueryDataModel;
use crate::catchup::BlocksFrontier;
use crate::catchup::CatchupDataSource;
use crate::catchup::ChainConfig;
use crate::catchup::ChainConfigCommitment;
use crate::catchup::FrontierModel;
use crate::catchup::account_result_model;
use crate::catchup::frontier_result_model;
use crate::provider::Provider;

verus! {

/// Options of the query module itself.
pub struct Query {
    /// Peer base addresses the query service may fetch missing data from.
    pub peers: Vec<String>,
}

/// The query module, mounted with the options of exactly one backend kind.
pub enum QueryModule {
    Sql(Query, SqlOptions),
    Fs(Query, FsOptions),
}

/// Top-level service options onto which a query module can be mounted.
pub struct Options {
    pub http_port: u16,
    pub query: Option<QueryModule>,
}

impl Options {
    /// Mount a SQL-backed query module onto these options.
    pub fn query_sql(self, query: Query, opt: SqlOptions) -> (r: Options)
        ensures
            r == (Options { http_port: self.http_port, query: Some(QueryModule::Sql(query, opt)) }),
    {
        Options { http_port: self.http_port, query: Some(QueryModule::Sql(query, opt)) }
    }

    /// Mount a filesystem-backed query module onto these options.
    pub fn query_fs(self, query: Query, opt: FsOptions) -> (r: Options)
        ensures
            r == (Options { http_port: self.http_port, query: Some(QueryModule::Fs(query, opt)) }),
    {
        Options { http_port: self.http_port, query: Some(QueryModule::Fs(query, opt)) }
    }
}

/// One decided snapshot: the account states at that height, with their
/// inclusion proofs, and the blocks-tree frontier.
pub struct Snapshot {
    /// Account states keyed by account address.
    pub accounts: Vec<(u64, AccountQueryData)>,
    pub frontier: BlocksFrontier,
}

/// The content of a backend's authenticated-tree storage: one snapshot per
/// decided height, `snapshots[h]` being the state at height `h`, and the
/// known chain configurations keyed by content commitment.
pub struct Store {
    pub snapshots: Vec<Snapshot>,
    pub chain_configs: Vec<(ChainConfigCommitment, ChainConfig)>,
}

impl Store {
    /// A store holding nothing yet.
    pub open spec fn is_empty(&self) -> bool {
        self.snapshots@.len() == 0 && self.chain_configs@.len() == 0
    }
}

/// The kind of backend a data source was constructed from.
#[derive(Clone, Copy, Debug, PartialEq, Eq, Structural)]
pub enum BackendKind {
    Sql,
    Fs,
}

/// Configuration of the SQL-backed persistence backend.
pub struct SqlOptions {
    /// Database connection address.
    pub uri: String,
    /// Whether the store at `uri` can be opened at all; models an
    /// unreachable or corrupt database.
    pub reachable: bool,
    /// The authenticated-tree content the store already holds.
    pub persisted: Store,
}

/// Configuration of the filesystem-backed persistence backend, which keeps
/// no authenticated trees.
pub struct FsOptions {
    /// Storage directory path.
    pub path: String,
    /// Whether the directory can be opened at all.
    pub reachable: bool,
}

/// The read API served from SQL-backed storage. It retains authenticated
/// trees, so it serves catch-up.
pub struct SqlDataSource {
    pub store: Store,
    pub provider: Provider,
}

/// The read API served from filesystem-backed storage. It keeps no
/// authenticated trees, so every catch-up operation is unsupported.
pub struct FsDataSource {
    pub provider: Provider,
}

/// Configuration-time binding of a backend to its one read-API type.
///
/// The associated type guarantees statically that this backend
/// configuration can only ever construct its matching read-API
/// implementation, and the `Options = Self` bound on that type closes the
/// loop: the pairing is one-to-one and fixed before the node starts.
pub trait DataSourceOptions: Sized {
    type DataSource: SequencerDataSource<Options = Self>;

    /// The options produced by mounting a query module for this backend.
    spec fn spec_enable(self, opt: Options, query: Query) -> Options;

    /// Mount a query module backed by this backend onto top-level options.
    fn enable_query_module(self, opt: Options, query: Query) -> (r: Options)
        ensures
            r == self.spec_enable(opt, query),
    ;
}

/// A data source with sequencer-specific functionality, constructed from
/// the options of its one backend kind. The `Options = Self` equation on
/// [`DataSourceOptions::DataSource`] fixes the pairing one-to-one.
///
/// The assembled read API also combines historical availability, node and
/// status queries, and live update ingestion, with a versioned read
/// discipline; those capability groups are delegated to the query service
/// and not redefined by this layer. What is bound and specified here is
/// construction and the backend pairing.
pub trait SequencerDataSource: Sized {
    type Options;

    /// Exactly what `create` must produce: when construction succeeds, when
    /// it fails, and what the instance holds in either case.
    spec fn post_create(
        opt: Self::Options,
        provider: Provider,
        reset: bool,
        r: Result<Self, CatchupError>,
    ) -> bool;

    /// Instantiate a data source from configuration options.
    ///
    /// `reset` irreversibly discards any existing persisted state before
    /// initialization; it must be explicit and is never a default. A failed
    /// construction surfaces as a typed error; no partially-initialized
    /// instance is ever returned.
    fn create(opt: Self::Options, provider: Provider, reset: bool) -> (r: Result<
        Self,
        CatchupError,
    >)
        ensures
            Self::post_create(opt, provider, reset, r),
    ;

    /// The backend kind this read-API type is bound to.
    spec fn spec_kind() -> BackendKind;

    /// Report which backend kind this instance was constructed from.
    fn kind(&self) -> (k: BackendKind)
        ensures
            k == Self::spec_kind(),
    ;
}

impl DataSourceOptions for SqlOptions {
    type DataSource = SqlDataSource;

    open spec fn spec_enable(self, opt: Options, query: Query) -> Options {
        Options { http_port: opt.http_port, query: Some(QueryModule::Sql(query, self)) }
    }

    fn enable_query_module(self, opt: Options, query: Query) -> (r: Options) {
        opt.query_sql(query, self)
    }
}

impl DataSourceOptions for FsOptions {
    type DataSource = FsDataSource;

    open spec fn spec_enable(self, opt: Options, query: Query) -> Options {
        Options { http_port: opt.http_port, query: Some(QueryModule::Fs(query, self)) }
    }

    fn enable_query_module(self, opt: Options, query: Query) -> (r: Options) {
        opt.query_fs(query, self)
    }
}

impl SequencerDataSource for SqlDataSource {
    type Options = SqlOptions;

    open spec fn post_create(
        opt: SqlOptions,
        provider: Provider,
        reset: bool,
        r: Result<Self, CatchupError>,
    ) -> bool {
        match r {
            Ok(ds) => {
                &&& opt.reachable
                &&& ds.provider == provider
                &&& if reset {
                    ds.store.is_empty()
                } else {
                    ds.store == opt.persisted
                }
            },
            Err(e) => !opt.reachable && e == CatchupError::InitializationFailure,
        }
    }

    fn create(opt: SqlOptions, provider: Provider, reset: bool) -> (r: Result<
        Self,
        CatchupError,
    >) {
        if !opt.reachable {
            return Err(CatchupError::InitializationFailure);
        }
        let store = if reset {
            Store { snapshots: Vec::new(), chain_configs: Vec::new() }
        } else {
            opt.persisted
        };
        Ok(SqlDataSource { store, provider })
    }

    open spec fn spec_kind() -> BackendKind {
        BackendKind::Sql
    }

    fn kind(&self) -> (k: BackendKind) {
        BackendKind::Sql
    }
}

impl SequencerDataSource for FsDataSource {
    type Options = FsOptions;

    open spec fn post_create(
        opt: FsOptions,
        provider: Provider,
        reset: bool,
        r: Result<Self, CatchupError>,
    ) -> bool {
        match r {
            Ok(ds) => opt.reachable && ds.provider == provider,
            Err(e) => !opt.reachable && e == CatchupError::InitializationFailure,
        }
    }

    fn create(opt: FsOptions, provider: Provider, reset: bool) -> (r: Result<
        Self,
        CatchupError,
    >) {
        if !opt.reachable {
            return Err(CatchupError::InitializationFailure);
        }
        Ok(FsDataSource { provider })
    }

    open spec fn spec_kind() -> BackendKind {
        BackendKind::Fs
    }

    fn kind(&self) -> (k: BackendKind) {
        BackendKind::Fs
    }
}

/// Construct the one read API bound to the given backend options: the
/// result type is fixed by the options type alone.
pub fn create_data_source<O: DataSourceOptions>(opt: O, provider: Provider, reset: bool) -> (r:
    Result<O::DataSource, CatchupError>)
    ensures
        <O::DataSource as SequencerDataSource>::post_create(opt, provider, reset, r),
{
    <O::DataSource as SequencerDataSource>::create(opt, provider, reset)
}

/// The first account entry of `s` under address `account`, as a model.
pub open spec fn spec_find_account(s: Seq<(u64, AccountQueryData)>, account: u64) -> Option<
    AccountQueryDataModel,
>
    decreases s.len(),
{
    if s.len() == 0 {
        None
    } else if s[0].0 == account {
        Some(s[0].1@)
    } else {
        spec_find_account(s.drop_first(), account)
    }
}

/// The first configuration of `s` committing to `commitment`.
pub open spec fn spec_find_chain_config(
    s: Seq<(ChainConfigCommitment, ChainConfig)>,
    commitment: ChainConfigCommitment,
) -> Option<ChainConfig>
    decreases s.len(),
{
    if s.len() == 0 {
        None
    } else if s[0].0 == commitment {
        Some(s[0].1)
    } else {
        spec_find_chain_config(s.drop_first(), commitment)
    }
}

impl CatchupDataSource for SqlDataSource {
    open spec fn spec_get_account(&self, height: u64, view_number: u64, account: u64) -> Result<
        AccountQueryDataModel,
        CatchupError,
    > {
        if height >= self.store.snapshots@.len() {
            Err(CatchupError::NotFound)
        } else {
            match spec_find_account(self.store.snapshots@[height as int].accounts@, account) {
                Some(m) => Ok(m),
                None => Err(CatchupError::NotFound),
            }
        }
    }

    open spec fn spec_get_frontier(&self, height: u64, view_number: u64) -> Result<
        FrontierModel,
        CatchupError,
    > {
        if height >= self.store.snapshots@.len() {
            Err(CatchupError::NotFound)
        } else {
            Ok(self.store.snapshots@[height as int].frontier@)
        }
    }

    open spec fn spec_get_chain_config(&self, commitment: ChainConfigCommitment) -> Result<
        ChainConfig,
        CatchupError,
    > {
        match spec_find_chain_config(self.store.chain_configs@, commitment) {
            Some(c) => Ok(c),
            None => Err(CatchupError::NotFound),
        }
    }

    fn get_account(&self, height: u64, view_number: u64, account: u64) -> (r: Result<
        AccountQueryData,
        CatchupError,
    >) {
        let n = self.store.snapshots.len();
        if height >= n as u64 {
            return Err(CatchupError::NotFound);
        }
        let snapshot = &self.store.snapshots[height as usize];
        let mut i: usize = 0;
        proof {
            assert((height as int) < self.store.snapshots@.len());
            assert(snapshot.accounts@.skip(0) =~= snapshot.accounts@);
        }
        while i < snapshot.accounts.len()
            invariant
                (height as int) < self.store.snapshots@.len(),
                *snapshot == self.store.snapshots@[height as int],
                i <= snapshot.accounts.len(),
                spec_find_account(snapshot.accounts@.skip(i as int), account) == spec_find_account(
                    snapshot.accounts@,
                    account,
                ),
            decreases snapshot.accounts.len() - i,
        {
            proof {
                assert(snapshot.accounts@.skip(i as int)[0] == snapshot.accounts@[i as int]);
                assert(snapshot.accounts@.skip(i as int).drop_first() =~= snapshot.accounts@.skip(
                    i as int + 1,
                ));
            }
            if snapshot.accounts[i].0 == account {
                let r = Ok(snapshot.accounts[i].1.duplicate());
                proof {
                    assert(*snapshot == self.store.snapshots@[height as int]);
                    assert(spec_find_account(snapshot.accounts@.skip(i as int), account) == Some(
                        snapshot.accounts@[i as int].1@,
                    ));
                    assert(account_result_model(r) == self.spec_get_account(
                        height,
                        view_number,
                        account,
                    ));
                }
                return r;
            }
            i += 1;
        }
        proof {
            assert(snapshot.accounts@.skip(i as int).len() == 0);
        }
        Err(CatchupError::NotFound)
    }

    fn get_frontier(&self, height: u64, view_number: u64) -> (r: Result<
        BlocksFrontier,
        CatchupError,
    >) {
        let n = self.store.snapshots.len();
        if height >= n as u64 {
            return Err(CatchupError::NotFound);
        }
        Ok(self.store.snapshots[height as usize].frontier.duplicate())
    }

    fn get_chain_config(&self, commitment: ChainConfigCommitment) -> (r: Result<
        ChainConfig,
        CatchupError,
    >) {
        let mut i: usize = 0;
        proof {
            assert(self.store.chain_configs@.skip(0) =~= self.store.chain_configs@);
        }
        while i < self.store.chain_configs.len()
            invariant
                i <= self.store.chain_configs.len(),
                spec_find_chain_config(self.store.chain_configs@.skip(i as int), commitment)
                    == spec_find_chain_config(self.store.chain_configs@, commitment),
            decreases self.store.chain_configs.len() - i,
        {
            proof {
                assert(self.store.chain_configs@.skip(i as int)[0] == self.store.chain_configs@[
                    i as int
                ]);
                assert(self.store.chain_configs@.skip(i as int).drop_first()
                    =~= self.store.chain_configs@.skip(i as int + 1));
            }
            let (c, cfg) = self.store.chain_configs[i];
            if c.value == commitment.value {
                return Ok(cfg);
            }
            i += 1;
        }
        proof {
            assert(self.store.chain_configs@.skip(i as int).len() == 0);
        }
        Err(CatchupError::NotFound)
    }
}

impl CatchupDataSource for FsDataSource {
    open spec fn spec_get_account(&self, height: u64, view_number: u64, account: u64) -> Result<
        AccountQueryDataModel,
        CatchupError,
    > {
        Err(CatchupError::Unsupported)
    }

    open spec fn spec_get_frontier(&self, height: u64, view_number: u64) -> Result<
        FrontierModel,
        CatchupError,
    > {
        Err(CatchupError::Unsupported)
    }

    open spec fn spec_get_chain_config(&self, commitment: ChainConfigCommitment) -> Result<
        ChainConfig,
        CatchupError,
    > {
        Err(CatchupError::Unsupported)
    }

    fn get_account(&self, height: u64, view_number: u64, account: u64) -> (r: Result<
        AccountQueryData,
        CatchupError,
    >) {
        Err(CatchupError::Unsupported)
    }

    fn get_frontier(&self, height: u64, view_number: u64) -> (r: Result<
        BlocksFrontier,
        CatchupError,
    >) {
        Err(CatchupError::Unsupported)
    }

    fn get_chain_config(&self, commitment: ChainConfigCommitment) -> (r: Result<
        ChainConfig,
        CatchupError,
    >) {
        Err(CatchupError::Unsupported)
    }
}

/// Law: the filesystem backend has no catch-up override, so every catch-up
/// operation fails as unsupported, for all inputs.
pub proof fn lemma_fs_all_unsupported(
    ds: &FsDataSource,
    height: u64,
    view_number: u64,
    account: u64,
    commitment: ChainConfigCommitment,
)
    ensures
        ds.spec_get_account(height, view_number, account) == Err::<
            AccountQueryDataModel,
            CatchupError,
        >(CatchupError::Unsupported),
        ds.spec_get_frontier(height, view_number) == Err::<FrontierModel, CatchupError>(
            CatchupError::Unsupported,
        ),
        ds.spec_get_chain_config(commitment) == Err::<ChainConfig, CatchupError>(
            CatchupError::Unsupported,
        ),
{
}

/// A lookup in a snapshot's account list succeeds exactly when some entry
/// carries the requested address.
pub proof fn lemma_find_account_some_iff_present(s: Seq<(u64, AccountQueryData)>, account: u64)
    ensures
        (spec_find_account(s, account) is Some) <==> exists|i: int|
            0 <= i < s.len() && s[i].0 == account,
    decreases s.len(),
{
    if s.len() != 0 && s[0].0 != account {
        lemma_find_account_some_iff_present(s.drop_first(), account);
        if spec_find_account(s, account) is Some {
            let j = choose|j: int| 0 <= j < s.drop_first().len() && s.drop_first()[j].0 == account;
            assert(s[j + 1].0 == account);
        }
        if exists|i: int| 0 <= i < s.len() && s[i].0 == account {
            let i = choose|i: int| 0 <= i < s.len() && s[i].0 == account;
            assert(i > 0);
            assert(s.drop_first()[i - 1].0 == account);
        }
    }
}

/// A lookup in the known chain configurations succeeds exactly when some
/// entry carries the requested commitment.
pub proof fn lemma_find_chain_config_some_iff_present(
    s: Seq<(ChainConfigCommitment, ChainConfig)>,
    commitment: ChainConfigCommitment,
)
    ensures
        (spec_find_chain_config(s, commitment) is Some) <==> exists|i: int|
            0 <= i < s.len() && s[i].0 == commitment,
    decreases s.len(),
{
    if s.len() != 0 && s[0].0 != commitment {
        lemma_find_chain_config_some_iff_present(s.drop_first(), commitment);
        if spec_find_chain_config(s, commitment) is Some {
            let j = choose|j: int|
                0 <= j < s.drop_first().len() && s.drop_first()[j].0 == commitment;
            assert(s[j + 1].0 == commitment);
        }
        if exists|i: int| 0 <= i < s.len() && s[i].0 == commitment {
            let i = choose|i: int| 0 <= i < s.len() && s[i].0 == commitment;
            assert(i > 0);
            assert(s.drop_first()[i - 1].0 == commitment);
        }
    }
}

/// Law: on the capable backend, account catch-up succeeds exactly when the
/// requested height is decided and the snapshot at that height carries the
/// requested account; every other input fails as not-found.
pub proof fn lemma_sql_account_success_iff(
    ds: &SqlDataSource,
    height: u64,
    view_number: u64,
    account: u64,
)
    ensures
        (ds.spec_get_account(height, view_number, account) is Ok) <==> ((height as int)
            < ds.store.snapshots@.len() && exists|i: int|
            0 <= i < ds.store.snapshots@[height as int].accounts@.len()
                && ds.store.snapshots@[height as int].accounts@[i].0 == account),
        (ds.spec_get_account(height, view_number, account) is Err) ==> ds.spec_get_account(
            height,
            view_number,
            account,
        ) == Err::<AccountQueryDataModel, CatchupError>(CatchupError::NotFound),
{
    if (height as int) < ds.store.snapshots@.len() {
        lemma_find_account_some_iff_present(
            ds.store.snapshots@[height as int].accounts@,
            account,
        );
    }
}

/// Law: chain-config catch-up on the capable backend succeeds exactly when
/// some known configuration carries the requested commitment.
pub proof fn lemma_sql_chain_config_success_iff(
    ds: &SqlDataSource,
    commitment: ChainConfigCommitment,
)
    ensures
        (ds.spec_get_chain_config(commitment) is Ok) <==> exists|i: int|
            0 <= i < ds.store.chain_configs@.len() && ds.store.chain_configs@[i].0 == commitment,
        (ds.spec_get_chain_config(commitment) is Err) ==> ds.spec_get_chain_config(commitment)
            == Err::<ChainConfig, CatchupError>(CatchupError::NotFound),
{
    lemma_find_chain_config_some_iff_present(ds.store.chain_configs@, commitment);
}

/// Law: on the capable backend, account catch-up returns data matching
/// exactly the committed state at the requested height: success happens
/// precisely when the height is decided and the account exists in that
/// snapshot, and the returned model is that snapshot's entry; a height
/// beyond the last decided one fails as not-found.
pub proof fn lemma_sql_account_exact(
    ds: &SqlDataSource,
    height: u64,
    view_number: u64,
    account: u64,
)
    ensures
        height >= ds.store.snapshots@.len() ==> ds.spec_get_account(height, view_number, account)
            == Err::<AccountQueryDataModel, CatchupError>(CatchupError::NotFound),
        height < ds.store.snapshots@.len() ==> ds.spec_get_account(height, view_number, account)
            == (match spec_find_account(
            ds.store.snapshots@[height as int].accounts@,
            account,
        ) {
            Some(m) => Ok::<AccountQueryDataModel, CatchupError>(m),
            None => Err::<AccountQueryDataModel, CatchupError>(CatchupError::NotFound),
        }),
{
}

/// Law: catch-up on the capable backend is keyed by height alone; the view
/// exists only for cross-referencing and never changes the result.
pub proof fn lemma_sql_view_independent(
    ds: &SqlDataSource,
    height: u64,
    view_a: u64,
    view_b: u64,
    account: u64,
)
    ensures
        ds.spec_get_account(height, view_a, account) == ds.spec_get_account(
            height,
            view_b,
            account,
        ),
        ds.spec_get_frontier(height, view_a) == ds.spec_get_frontier(height, view_b),
{
}

/// Law: chain configuration is resolved purely by content commitment; an
/// unknown commitment fails as not-found, whatever height or view are
/// supplied elsewhere.
pub proof fn lemma_sql_unknown_commitment_not_found(
    ds: &SqlDataSource,
    commitment: ChainConfigCommitment,
)
    requires
        spec_find_chain_config(ds.store.chain_configs@, commitment) is None,
    ensures
        ds.spec_get_chain_config(commitment) == Err::<ChainConfig, CatchupError>(
            CatchupError::NotFound,
        ),
{
}

} // verus!
