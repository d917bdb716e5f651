//! Catch-up protocol: fetching authoritative state snapshots.
//!
//! A node that is behind the decided head recovers account state, the
//! blocks-tree frontier, and chain configuration keyed by an exact snapshot.
//! Merklized-state catch-up is a deliberate opt-in: the default for any
//! backend that does not retain authenticated trees is to fail every
//! operation as unsupported, because silently returning stale or fabricated
//! data is never acceptable. Only backends that genuinely hold the relevant
//! trees implement the operations.

use vstd::prelude::*;

use crate::CatchupError;

verus! {

/// Account-level state and inclusion proof at one snapshot.
#[derive(Debug)]
pub struct AccountQueryData {
    pub balance: u64,
    /// Sibling hashes of the account's Merkle inclusion path.
    pub proof: Vec<u64>,
}

/// The mathematical value of an account query result.
pub struct AccountQueryDataModel {
    pub balance: u64,
    pub proof: Seq<u64>,
}

impl View for AccountQueryData {
    type V = AccountQueryDataModel;

    open spec fn view(&self) -> AccountQueryDataModel {
        AccountQueryDataModel { balance: self.balance, proof: self.proof@ }
    }
}

impl AccountQueryData {
    /// A copy of this value.
    pub fn duplicate(&self) -> (r: Self)
        ensures
            r@ == self@,
    {
        AccountQueryData { balance: self.balance, proof: copy_u64_vec(&self.proof) }
    }
}

/// Authentication data along the rightmost path of the blocks commitment
/// tree at one snapshot, sufficient to append new leaves.
#[derive(Debug)]
pub struct BlocksFrontier {
    /// Hashes along the rightmost edge of the tree.
    pub path: Vec<u64>,
}

/// The mathematical value of a blocks frontier.
pub struct FrontierModel {
    pub path: Seq<u64>,
}

impl View for BlocksFrontier {
    type V = FrontierModel;

    open spec fn view(&self) -> FrontierModel {
        FrontierModel { path: self.path@ }
    }
}

impl BlocksFrontier {
    /// A copy of this value.
    pub fn duplicate(&self) -> (r: Self)
        ensures
            r@ == self@,
    {
        BlocksFrontier { path: copy_u64_vec(&self.path) }
    }
}

/// An element-by-element copy of a vector of words.
fn copy_u64_vec(v: &Vec<u64>) -> (r: Vec<u64>)
    ensures
        r@ == v@,
{
    let mut r: Vec<u64> = Vec::new();
    let mut i: usize = 0;
    while i < v.len()
        invariant
            i <= v.len(),
            r@ == v@.take(i as int),
        decreases v.len() - i,
    {
        r.push(v[i]);
        proof {
            assert(v@.take(i as int + 1) =~= v@.take(i as int).push(v@[i as int]));
        }
        i += 1;
    }
    proof {
        assert(v@.take(v@.len() as int) =~= v@);
    }
    r
}

/// Chain-wide configuration, addressed by content commitment rather than by
/// height or view, since configuration changes are rare and may be queried
/// before or after they are the current head.
#[derive(Clone, Copy, Debug, PartialEq, Eq, Structural)]
pub struct ChainConfig {
    pub chain_id: u64,
    pub max_block_size: u64,
    pub base_fee: u64,
}

/// A fixed-size content commitment of a chain configuration.
#[derive(Clone, Copy, Debug, PartialEq, Eq, Structural)]
pub struct ChainConfigCommitment {
    pub value: u64,
}

/// The model of an account query result, or the typed failure.
pub open spec fn account_result_model(r: Result<AccountQueryData, CatchupError>) -> Result<
    AccountQueryDataModel,
    CatchupError,
> {
    match r {
        Ok(d) => Ok(d@),
        Err(e) => Err(e),
    }
}

/// The model of a frontier query result, or the typed failure.
pub open spec fn frontier_result_model(r: Result<BlocksFrontier, CatchupError>) -> Result<
    FrontierModel,
    CatchupError,
> {
    match r {
        Ok(d) => Ok(d@),
        Err(e) => Err(e),
    }
}

/// State-snapshot catch-up operations.
///
/// Each operation is keyed by a snapshot identifier. The height and view
/// passed to `get_account` and `get_frontier` must correspond to the same
/// decided snapshot, with the view no older than the last decided view;
/// this is a caller obligation, never checked internally. Height is the
/// primary key: the result of a conforming implementation may not depend on
/// the view, which exists only to let an implementation cross-reference the
/// consensus round when useful.
///
/// An implementation for a backend without merklized state storage fails
/// every operation as [`CatchupError::Unsupported`] for all inputs.
pub trait CatchupDataSource: Sized {
    /// What `get_account` returns, as a function of the data source alone.
    spec fn spec_get_account(&self, height: u64, view_number: u64, account: u64) -> Result<
        AccountQueryDataModel,
        CatchupError,
    >;

    /// What `get_frontier` returns, as a function of the data source alone.
    spec fn spec_get_frontier(&self, height: u64, view_number: u64) -> Result<
        FrontierModel,
        CatchupError,
    >;

    /// What `get_chain_config` returns: a function of the data source and
    /// the commitment alone, independent of any height or view.
    spec fn spec_get_chain_config(&self, commitment: ChainConfigCommitment) -> Result<
        ChainConfig,
        CatchupError,
    >;

    /// Get the state of the requested `account` from the snapshot at the
    /// given height and view.
    fn get_account(&self, height: u64, view_number: u64, account: u64) -> (r: Result<
        AccountQueryData,
        CatchupError,
    >)
        ensures
            account_result_model(r) == self.spec_get_account(height, view_number, account),
    ;

    /// Get the blocks Merkle tree frontier at the given height and view.
    fn get_frontier(&self, height: u64, view_number: u64) -> (r: Result<
        BlocksFrontier,
        CatchupError,
    >)
        ensures
            frontier_result_model(r) == self.spec_get_frontier(height, view_number),
    ;

    /// Get the chain configuration with the given content commitment.
    fn get_chain_config(&self, commitment: ChainConfigCommitment) -> (r: Result<
        ChainConfig,
        CatchupError,
    >)
        ensures
            r == self.spec_get_chain_config(commitment),
    ;
}

/// A data source that serves only metrics and retains no chain state at
/// all; every catch-up operation is unsupported.
pub struct MetricsDataSource {}

impl CatchupDataSource for MetricsDataSource {
    open spec fn spec_get_account(&self, height: u64, view_number: u64, account: u64) -> Result<
        AccountQueryDataModel,
        CatchupError,
    > {
        Err(CatchupError::Unsupported)
    }

    open spec fn spec_get_frontier(&self, height: u64, view_number: u64) -> Result<
        FrontierModel,
        CatchupError,
    > {
        Err(CatchupError::Unsupported)
    }

    open spec fn spec_get_chain_config(&self, commitment: ChainConfigCommitment) -> Result<
        ChainConfig,
        CatchupError,
    > {
        Err(CatchupError::Unsupported)
    }

    fn get_account(&self, height: u64, view_number: u64, account: u64) -> (r: Result<
        AccountQueryData,
        CatchupError,
    >) {
        Err(CatchupError::Unsupported)
    }

    fn get_frontier(&self, height: u64, view_number: u64) -> (r: Result<
        BlocksFrontier,
        CatchupError,
    >) {
        Err(CatchupError::Unsupported)
    }

    fn get_chain_config(&self, commitment: ChainConfigCommitment) -> (r: Result<
        ChainConfig,
        CatchupError,
    >) {
        Err(CatchupError::Unsupported)
    }
}

/// Law: a backend without merklized state storage fails every catch-up
/// operation as unsupported, for all inputs.
pub proof fn lemma_metrics_all_unsupported(
    ds: &MetricsDataSource,
    height: u64,
    view_number: u64,
    account: u64,
    commitment: ChainConfigCommitment,
)
    ensures
        ds.spec_get_account(height, view_number, account) == Err::<
            AccountQueryDataModel,
            CatchupError,
        >(CatchupError::Unsupported),
        ds.spec_get_frontier(height, view_number) == Err::<FrontierModel, CatchupError>(
            CatchupError::Unsupported,
        ),
        ds.spec_get_chain_config(commitment) == Err::<ChainConfig, CatchupError>(
            CatchupError::Unsupported,
        ),
{
}

/// Law: chain-config catch-up is idempotent. Any two calls on the same data
/// source with the same commitment return identical results, since each
/// result is pinned to the same function of the data source and commitment.
pub proof fn lemma_chain_config_idempotent<D: CatchupDataSource>(
    ds: &D,
    commitment: ChainConfigCommitment,
    r1: Result<ChainConfig, CatchupError>,
    r2: Result<ChainConfig, CatchupError>,
)
    requires
        r1 == ds.spec_get_chain_config(commitment),
        r2 == ds.spec_get_chain_config(commitment),
    ensures
        r1 == r2,
{
}

} // verus!
