//! The driver that composes one controller with one L2 block source and one
//! metadata store.
//!
//! The driver's decisions are synchronous and verified here: choosing the
//! startup snapshot, folding a fetched block into the controller, and
//! producing the metadata that must be persisted afterwards. The waiting
//! itself — fetching a block, reading and writing storage — is outside work
//! that the enclosing node performs between these calls.

use vstd::prelude::*;

use crate::algorithm;
use crate::algorithm::AlgorithmUpdaterV1;
use crate::algorithm::AlgorithmV1;
use crate::metadata;
use crate::metadata::UpdaterMetadata;

verus! {

/// Failures of the driver and of the capabilities it consumes. Each carries
/// the relevant height or the collaborator's own report, so callers can act
/// on it; none is swallowed.
#[derive(Clone, Debug, PartialEq, Eq)]
pub enum Error {
    /// The L2 block source failed at the given height.
    CouldNotFetchL2Block { block_height: u32, source_error: String },
    /// The DA record source failed.
    CouldNotFetchDARecord(String),
    /// The metadata store failed to read.
    CouldNotFetchMetadata { source_error: String },
    /// The metadata store failed to write at the given height.
    CouldNotSetMetadata { block_height: u32, source_error: String },
    /// The persisted metadata found at startup could not be turned into a
    /// controller; fatal, blocks node start.
    CouldNotInitUpdater(String),
}

/// Info required about the L2 block for the gas price algorithm.
#[derive(Clone, Copy, Debug, PartialEq, Eq)]
pub struct BlockInfo {
    /// Block height.
    pub height: u32,
    /// Fullness of block gas usage vs max block gas.
    pub fullness: (u64, u64),
    /// Block size in bytes.
    pub block_bytes: u64,
    /// Gas price of the block.
    pub gas_price: u64,
}

/// One controller instance together with the two capabilities that feed it:
/// an L2 block source and a durable metadata store.
pub struct FuelGasPriceUpdater<L2, Metadata> {
    pub inner: AlgorithmUpdaterV1,
    pub l2_block_source: L2,
    pub metadata_storage: Metadata,
}

impl<L2, Metadata> FuelGasPriceUpdater<L2, Metadata> {
    /// Composes an already-built controller with its collaborators.
    pub fn new(
        inner: AlgorithmUpdaterV1,
        l2_block_source: L2,
        metadata_storage: Metadata,
    ) -> (r: Self)
        ensures
            r.inner == inner,
            r.l2_block_source == l2_block_source,
            r.metadata_storage == metadata_storage,
    {
        Self { inner, l2_block_source, metadata_storage }
    }

    /// Startup decision: prefer the metadata found in storage at the target
    /// height, fall back to the caller-supplied default when storage holds
    /// none, and reconstruct the controller from the chosen snapshot.
    pub fn init(
        init_metadata: UpdaterMetadata,
        stored_metadata: Option<UpdaterMetadata>,
        l2_block_source: L2,
        metadata_storage: Metadata,
    ) -> (r: Result<Self, Error>)
        ensures
            stored_metadata matches Some(found) ==> (r matches Ok(updater)
                && metadata::rebuilt_from(updater.inner, found)
                && updater.l2_block_source == l2_block_source
                && updater.metadata_storage == metadata_storage),
            stored_metadata is None ==> (r matches Ok(updater)
                && metadata::rebuilt_from(updater.inner, init_metadata)
                && updater.l2_block_source == l2_block_source
                && updater.metadata_storage == metadata_storage),
    {
        let chosen: UpdaterMetadata = match stored_metadata {
            Some(found) => found,
            None => init_metadata,
        };
        match AlgorithmUpdaterV1::try_from_metadata(chosen) {
            Ok(inner) => Ok(Self { inner, l2_block_source, metadata_storage }),
            Err(source) => Err(source),
        }
    }

    /// Point-in-time read of the current pricing snapshot. It does not
    /// check that `_for_block` matches the controller's actual height:
    /// callers needing historical prices must not rely on it for
    /// point-in-time accuracy at arbitrary heights.
    pub fn start(&self, _for_block: u32) -> (r: AlgorithmV1)
        ensures
            r.new_exec_price == self.inner.new_exec_price,
            r.last_da_price == self.inner.last_da_price,
    {
        self.inner.algorithm()
    }

    /// The height at which the next block must be fetched.
    pub fn next_height(&self) -> (r: u32)
        ensures
            r == self.inner.l2_block_height,
    {
        self.inner.l2_block_height
    }

    /// Update decision of one cycle: folds a fetched block into the
    /// controller and, on acceptance, hands back the snapshot that must be
    /// persisted before the cycle counts as complete. Rejection leaves the
    /// whole driver unchanged, so the same height can be fetched again.
    pub fn process_l2_block(
        &mut self,
        l2_block: BlockInfo,
    ) -> (r: Result<UpdaterMetadata, algorithm::Error>)
        requires
            old(self).inner.l2_block_height < u32::MAX,
            l2_block.height == old(self).inner.l2_block_height + 1 ==> l2_block.fullness.1 > 0,
        ensures
            l2_block.height == old(self).inner.l2_block_height + 1 ==> (r matches Ok(snapshot)
                && algorithm::accepted_transition(
                old(self).inner,
                final(self).inner,
                l2_block.height,
                l2_block.fullness,
                l2_block.block_bytes,
                l2_block.gas_price,
            ) && snapshot == metadata::metadata_of(final(self).inner)
                && final(self).l2_block_source == old(self).l2_block_source
                && final(self).metadata_storage == old(self).metadata_storage),
            l2_block.height != old(self).inner.l2_block_height + 1 ==> r == Err::<
                UpdaterMetadata,
                algorithm::Error,
            >(
                (algorithm::Error::SkippedL2Block {
                    expected: (old(self).inner.l2_block_height + 1) as u32,
                    got: l2_block.height,
                }),
            ) && *final(self) == *old(self),
    {
        let BlockInfo { height, fullness, block_bytes, gas_price } = l2_block;
        match self.inner.update_l2_block_data(height, fullness, block_bytes, gas_price) {
            Ok(()) => Ok(UpdaterMetadata::from_updater(&self.inner)),
            Err(rejection) => Err(rejection),
        }
    }
}

} // verus!
