//! Which shard of a fleet a connection is.

use vstd::prelude::*;

verus! {

/// The place of one shard in a fleet: its index, and how many shards the
/// fleet has. The index is below the total.
#[derive(Clone, Copy, Debug, PartialEq, Eq, Structural, Hash)]
pub struct ShardId {
    index: u64,
    total: u64,
}

impl ShardId {
    #[verifier::type_invariant]
    spec fn in_fleet(self) -> bool {
        self.index < self.total
    }

    /// The index of the shard.
    pub closed spec fn spec_index(self) -> u64 {
        self.index
    }

    /// The number of shards in the fleet.
    pub closed spec fn spec_total(self) -> u64 {
        self.total
    }

    /// The shard `index` of `total`. There is none unless `index` is below
    /// `total`.
    pub fn new(index: u64, total: u64) -> (id: Option<Self>)
        ensures
            match id {
                Some(id) => index < total && id.spec_index() == index && id.spec_total() == total,
                None => index >= total,
            },
    {
        if index < total {
            Some(ShardId { index, total })
        } else {
            None
        }
    }

    /// The only shard of a fleet of one.
    pub fn single() -> (id: Self)
        ensures
            id.spec_index() == 0,
            id.spec_total() == 1,
    {
        ShardId { index: 0, total: 1 }
    }

    /// The index of the shard. It is below the total.
    pub fn index(&self) -> (index: u64)
        ensures
            index == self.spec_index(),
            index < self.spec_total(),
    {
        proof {
            use_type_invariant(self);
        }
        self.index
    }

    /// The number of shards in the fleet.
    pub fn total(&self) -> (total: u64)
        ensures
            total == self.spec_total(),
    {
        self.total
    }
}

} // verus!
