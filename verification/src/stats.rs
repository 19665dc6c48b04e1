//! Per-identity accounting: how many tasks an identity created and won, and
//! what it earned.
use vstd::prelude::*;
use crate::identity::Address;
use crate::model::{count_completed, count_created, lookup_stats, StatsView};
use crate::records::UserStats;
use crate::store::Store;
use crate::uint256::U256;

verus! {

/// The records of all identities that created or won a task. A record is
/// made on first use, with all counters at zero, and never removed.
pub struct UserStatsTracker {
    records: Store<Address, UserStats>,
}

impl View for UserStatsTracker {
    type V = Map<Address, StatsView>;

    /// The identities that have a record, each with its counters.
    closed spec fn view(&self) -> Map<Address, StatsView> {
        Map::new(
            |user: Address| self.records@.contains_key(user),
            |user: Address| self.records@[user]@,
        )
    }
}

impl UserStatsTracker {
    /// A tracker without records.
    pub fn new() -> (r: UserStatsTracker)
        ensures
            r@ == Map::<Address, StatsView>::empty(),
    {
        let r = UserStatsTracker { records: Store::new() };
        assert(r@ =~= Map::<Address, StatsView>::empty());
        r
    }

    /// The counters of `user`, all zero where it has no record yet.
    pub fn get(&self, user: &Address) -> (r: UserStats)
        ensures
            r@ == lookup_stats(self@, *user),
    {
        match self.records.get(user) {
            Some(stats) => stats,
            None => UserStats::zero(),
        }
    }

    /// Counts one more task created by `user`.
    pub fn record_created(&mut self, user: Address)
        ensures
            final(self)@ == count_created(old(self)@, user),
    {
        let mut stats = self.get(&user);
        stats.record_created();
        self.records.set(user, stats);
        assert(self@ =~= count_created(old(self)@, user));
    }

    /// Counts one more task completed by `user`, who earned `amount` with it.
    pub fn record_completed(&mut self, user: Address, amount: U256)
        ensures
            final(self)@ == count_completed(old(self)@, user, amount@),
    {
        let mut stats = self.get(&user);
        stats.record_completed(amount);
        self.records.set(user, stats);
        assert(self@ =~= count_completed(old(self)@, user, amount@));
    }
}

} // verus!
