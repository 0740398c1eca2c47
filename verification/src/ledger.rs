//! The in-memory staking ledger: the stake records, user accounts and
//! collection records that one invocation of the withdrawal operation reads
//! and mutates. The surrounding environment serializes invocations that touch
//! the same records, so one invocation owns the ledger exclusively.

use vstd::prelude::*;
use crate::ids::AccountId;
use crate::state::{CollectionEntry, StakeConfig, StakeRecord, UserEntry};

verus! {

/// The records of the staking ledger.
pub struct Ledger {
    /// Global, read-only parameters.
    pub config: StakeConfig,
    /// One record per currently locked asset.
    pub records: Vec<StakeRecord>,
    /// One account per user.
    pub users: Vec<UserEntry>,
    /// One record per collection under delegated authority.
    pub collections: Vec<CollectionEntry>,
}

impl Ledger {
    /// Well-formedness: at most one stake record per asset, one account per
    /// user, one record per collection.
    pub open spec fn wf(self) -> bool {
        &&& forall|i: int, j: int|
            0 <= i < j < self.records@.len() ==> (#[trigger] self.records@[i]).asset@ != (
            #[trigger] self.records@[j]).asset@
        &&& forall|i: int, j: int|
            0 <= i < j < self.users@.len() ==> (#[trigger] self.users@[i]).user@ != (
            #[trigger] self.users@[j]).user@
        &&& forall|i: int, j: int|
            0 <= i < j < self.collections@.len() ==> (#[trigger] self.collections@[i]).collection@
                != (#[trigger] self.collections@[j]).collection@
    }

    /// Whether some asset is currently locked.
    pub open spec fn spec_has_record(self, asset: Seq<u8>) -> bool {
        exists|i: int| 0 <= i < self.records@.len() && (#[trigger] self.records@[i]).asset@ == asset
    }

    /// The index of the stake record for an asset.
    pub open spec fn spec_record_index(self, asset: Seq<u8>) -> int {
        choose|i: int| 0 <= i < self.records@.len() && (#[trigger] self.records@[i]).asset@ == asset
    }

    /// The stake record for an asset.
    pub open spec fn spec_record(self, asset: Seq<u8>) -> StakeRecord {
        self.records@[self.spec_record_index(asset)]
    }

    /// Whether some user has an account.
    pub open spec fn spec_has_user(self, user: Seq<u8>) -> bool {
        exists|i: int| 0 <= i < self.users@.len() && (#[trigger] self.users@[i]).user@ == user
    }

    /// The index of a user's account entry.
    pub open spec fn spec_user_index(self, user: Seq<u8>) -> int {
        choose|i: int| 0 <= i < self.users@.len() && (#[trigger] self.users@[i]).user@ == user
    }

    /// A user's account entry.
    pub open spec fn spec_user(self, user: Seq<u8>) -> UserEntry {
        self.users@[self.spec_user_index(user)]
    }

    /// Whether some collection has a delegated-authority record.
    pub open spec fn spec_has_collection(self, collection: Seq<u8>) -> bool {
        exists|i: int|
            0 <= i < self.collections@.len() && (#[trigger] self.collections@[i]).collection@
                == collection
    }

    /// The index of a collection's record.
    pub open spec fn spec_collection_index(self, collection: Seq<u8>) -> int {
        choose|i: int|
            0 <= i < self.collections@.len() && (#[trigger] self.collections@[i]).collection@
                == collection
    }

    /// A collection's record entry.
    pub open spec fn spec_collection(self, collection: Seq<u8>) -> CollectionEntry {
        self.collections@[self.spec_collection_index(collection)]
    }

    /// In a well-formed ledger, the record index for an asset is the only
    /// index whose record names that asset.
    pub proof fn lemma_record_index_unique(self, asset: Seq<u8>, i: int)
        requires
            self.wf(),
            0 <= i < self.records@.len(),
            self.records@[i].asset@ == asset,
        ensures
            self.spec_record_index(asset) == i,
            self.spec_has_record(asset),
    {
        assert(self.spec_has_record(asset));
        let j: int = self.spec_record_index(asset);
        assert(0 <= j < self.records@.len() && self.records@[j].asset@ == asset);
    }

    /// In a well-formed ledger, the account index for a user is the only
    /// index whose entry names that user.
    pub proof fn lemma_user_index_unique(self, user: Seq<u8>, i: int)
        requires
            self.wf(),
            0 <= i < self.users@.len(),
            self.users@[i].user@ == user,
        ensures
            self.spec_user_index(user) == i,
            self.spec_has_user(user),
    {
        assert(self.spec_has_user(user));
        let j: int = self.spec_user_index(user);
        assert(0 <= j < self.users@.len() && self.users@[j].user@ == user);
    }

    /// In a well-formed ledger, the record index for a collection is the only
    /// index whose entry names that collection.
    pub proof fn lemma_collection_index_unique(self, collection: Seq<u8>, i: int)
        requires
            self.wf(),
            0 <= i < self.collections@.len(),
            self.collections@[i].collection@ == collection,
        ensures
            self.spec_collection_index(collection) == i,
            self.spec_has_collection(collection),
    {
        assert(self.spec_has_collection(collection));
        let j: int = self.spec_collection_index(collection);
        assert(0 <= j < self.collections@.len() && self.collections@[j].collection@ == collection);
    }

    /// Checks well-formedness executably: no two records name the same
    /// asset, no two entries the same user or collection.
    pub fn is_well_formed(&self) -> (r: bool)
        ensures
            r <==> self.wf(),
    {
        let mut i: usize = 0;
        while i < self.records.len()
            invariant
                i <= self.records@.len(),
                forall|a: int, b: int|
                    0 <= a < b < self.records@.len() && a < i ==> (
                    #[trigger] self.records@[a]).asset@ != (#[trigger] self.records@[b]).asset@,
            decreases self.records@.len() - i,
        {
            let mut j: usize = i + 1;
            while j < self.records.len()
                invariant
                    i < j <= self.records@.len(),
                    i < self.records@.len(),
                    forall|b: int|
                        i < b < j ==> (#[trigger] self.records@[b]).asset@
                            != self.records@[i as int].asset@,
                decreases self.records@.len() - j,
            {
                if self.records[i].asset == self.records[j].asset {
                    return false;
                }
                j = j + 1;
            }
            i = i + 1;
        }
        let mut i: usize = 0;
        while i < self.users.len()
            invariant
                i <= self.users@.len(),
                forall|a: int, b: int|
                    0 <= a < b < self.users@.len() && a < i ==> (#[trigger] self.users@[a]).user@
                        != (#[trigger] self.users@[b]).user@,
                forall|a: int, b: int|
                    0 <= a < b < self.records@.len() ==> (#[trigger] self.records@[a]).asset@ != (
                    #[trigger] self.records@[b]).asset@,
            decreases self.users@.len() - i,
        {
            let mut j: usize = i + 1;
            while j < self.users.len()
                invariant
                    i < j <= self.users@.len(),
                    i < self.users@.len(),
                    forall|b: int|
                        i < b < j ==> (#[trigger] self.users@[b]).user@ != self.users@[i as int].user@,
                decreases self.users@.len() - j,
            {
                if self.users[i].user == self.users[j].user {
                    return false;
                }
                j = j + 1;
            }
            i = i + 1;
        }
        let mut i: usize = 0;
        while i < self.collections.len()
            invariant
                i <= self.collections@.len(),
                forall|a: int, b: int|
                    0 <= a < b < self.collections@.len() && a < i ==> (
                    #[trigger] self.collections@[a]).collection@ != (
                    #[trigger] self.collections@[b]).collection@,
                forall|a: int, b: int|
                    0 <= a < b < self.records@.len() ==> (#[trigger] self.records@[a]).asset@ != (
                    #[trigger] self.records@[b]).asset@,
                forall|a: int, b: int|
                    0 <= a < b < self.users@.len() ==> (#[trigger] self.users@[a]).user@ != (
                    #[trigger] self.users@[b]).user@,
            decreases self.collections@.len() - i,
        {
            let mut j: usize = i + 1;
            while j < self.collections.len()
                invariant
                    i < j <= self.collections@.len(),
                    i < self.collections@.len(),
                    forall|b: int|
                        i < b < j ==> (#[trigger] self.collections@[b]).collection@
                            != self.collections@[i as int].collection@,
                decreases self.collections@.len() - j,
            {
                if self.collections[i].collection == self.collections[j].collection {
                    return false;
                }
                j = j + 1;
            }
            i = i + 1;
        }
        true
    }

    /// Finds the stake record for an asset, if the asset is locked.
    pub fn find_record(&self, asset: &AccountId) -> (r: Option<usize>)
        ensures
            r is Some <==> self.spec_has_record(asset@),
            r matches Some(i) ==> i < self.records@.len() && self.records@[i as int].asset@
                == asset@,
    {
        let mut k: usize = 0;
        while k < self.records.len()
            invariant
                k <= self.records@.len(),
                forall|j: int| 0 <= j < k ==> (#[trigger] self.records@[j]).asset@ != asset@,
            decreases self.records@.len() - k,
        {
            if self.records[k].asset == *asset {
                return Some(k);
            }
            k = k + 1;
        }
        None
    }

    /// Finds a user's account entry, if the user has one.
    pub fn find_user(&self, user: &AccountId) -> (r: Option<usize>)
        ensures
            r is Some <==> self.spec_has_user(user@),
            r matches Some(i) ==> i < self.users@.len() && self.users@[i as int].user@ == user@,
    {
        let mut k: usize = 0;
        while k < self.users.len()
            invariant
                k <= self.users@.len(),
                forall|j: int| 0 <= j < k ==> (#[trigger] self.users@[j]).user@ != user@,
            decreases self.users@.len() - k,
        {
            if self.users[k].user == *user {
                return Some(k);
            }
            k = k + 1;
        }
        None
    }

    /// Finds a collection's record entry, if the collection has one.
    pub fn find_collection(&self, collection: &AccountId) -> (r: Option<usize>)
        ensures
            r is Some <==> self.spec_has_collection(collection@),
            r matches Some(i) ==> i < self.collections@.len() && self.collections@[i as int].collection@
                == collection@,
    {
        let mut k: usize = 0;
        while k < self.collections.len()
            invariant
                k <= self.collections@.len(),
                forall|j: int| 0 <= j < k ==> (#[trigger] self.collections@[j]).collection@
                    != collection@,
            decreases self.collections@.len() - k,
        {
            if self.collections[k].collection == *collection {
                return Some(k);
            }
            k = k + 1;
        }
        None
    }
}

} // verus!
