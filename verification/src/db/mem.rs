//! The store that keeps everything in the memory of the process.

use crate::db::{Database, StoreError, StoreModel};
use crate::etag::{default_etag, etag_for, etag_text, is_assigned, now_millis};
use crate::flagset::FlagSet;
use vstd::hash_map::StringHashMap;
use vstd::prelude::*;

verus! {

/// A store in memory: the flags of each namespace and, beside them, the
/// token of each namespace.
pub struct InMemoryDb {
    data: StringHashMap<FlagSet>,
    etags: StringHashMap<String>,
}

impl InMemoryDb {
    /// A store in which nothing was ever written.
    pub fn new() -> (db: Self)
        ensures
            db.model() == StoreModel::empty(),
    {
        let db = Self { data: StringHashMap::with_capacity(4), etags: StringHashMap::with_capacity(4) };
        proof {
            assert(db.model().flags =~= StoreModel::empty().flags);
            assert(db.model().etags =~= StoreModel::empty().etags);
        }
        db
    }

    /// Enables `flag` in `namespace` and leaves the tokens alone. Returns
    /// whether the set changed.
    fn insert_flag(&mut self, namespace: &str, flag: String) -> (changed: bool)
        ensures
            changed == !old(self).model().is_enabled(namespace@, flag@),
            final(self).model().etags == old(self).model().etags,
            final(self).model().flags == old(self).model().flags.insert(
                namespace@,
                old(self).model().flags[namespace@].insert(flag@),
            ),
    {
        let mut set = match self.data.get(namespace) {
            Some(set) => set.snapshot(),
            None => FlagSet::new(),
        };
        let changed = set.insert(flag);
        if changed {
            self.data.insert(namespace.to_owned(), set);
        }
        proof {
            assert(self.model().flags =~~= old(self).model().flags.insert(
                namespace@,
                old(self).model().flags[namespace@].insert(flag@),
            ));
        }
        changed
    }

    /// Disables `flag` in `namespace` and leaves the tokens alone. Returns
    /// whether the set changed.
    fn remove_flag(&mut self, namespace: &str, flag: &str) -> (changed: bool)
        ensures
            changed == old(self).model().is_enabled(namespace@, flag@),
            final(self).model().etags == old(self).model().etags,
            final(self).model().flags == old(self).model().flags.insert(
                namespace@,
                old(self).model().flags[namespace@].remove(flag@),
            ),
    {
        let changed = match self.data.get(namespace) {
            Some(set) => {
                let mut set = set.snapshot();
                let changed = set.remove(flag);
                if changed {
                    self.data.insert(namespace.to_owned(), set);
                }
                changed
            },
            None => false,
        };
        proof {
            assert(self.model().flags =~~= old(self).model().flags.insert(
                namespace@,
                old(self).model().flags[namespace@].remove(flag@),
            ));
        }
        changed
    }

    /// Gives `namespace` the token of a change made at `millis`.
    pub fn record_etag(&mut self, namespace: &str, millis: u128)
        ensures
            final(self).model().flags == old(self).model().flags,
            final(self).model().etags == old(self).model().etags.insert(
                namespace@,
                etag_text(millis),
            ),
    {
        self.etags.insert(namespace.to_owned(), etag_for(millis));
        proof {
            assert(self.model().etags =~= old(self).model().etags.insert(
                namespace@,
                etag_text(millis),
            ));
        }
    }

    /// Gives `namespace` the token of a change made now, and returns the
    /// time that the clock gave.
    pub fn update_etag(&mut self, namespace: &str) -> (millis: u128)
        ensures
            final(self).model().flags == old(self).model().flags,
            final(self).model().etags == old(self).model().etags.insert(
                namespace@,
                etag_text(millis),
            ),
    {
        let millis = now_millis();
        self.record_etag(namespace, millis);
        millis
    }

    /// Enables `flag` in `namespace` for a caller that brings the time,
    /// `millis`, itself. Returns whether the set changed; only then is the
    /// token renewed.
    pub fn set_value_at(&mut self, namespace: &str, flag: String, millis: u128) -> (changed: bool)
        ensures
            changed == !old(self).model().is_enabled(namespace@, flag@),
            final(self).model() == old(self).model().with_flag(
                namespace@,
                flag@,
                etag_text(millis),
            ),
    {
        let changed = self.insert_flag(namespace, flag);
        if changed {
            self.record_etag(namespace, millis);
        } else {
            proof {
                assert(self.model().flags =~~= old(self).model().flags);
            }
        }
        changed
    }

    /// Disables `flag` in `namespace` for a caller that brings the time,
    /// `millis`, itself. Returns whether the set changed; only then is the
    /// token renewed.
    pub fn delete_flag_at(&mut self, namespace: &str, flag: String, millis: u128) -> (changed:
        bool)
        ensures
            changed == old(self).model().is_enabled(namespace@, flag@),
            final(self).model() == old(self).model().without_flag(
                namespace@,
                flag@,
                etag_text(millis),
            ),
    {
        let changed = self.remove_flag(namespace, flag.as_str());
        if changed {
            self.record_etag(namespace, millis);
        } else {
            proof {
                assert(self.model().flags =~~= old(self).model().flags);
            }
        }
        changed
    }
}

impl Default for InMemoryDb {
    fn default() -> (db: Self)
        ensures
            db.model() == StoreModel::empty(),
    {
        Self::new()
    }
}

impl Database for InMemoryDb {
    closed spec fn model(&self) -> StoreModel {
        StoreModel {
            flags: Map::total(
                |namespace: Seq<char>|
                    if self.data@.contains_key(namespace) {
                        self.data@[namespace]@
                    } else {
                        Set::<Seq<char>>::empty()
                    },
            ),
            etags: Map::total(
                |namespace: Seq<char>|
                    if self.etags@.contains_key(namespace) {
                        self.etags@[namespace]@
                    } else {
                        default_etag()
                    },
            ),
        }
    }

    /// Never fails. The token of a change is that of the time at which the
    /// call was made.
    fn set_value(&mut self, namespace: &str, flag: String) -> (r: Result<bool, StoreError>)
        ensures
            r is Ok,
            r->Ok_0 ==> is_assigned(final(self).model().etags[namespace@]),
    {
        let updated = self.insert_flag(namespace, flag);
        if updated {
            self.update_etag(namespace);
        } else {
            proof {
                assert(self.model().flags =~~= old(self).model().flags);
            }
        }
        Ok(updated)
    }

    /// Never fails.
    fn get_values(&self, namespace: &str) -> (r: Result<FlagSet, StoreError>)
        ensures
            r is Ok,
    {
        let data = match self.data.get(namespace) {
            Some(set) => set.snapshot(),
            None => FlagSet::new(),
        };
        Ok(data)
    }

    /// Never fails.
    fn etag(&self, namespace: &str) -> (r: Result<String, StoreError>)
        ensures
            r is Ok,
    {
        let etag = match self.etags.get(namespace) {
            Some(etag) => etag.clone(),
            None => String::new(),
        };
        Ok(etag)
    }

    /// Never fails. The token of a change is that of the time at which the
    /// call was made.
    fn delete_flag(&mut self, namespace: &str, flag: String) -> (r: Result<bool, StoreError>)
        ensures
            r is Ok,
            r->Ok_0 ==> is_assigned(final(self).model().etags[namespace@]),
    {
        let updated = self.remove_flag(namespace, flag.as_str());
        if updated {
            self.update_etag(namespace);
        } else {
            proof {
                assert(self.model().flags =~~= old(self).model().flags);
            }
        }
        Ok(updated)
    }

    /// Always succeeds: there is nothing to reach.
    fn health_check(&self) -> (r: Result<(), StoreError>)
        ensures
            r is Ok,
    {
        Ok(())
    }
}

} // verus!
