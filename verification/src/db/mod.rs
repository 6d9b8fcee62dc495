//! The store of flags: what every backend owes its callers.

pub mod mem;
pub mod redis;

use crate::etag::{default_etag, etag_text, lemma_etags_differ};
use crate::flagset::FlagSet;
use vstd::prelude::*;

verus! {

/// Why a store could not do what it was asked.
#[derive(Debug, Clone, Copy, PartialEq, Eq, Structural)]
pub enum StoreError {
    /// The backend cannot be reached, or did not answer in time.
    Unavailable,
    /// The backend answered, and reported a failure of any other kind.
    Internal,
}

/// What can be observed of a store: for every namespace the set of its
/// enabled flags and its change-detection token. A namespace that was never
/// written has the empty set and the default token, as has one whose flags
/// were all disabled again.
#[verifier::ext_equal]
pub struct StoreModel {
    pub flags: Map<Seq<char>, Set<Seq<char>>>,
    pub etags: Map<Seq<char>, Seq<char>>,
}

impl StoreModel {
    /// The store in which nothing was ever written.
    pub open spec fn empty() -> StoreModel {
        StoreModel {
            flags: Map::total(|namespace: Seq<char>| Set::<Seq<char>>::empty()),
            etags: Map::total(|namespace: Seq<char>| default_etag()),
        }
    }

    /// Whether `flag` is enabled in `namespace`.
    pub open spec fn is_enabled(self, namespace: Seq<char>, flag: Seq<char>) -> bool {
        self.flags[namespace].contains(flag)
    }

    /// The store after `flag` was set in `namespace`, where `etag` is the
    /// token that a change would receive. Setting a flag that is enabled
    /// already changes nothing, the token included.
    pub open spec fn with_flag(self, namespace: Seq<char>, flag: Seq<char>, etag: Seq<char>)
        -> StoreModel {
        if self.is_enabled(namespace, flag) {
            self
        } else {
            StoreModel {
                flags: self.flags.insert(namespace, self.flags[namespace].insert(flag)),
                etags: self.etags.insert(namespace, etag),
            }
        }
    }

    /// The store after `flag` was deleted in `namespace`, where `etag` is
    /// the token that a change would receive. Deleting a flag that is not
    /// enabled changes nothing, the token included.
    pub open spec fn without_flag(self, namespace: Seq<char>, flag: Seq<char>, etag: Seq<char>)
        -> StoreModel {
        if self.is_enabled(namespace, flag) {
            StoreModel {
                flags: self.flags.insert(namespace, self.flags[namespace].remove(flag)),
                etags: self.etags.insert(namespace, etag),
            }
        } else {
            self
        }
    }
}

/// A store of flags. Namespaces and flags are handed in as validated
/// identifiers; a store does not validate them again.
pub trait Database {
    /// What can be observed of the store. A backend that does not say what
    /// it is leaves it open: nothing is known of the default.
    open spec fn model(&self) -> StoreModel {
        arbitrary()
    }

    /// Enables `flag` in `namespace`. Returns whether that changed the set;
    /// if it did, the namespace has a token assigned by this call, and if
    /// not, everything is as before. A failure leaves all tokens as they
    /// were.
    fn set_value(&mut self, namespace: &str, flag: String) -> (r: Result<bool, StoreError>)
        ensures
            match r {
                Ok(changed) => {
                    &&& changed == !old(self).model().is_enabled(namespace@, flag@)
                    &&& final(self).model() == old(self).model().with_flag(
                        namespace@,
                        flag@,
                        final(self).model().etags[namespace@],
                    )
                },
                Err(_) => final(self).model().etags == old(self).model().etags,
            },
    ;

    /// A copy of the set of flags that are enabled in `namespace`.
    fn get_values(&self, namespace: &str) -> (r: Result<FlagSet, StoreError>)
        ensures
            r matches Ok(set) ==> set@ == self.model().flags[namespace@],
    ;

    /// The token of `namespace`.
    fn etag(&self, namespace: &str) -> (r: Result<String, StoreError>)
        ensures
            r matches Ok(etag) ==> etag@ == self.model().etags[namespace@],
    ;

    /// Disables `flag` in `namespace`. Returns whether that changed the
    /// set; if it did, the namespace has a token assigned by this call, and
    /// if not, everything is as before. A failure leaves all tokens as they
    /// were.
    fn delete_flag(&mut self, namespace: &str, flag: String) -> (r: Result<bool, StoreError>)
        ensures
            match r {
                Ok(changed) => {
                    &&& changed == old(self).model().is_enabled(namespace@, flag@)
                    &&& final(self).model() == old(self).model().without_flag(
                        namespace@,
                        flag@,
                        final(self).model().etags[namespace@],
                    )
                },
                Err(_) => final(self).model().etags == old(self).model().etags,
            },
    ;

    /// Whether the backend can be used.
    fn health_check(&self) -> (r: Result<(), StoreError>)
    ;
}

/// After a flag is set, the values of its namespace hold it.
pub proof fn lemma_set_then_listed(
    store: StoreModel,
    namespace: Seq<char>,
    flag: Seq<char>,
    etag: Seq<char>,
)
    ensures
        store.with_flag(namespace, flag, etag).flags[namespace].contains(flag),
{
}

/// Setting a flag a second time changes nothing: the flag is found
/// enabled, and the store, the token of the namespace included, stays as the
/// first call left it.
pub proof fn lemma_set_twice(
    store: StoreModel,
    namespace: Seq<char>,
    flag: Seq<char>,
    first: Seq<char>,
    second: Seq<char>,
)
    ensures
        store.with_flag(namespace, flag, first).is_enabled(namespace, flag),
        store.with_flag(namespace, flag, first).with_flag(namespace, flag, second)
            == store.with_flag(namespace, flag, first),
        store.with_flag(namespace, flag, first).with_flag(namespace, flag, second).etags[namespace]
            == store.with_flag(namespace, flag, first).etags[namespace],
{
}

/// Deleting a flag that is not enabled changes nothing, the token of the
/// namespace included.
pub proof fn lemma_delete_absent(
    store: StoreModel,
    namespace: Seq<char>,
    flag: Seq<char>,
    etag: Seq<char>,
)
    requires
        !store.is_enabled(namespace, flag),
    ensures
        store.without_flag(namespace, flag, etag) == store,
        store.without_flag(namespace, flag, etag).etags[namespace] == store.etags[namespace],
{
}

/// After a flag is set and then deleted, the values of its namespace do not
/// hold it, and the namespace has the token of the deletion. That token
/// differs from the one after the set wherever the deletion is given a
/// token other than the one the namespace had.
pub proof fn lemma_set_then_delete(
    store: StoreModel,
    namespace: Seq<char>,
    flag: Seq<char>,
    first: Seq<char>,
    second: Seq<char>,
)
    requires
        second != store.with_flag(namespace, flag, first).etags[namespace],
    ensures
        !store.with_flag(namespace, flag, first).without_flag(namespace, flag, second).is_enabled(
            namespace,
            flag,
        ),
        store.with_flag(namespace, flag, first).without_flag(
            namespace,
            flag,
            second,
        ).etags[namespace] == second,
        store.with_flag(namespace, flag, first).without_flag(
            namespace,
            flag,
            second,
        ).etags[namespace] != store.with_flag(namespace, flag, first).etags[namespace],
{
}

/// Where a flag that was not enabled is set at one time and deleted at
/// another, the token after the deletion differs from the token after the
/// set. Within one millisecond the two are the same.
pub proof fn lemma_set_then_delete_later(
    store: StoreModel,
    namespace: Seq<char>,
    flag: Seq<char>,
    set_at: u128,
    deleted_at: u128,
)
    requires
        !store.is_enabled(namespace, flag),
    ensures
        set_at != deleted_at <==> store.with_flag(namespace, flag, etag_text(set_at)).without_flag(
            namespace,
            flag,
            etag_text(deleted_at),
        ).etags[namespace] != store.with_flag(namespace, flag, etag_text(set_at)).etags[namespace],
{
    if set_at != deleted_at {
        lemma_etags_differ(set_at, deleted_at);
    }
}

/// A namespace's token changes only together with its set of flags, and no
/// other namespace is touched.
pub proof fn lemma_token_follows_change(
    store: StoreModel,
    namespace: Seq<char>,
    flag: Seq<char>,
    etag: Seq<char>,
    other: Seq<char>,
)
    requires
        other != namespace,
    ensures
        store.is_enabled(namespace, flag) ==> store.with_flag(namespace, flag, etag) == store,
        !store.is_enabled(namespace, flag) ==> store.with_flag(
            namespace,
            flag,
            etag,
        ).etags[namespace] == etag,
        store.is_enabled(namespace, flag) ==> store.without_flag(
            namespace,
            flag,
            etag,
        ).etags[namespace] == etag,
        !store.is_enabled(namespace, flag) ==> store.without_flag(namespace, flag, etag) == store,
        store.with_flag(namespace, flag, etag).flags[other] == store.flags[other],
        store.with_flag(namespace, flag, etag).etags[other] == store.etags[other],
        store.without_flag(namespace, flag, etag).flags[other] == store.flags[other],
        store.without_flag(namespace, flag, etag).etags[other] == store.etags[other],
{
}

} // verus!
