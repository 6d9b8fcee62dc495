//! The operations that the directory offers to whatever serves it: list the
//! flags of a namespace, ask for its token, enable a flag, disable a flag.
//! Each validates its identifiers first; the two that change the store then
//! check the presented key; only then is the store touched.

use crate::auth::{accept_auth, accepts, key_text, secret_text, ApiKey};
use crate::db::{Database, StoreError};
use crate::flag::{flag_error, validation_error, Flag, FlagError, FlagField};
use crate::flagset::FlagSet;
use vstd::prelude::*;
use vstd::string::*;

verus! {

/// Why an operation was not carried out.
#[derive(Debug, Clone, Copy, PartialEq, Eq, Structural)]
pub enum ApiError {
    /// The namespace or the flag is no identifier.
    Validation(FlagError),
    /// The presented key was not accepted.
    AuthRejected,
    /// The store failed.
    Store(StoreError),
}

/// The flags of one namespace together with its token.
pub struct Listing {
    pub namespace: String,
    pub flags: FlagSet,
    pub etag: String,
}

/// Hands on what a store answered: its value, or its error as the
/// operation's error.
pub fn store_result<T>(answer: Result<T, StoreError>) -> (r: Result<T, ApiError>)
    ensures
        match answer {
            Ok(value) => r == Ok::<T, ApiError>(value),
            Err(e) => r == Err::<T, ApiError>(ApiError::Store(e)),
        },
{
    match answer {
        Ok(value) => Ok(value),
        Err(e) => Err(ApiError::Store(e)),
    }
}

/// The token of `namespace`. A text that is no identifier is rejected
/// before the store is asked; otherwise the store's answer decides.
pub fn head_flags<D: Database>(namespace: &str, db: &D) -> (r: Result<String, ApiError>)
    ensures
        match validation_error(namespace@, FlagField::Namespace) {
            Some(e) => r == Err::<String, ApiError>(ApiError::Validation(e)),
            None => match r {
                Ok(etag) => etag@ == db.model().etags[namespace@],
                Err(e) => e is Store,
            },
        },
{
    match Flag::parse(namespace, FlagField::Namespace) {
        Err(e) => Err(ApiError::Validation(e)),
        Ok(namespace) => store_result(db.etag(namespace.as_str())),
    }
}

/// The flags of `namespace` and its token. A text that is no identifier
/// is rejected before the store is asked; otherwise the store's answers
/// decide.
pub fn get_flags<D: Database>(namespace: &str, db: &D) -> (r: Result<Listing, ApiError>)
    ensures
        match validation_error(namespace@, FlagField::Namespace) {
            Some(e) => r is Err && r->Err_0 == ApiError::Validation(e),
            None => match r {
                Ok(listing) => {
                    &&& listing.namespace@ == namespace@
                    &&& listing.flags@ == db.model().flags[namespace@]
                    &&& listing.etag@ == db.model().etags[namespace@]
                },
                Err(e) => e is Store,
            },
        },
{
    let name = match Flag::parse(namespace, FlagField::Namespace) {
        Err(e) => { return Err(ApiError::Validation(e)); },
        Ok(name) => name,
    };
    let flags = match db.get_values(name.as_str()) {
        Err(e) => { return Err(ApiError::Store(e)); },
        Ok(flags) => flags,
    };
    let etag = match db.etag(name.as_str()) {
        Err(e) => { return Err(ApiError::Store(e)); },
        Ok(etag) => etag,
    };
    Ok(Listing { namespace: name.as_str().to_owned(), flags, etag })
}

/// Enables `flag` in `namespace` on behalf of a caller that presents
/// `header`, where `api_key` is the configured secret. Texts that are no
/// identifiers are rejected first, then a caller whose key is not
/// accepted; in both cases the store is not touched. Otherwise the store's
/// answer decides, and `Ok` tells whether the set changed.
pub fn put_flag<D: Database>(
    namespace: &str,
    flag: &str,
    api_key: &Option<String>,
    header: Option<ApiKey>,
    db: &mut D,
) -> (r: Result<bool, ApiError>)
    ensures
        match flag_error(namespace@, flag@) {
            Some(e) => r == Err::<bool, ApiError>(ApiError::Validation(e)) && *final(db) == *old(db),
            None => if !accepts(secret_text(*api_key), key_text(header)) {
                r == Err::<bool, ApiError>(ApiError::AuthRejected) && *final(db) == *old(db)
            } else {
                match r {
                    Ok(changed) => {
                        &&& changed == !old(db).model().is_enabled(namespace@, flag@)
                        &&& final(db).model() == old(db).model().with_flag(
                            namespace@,
                            flag@,
                            final(db).model().etags[namespace@],
                        )
                    },
                    Err(e) => e is Store && final(db).model().etags == old(db).model().etags,
                }
            },
        },
{
    let valid = match Flag::new(namespace, flag) {
        Err(e) => { return Err(ApiError::Validation(e)); },
        Ok(valid) => valid,
    };
    if !accept_auth(api_key, header) {
        return Err(ApiError::AuthRejected);
    }
    store_result(db.set_value(valid.namespace(), valid.key().to_owned()))
}

/// Disables `flag` in `namespace` on behalf of a caller that presents
/// `header`, where `api_key` is the configured secret. Texts that are no
/// identifiers are rejected first, then a caller whose key is not
/// accepted; in both cases the store is not touched. Otherwise the store's
/// answer decides, and `Ok` tells whether the set changed.
pub fn delete_flag<D: Database>(
    namespace: &str,
    flag: &str,
    api_key: &Option<String>,
    header: Option<ApiKey>,
    db: &mut D,
) -> (r: Result<bool, ApiError>)
    ensures
        match flag_error(namespace@, flag@) {
            Some(e) => r == Err::<bool, ApiError>(ApiError::Validation(e)) && *final(db) == *old(db),
            None => if !accepts(secret_text(*api_key), key_text(header)) {
                r == Err::<bool, ApiError>(ApiError::AuthRejected) && *final(db) == *old(db)
            } else {
                match r {
                    Ok(changed) => {
                        &&& changed == old(db).model().is_enabled(namespace@, flag@)
                        &&& final(db).model() == old(db).model().without_flag(
                            namespace@,
                            flag@,
                            final(db).model().etags[namespace@],
                        )
                    },
                    Err(e) => e is Store && final(db).model().etags == old(db).model().etags,
                }
            },
        },
{
    let valid = match Flag::new(namespace, flag) {
        Err(e) => { return Err(ApiError::Validation(e)); },
        Ok(valid) => valid,
    };
    if !accept_auth(api_key, header) {
        return Err(ApiError::AuthRejected);
    }
    store_result(db.delete_flag(valid.namespace(), valid.key().to_owned()))
}

} // verus!
