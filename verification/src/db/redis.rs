//! The local side of a store whose sets live in a remote set service, such
//! as a Redis server. The service adds to a set and removes from it, and
//! says each time how many members that changed. This side decides what to
//! ask, keeps the tokens, and turns every answer into the store's result.
//! Whoever holds the connection sends the command and brings the answer.

use crate::db::StoreError;
use crate::etag::{default_etag, etag_for, etag_text, is_assigned, now_millis};
use crate::flagset::{texts, FlagSet};
use vstd::hash_map::StringHashMap;
use vstd::prelude::*;
use vstd::string::*;

verus! {

/// How a call to the service went wrong.
#[derive(Debug, Clone, Copy, PartialEq, Eq, Structural)]
pub enum Failure {
    /// No connection could be made, or the one there was is gone.
    Connection,
    /// The service did not answer in time.
    Timeout,
    /// Anything else, such as an answer that cannot be read.
    Other,
}

/// The store's error for a failed call: a service that cannot be reached
/// or does not answer is unavailable, and every other failure is internal.
pub open spec fn store_error(failure: Failure) -> StoreError {
    match failure {
        Failure::Connection => StoreError::Unavailable,
        Failure::Timeout => StoreError::Unavailable,
        Failure::Other => StoreError::Internal,
    }
}

/// The store's error for a failed call.
pub fn classify(failure: Failure) -> (error: StoreError)
    ensures
        error == store_error(failure),
{
    match failure {
        Failure::Connection => StoreError::Unavailable,
        Failure::Timeout => StoreError::Unavailable,
        Failure::Other => StoreError::Internal,
    }
}

/// What the service is asked to do.
#[derive(Debug, Clone, Copy, PartialEq, Eq, Structural)]
pub enum Verb {
    /// Add a member to a set; the answer is the number of members added.
    Add,
    /// Remove a member from a set; the answer is the number removed.
    Remove,
    /// List the members of a set.
    Members,
    /// Answer, and nothing else.
    Ping,
}

/// The name by which the service knows a verb.
pub open spec fn verb_name(verb: Verb) -> Seq<char> {
    match verb {
        Verb::Add => "SADD"@,
        Verb::Remove => "SREM"@,
        Verb::Members => "SMEMBERS"@,
        Verb::Ping => "PING"@,
    }
}

impl Verb {
    /// The name by which the service knows the verb.
    pub fn name(&self) -> (text: &'static str)
        ensures
            text@ == verb_name(*self),
    {
        match self {
            Verb::Add => "SADD",
            Verb::Remove => "SREM",
            Verb::Members => "SMEMBERS",
            Verb::Ping => "PING",
        }
    }
}

/// One command for the service: a verb and its arguments.
pub struct Command {
    pub verb: Verb,
    pub args: Vec<String>,
}

impl Command {
    /// The command that enables `flag` in `namespace`.
    pub fn add(namespace: &str, flag: &str) -> (command: Command)
        ensures
            command.verb == Verb::Add,
            texts(command.args@) == seq![namespace@, flag@],
    {
        let mut args: Vec<String> = Vec::new();
        args.push(namespace.to_owned());
        args.push(flag.to_owned());
        proof {
            assert(texts(args@) =~= seq![namespace@, flag@]);
        }
        Command { verb: Verb::Add, args }
    }

    /// The command that disables `flag` in `namespace`.
    pub fn remove(namespace: &str, flag: &str) -> (command: Command)
        ensures
            command.verb == Verb::Remove,
            texts(command.args@) == seq![namespace@, flag@],
    {
        let mut args: Vec<String> = Vec::new();
        args.push(namespace.to_owned());
        args.push(flag.to_owned());
        proof {
            assert(texts(args@) =~= seq![namespace@, flag@]);
        }
        Command { verb: Verb::Remove, args }
    }

    /// The command that lists the flags of `namespace`.
    pub fn members(namespace: &str) -> (command: Command)
        ensures
            command.verb == Verb::Members,
            texts(command.args@) == seq![namespace@],
    {
        let mut args: Vec<String> = Vec::new();
        args.push(namespace.to_owned());
        proof {
            assert(texts(args@) =~= seq![namespace@]);
        }
        Command { verb: Verb::Members, args }
    }

    /// The command that probes the connection.
    pub fn ping() -> (command: Command)
        ensures
            command.verb == Verb::Ping,
            command.args@.len() == 0,
    {
        Command { verb: Verb::Ping, args: Vec::new() }
    }
}

/// The local side of a remote store: where the service is, and the token
/// of each namespace. The tokens are kept here, not by the service.
pub struct RedisDb {
    uri: String,
    etags: StringHashMap<String>,
}

impl RedisDb {
    /// The token of every namespace.
    pub closed spec fn tokens(&self) -> Map<Seq<char>, Seq<char>> {
        Map::total(
            |namespace: Seq<char>|
                if self.etags@.contains_key(namespace) {
                    self.etags@[namespace]@
                } else {
                    default_etag()
                },
        )
    }

    /// Where the service is.
    pub closed spec fn address(&self) -> Seq<char> {
        self.uri@
    }

    /// The local side of the store at `uri`, with no token assigned yet.
    pub fn new(uri: String) -> (db: Self)
        ensures
            db.address() == uri@,
            db.tokens() == Map::total(|namespace: Seq<char>| default_etag()),
    {
        let db = Self { uri, etags: StringHashMap::with_capacity(4) };
        proof {
            assert(db.tokens() =~= Map::total(|namespace: Seq<char>| default_etag()));
        }
        db
    }

    /// Where the service is.
    pub fn uri(&self) -> (text: &str)
        ensures
            text@ == self.address(),
    {
        self.uri.as_str()
    }

    /// Gives `namespace` the token of a change made at `millis`.
    pub fn record_etag(&mut self, namespace: &str, millis: u128)
        ensures
            final(self).address() == old(self).address(),
            final(self).tokens() == old(self).tokens().insert(namespace@, etag_text(millis)),
    {
        self.etags.insert(namespace.to_owned(), etag_for(millis));
        proof {
            assert(self.tokens() =~= old(self).tokens().insert(namespace@, etag_text(millis)));
        }
    }

    /// Gives `namespace` the token of a change made now, and returns the
    /// time that the clock gave.
    pub fn update_etag(&mut self, namespace: &str) -> (millis: u128)
        ensures
            final(self).address() == old(self).address(),
            final(self).tokens() == old(self).tokens().insert(namespace@, etag_text(millis)),
    {
        let millis = now_millis();
        self.record_etag(namespace, millis);
        millis
    }

    /// Takes the service's answer to a command that adds to or removes from
    /// the set of `namespace`. The set changed exactly if the service
    /// counted a member; only then does the namespace get a token, that of
    /// `millis`. A failed call is handed on as the store's error and leaves
    /// the tokens alone.
    pub fn changed_at(&mut self, namespace: &str, reply: Result<u8, Failure>, millis: u128) -> (r:
        Result<bool, StoreError>)
        ensures
            final(self).address() == old(self).address(),
            match reply {
                Ok(count) => r == Ok::<bool, StoreError>(count != 0) && final(self).tokens() == (
                if count != 0 {
                    old(self).tokens().insert(namespace@, etag_text(millis))
                } else {
                    old(self).tokens()
                }),
                Err(failure) => r == Err::<bool, StoreError>(store_error(failure)) && final(self).tokens() == old(self).tokens(),
            },
    {
        match reply {
            Ok(count) => {
                let updated = count != 0u8;
                if updated {
                    self.record_etag(namespace, millis);
                }
                Ok(updated)
            },
            Err(failure) => Err(classify(failure)),
        }
    }

    /// Takes the service's answer to the command that enables a flag in
    /// `namespace`. A change gets the token of the time of this call.
    pub fn set_value(&mut self, namespace: &str, added: Result<u8, Failure>) -> (r: Result<
        bool,
        StoreError,
    >)
        ensures
            final(self).address() == old(self).address(),
            match added {
                Ok(count) => r == Ok::<bool, StoreError>(count != 0),
                Err(failure) => r == Err::<bool, StoreError>(store_error(failure)),
            },
            r == Ok::<bool, StoreError>(true) ==> is_assigned(final(self).tokens()[namespace@])
                && final(self).tokens() == old(self).tokens().insert(
                namespace@,
                final(self).tokens()[namespace@],
            ),
            r != Ok::<bool, StoreError>(true) ==> final(self).tokens() == old(self).tokens(),
    {
        match added {
            Ok(count) => {
                let updated = count != 0u8;
                if updated {
                    self.update_etag(namespace);
                }
                Ok(updated)
            },
            Err(failure) => Err(classify(failure)),
        }
    }

    /// Takes the service's answer to the command that disables a flag in
    /// `namespace`. A change gets the token of the time of this call.
    pub fn delete_flag(&mut self, namespace: &str, deleted: Result<u8, Failure>) -> (r: Result<
        bool,
        StoreError,
    >)
        ensures
            final(self).address() == old(self).address(),
            match deleted {
                Ok(count) => r == Ok::<bool, StoreError>(count != 0),
                Err(failure) => r == Err::<bool, StoreError>(store_error(failure)),
            },
            r == Ok::<bool, StoreError>(true) ==> is_assigned(final(self).tokens()[namespace@])
                && final(self).tokens() == old(self).tokens().insert(
                namespace@,
                final(self).tokens()[namespace@],
            ),
            r != Ok::<bool, StoreError>(true) ==> final(self).tokens() == old(self).tokens(),
    {
        match deleted {
            Ok(count) => {
                let updated = count != 0u8;
                if updated {
                    self.update_etag(namespace);
                }
                Ok(updated)
            },
            Err(failure) => Err(classify(failure)),
        }
    }

    /// Takes the service's answer to the command that lists the members of
    /// a set: the flags, each once.
    pub fn get_values(members: Result<Vec<String>, Failure>) -> (r: Result<FlagSet, StoreError>)
        ensures
            match members {
                Ok(list) => r is Ok && r->Ok_0@ == texts(list@).to_set(),
                Err(failure) => r is Err && r->Err_0 == store_error(failure),
            },
    {
        match members {
            Ok(list) => Ok(FlagSet::from_vec(list)),
            Err(failure) => Err(classify(failure)),
        }
    }

    /// The token of `namespace`.
    pub fn etag(&self, namespace: &str) -> (etag: String)
        ensures
            etag@ == self.tokens()[namespace@],
    {
        match self.etags.get(namespace) {
            Some(etag) => etag.clone(),
            None => String::new(),
        }
    }

    /// Takes the service's answer to the probing command: the store can be
    /// used exactly if the call went through.
    pub fn health_check(probe: Result<(), Failure>) -> (r: Result<(), StoreError>)
        ensures
            match probe {
                Ok(_) => r is Ok,
                Err(failure) => r == Err::<(), StoreError>(store_error(failure)),
            },
    {
        match probe {
            Ok(_) => Ok(()),
            Err(failure) => Err(classify(failure)),
        }
    }
}

} // verus!
