//! The registry of open connections.

use crate::engine::{error_words, open_database};
use crate::error::BridgeError;
use std::collections::HashMap;
use vstd::prelude::*;

verus! {

broadcast use vstd::std_specs::hash::group_hash_axioms;

/// The open connections of one session, each under the handle that `open`
/// gave for it.
///
/// Handles are counted up from 0 and never given twice: every handle in the
/// registry lies below the next one to be given.
pub struct ConnectionRegistry {
    next_handle: u32,
    connections: HashMap<u32, rusqlite::Connection>,
}

impl ConnectionRegistry {
    /// The handle that the next call of `open` takes.
    pub closed spec fn next_handle(&self) -> u32 {
        self.next_handle
    }

    /// The connections, by handle.
    pub closed spec fn connections(&self) -> Map<u32, rusqlite::Connection> {
        self.connections@
    }

    /// The handles that stand for a connection.
    pub open spec fn handles(&self) -> Set<u32> {
        self.connections().dom()
    }

    /// Whether every handle that stands for a connection lies below the next
    /// one to be given. Every registry keeps to this.
    pub open spec fn handles_below_next(&self) -> bool {
        forall|handle: u32| self.handles().contains(handle) ==> handle < self.next_handle()
    }

    /// Whether a call of `open` that gave `handle` leads from this registry
    /// to `after`: the handle was the next one and in no use, the next one
    /// is now one greater, and `after` holds one connection more, under the
    /// handle.
    pub open spec fn opened(self, after: Self, handle: u32) -> bool {
        &&& handle == self.next_handle()
        &&& after.next_handle() == handle + 1
        &&& !self.handles().contains(handle)
        &&& after.handles() == self.handles().insert(handle)
        &&& after.connections().remove(handle) == self.connections()
    }

    /// Two openings, one straight after the other, give two handles of
    /// which the second is the greater, by one.
    pub proof fn lemma_handles_increase(self, between: Self, after: Self, first: u32, second: u32)
        requires
            self.opened(between, first),
            between.opened(after, second),
        ensures
            first < second,
            second == first + 1,
            after.handles().contains(first),
            after.handles().contains(second),
    {
    }

    #[verifier::type_invariant]
    spec fn below_next(&self) -> bool {
        forall|handle: u32| self.connections@.contains_key(handle) ==> handle < self.next_handle
    }

    /// A registry with no connection, whose first handle will be 0.
    pub fn new() -> (r: Self)
        ensures
            r.next_handle() == 0,
            r.connections() == Map::<u32, rusqlite::Connection>::empty(),
            r.handles_below_next(),
    {
        ConnectionRegistry { next_handle: 0, connections: HashMap::new() }
    }

    /// Takes the next handle for an attempt to open a database, and keeps
    /// the connection under it where the attempt gave one.
    ///
    /// Every attempt takes a handle, whether or not it gave a connection.
    /// Only when no handle is left is the attempt turned away: the registry
    /// then stays as it was and the connection, if there is one, is closed.
    pub fn register(
        &mut self,
        attempt: Result<rusqlite::Connection, rusqlite::Error>,
    ) -> (r: Result<u32, BridgeError>)
        ensures
            old(self).handles_below_next(),
            final(self).handles_below_next(),
            old(self).next_handle() == u32::MAX ==> {
                &&& r == Err::<u32, BridgeError>(BridgeError::HandlesExhausted)
                &&& final(self).next_handle() == old(self).next_handle()
                &&& final(self).connections() == old(self).connections()
            },
            old(self).next_handle() < u32::MAX ==> {
                &&& final(self).next_handle() == old(self).next_handle() + 1
                &&& match attempt {
                    Ok(connection) => {
                        &&& r == Ok::<u32, BridgeError>(old(self).next_handle())
                        &&& !old(self).handles().contains(old(self).next_handle())
                        &&& final(self).connections() == old(self).connections().insert(
                            old(self).next_handle(),
                            connection,
                        )
                    },
                    Err(error) => {
                        &&& r matches Err(BridgeError::Connection(detail))
                        &&& detail@ == error_words(error)
                        &&& final(self).connections() == old(self).connections()
                    },
                }
            },
    {
        proof {
            use_type_invariant(&*self);
        }
        if self.next_handle == u32::MAX {
            return Err(BridgeError::HandlesExhausted);
        }
        let handle = self.next_handle;
        self.next_handle = handle + 1;
        match attempt {
            Ok(connection) => {
                // The map is taken out for the insertion and put back whole.
                let mut connections: HashMap<u32, rusqlite::Connection> = HashMap::new();
                std::mem::swap(&mut self.connections, &mut connections);
                connections.insert(handle, connection);
                std::mem::swap(&mut self.connections, &mut connections);
                Ok(handle)
            },
            Err(error) => Err(BridgeError::connection(&error)),
        }
    }

    /// Opens the database at `path` and keeps the connection under the next
    /// handle.
    ///
    /// Every attempt takes a handle, whether or not the engine opens the
    /// database; only when none is left does the call fail without asking
    /// the engine. A handle that comes back was in no earlier use, and the
    /// connections under the other handles stay as they were.
    pub fn open(&mut self, path: &str) -> (r: Result<u32, BridgeError>)
        ensures
            old(self).handles_below_next(),
            final(self).handles_below_next(),
            old(self).next_handle() == u32::MAX <==> r == Err::<u32, BridgeError>(
                BridgeError::HandlesExhausted,
            ),
            match r {
                Ok(handle) => old(self).opened(*final(self), handle),
                Err(BridgeError::HandlesExhausted) => {
                    &&& final(self).next_handle() == old(self).next_handle()
                    &&& final(self).connections() == old(self).connections()
                },
                Err(BridgeError::Connection(_)) => {
                    &&& final(self).next_handle() == old(self).next_handle() + 1
                    &&& final(self).connections() == old(self).connections()
                },
                Err(_) => false,
            },
    {
        proof {
            use_type_invariant(&*self);
        }
        if self.next_handle == u32::MAX {
            return Err(BridgeError::HandlesExhausted);
        }
        let r = self.register(open_database(path));
        proof {
            if r is Ok {
                assert(self.connections().remove(r->Ok_0) =~= old(self).connections());
            }
        }
        r
    }

    /// Whether `handle` stands for a connection.
    pub fn contains(&self, handle: u32) -> (r: bool)
        ensures
            r == self.handles().contains(handle),
            self.handles_below_next(),
    {
        proof {
            use_type_invariant(self);
        }
        self.connections.contains_key(&handle)
    }

    /// The connection under `handle`, if there is one.
    pub fn lookup(&self, handle: u32) -> (r: Option<&rusqlite::Connection>)
        ensures
            match r {
                Some(connection) => self.handles().contains(handle) && self.connections()[handle]
                    == *connection,
                None => !self.handles().contains(handle),
            },
            self.handles_below_next(),
    {
        proof {
            use_type_invariant(self);
        }
        self.connections.get(&handle)
    }
}

} // verus!
