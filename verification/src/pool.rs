//! Model of the shared connection pool.
//!
//! The pool is a bounded set of live connections; its internal algorithm
//! (dialing, health checks, recycling) belongs to the external pooling
//! library and is out of scope. What is modelled and verified here is the
//! accounting this layer relies on: how many connections a pool may lend,
//! which checkouts are outstanding, and that every checkout is distinct
//! and is returned exactly once.
//!
//! Each checkout carries a *ticket*, a number fresh among all checkouts the
//! pool ever handed out, so that simultaneous checkouts can be told apart.

use vstd::prelude::*;
use vstd::set::axiom_set_insert_len;
use vstd::set::axiom_set_remove_len;
use crate::errors::AcquisitionError;
use crate::errors::ConfigError;
use crate::uri::check_uri;
use crate::uri::is_valid_uri;

verus! {

/// Capacity used when construction is asked for no particular bound.
pub const DEFAULT_MAX_POOL_SIZE: usize = 10;

/// Abstract state of a pool: its size bound, the tickets of the checkouts
/// currently outstanding, and the next fresh ticket.
#[verifier::ext_equal]
pub ghost struct PoolView {
    pub capacity: nat,
    pub lent: Set<nat>,
    pub next_ticket: nat,
}

/// Validity of a pool state: the outstanding checkouts form a finite set,
/// never exceed the capacity, and all their tickets were issued in the
/// past (are below the next fresh ticket).
pub open spec fn pool_inv(p: PoolView) -> bool {
    &&& p.lent.finite()
    &&& p.lent.len() <= p.capacity
    &&& forall|t: nat| p.lent.contains(t) ==> t < p.next_ticket
}

/// Connections still available for checkout.
pub open spec fn spec_available(p: PoolView) -> nat {
    (p.capacity - p.lent.len()) as nat
}

/// A pool with nothing lent out and no ticket issued yet.
pub open spec fn spec_fresh_pool(capacity: nat) -> PoolView {
    PoolView { capacity, lent: Set::empty(), next_ticket: 0 }
}

/// One checkout step: if the pool is not exhausted, lend a connection under
/// the next fresh ticket; otherwise leave the pool as it is and lend
/// nothing.
pub open spec fn spec_checkout(p: PoolView) -> (PoolView, Option<nat>) {
    if p.lent.len() < p.capacity {
        (
            PoolView {
                capacity: p.capacity,
                lent: p.lent.insert(p.next_ticket),
                next_ticket: p.next_ticket + 1,
            },
            Some(p.next_ticket),
        )
    } else {
        (p, None)
    }
}

/// One return step: the checkout under ticket `t` comes back to the pool.
pub open spec fn spec_give_back(p: PoolView, t: nat) -> PoolView {
    PoolView { capacity: p.capacity, lent: p.lent.remove(t), next_ticket: p.next_ticket }
}

/// Whether a requested size bound admits a pool at all.
pub open spec fn spec_size_ok(max_size: Option<usize>) -> bool {
    match max_size {
        Some(n) => n >= 1,
        None => true,
    }
}

/// The capacity a construction request asks for.
pub open spec fn spec_capacity_of(max_size: Option<usize>) -> nat {
    match max_size {
        Some(n) => n as nat,
        None => DEFAULT_MAX_POOL_SIZE as nat,
    }
}

/// One connection checked out of the pool, alive until it is given back.
/// Deliberately not clonable: a value of this type stands for one checkout.
#[derive(Debug)]
pub struct Connection {
    ticket: u64,
}

impl View for Connection {
    type V = nat;

    closed spec fn view(&self) -> nat {
        self.ticket as nat
    }
}

impl Connection {
    /// The ticket of this checkout; distinct simultaneous checkouts carry
    /// distinct tickets.
    pub fn ticket(&self) -> (t: u64)
        ensures
            t as nat == self@,
    {
        self.ticket
    }
}

/// The pool model: a handle the embedding application keeps beside the real
/// pool, mirroring how many connections exist and which are lent out.
pub struct Pool {
    capacity: usize,
    in_use: usize,
    next_ticket: u64,
    lent: Ghost<Set<nat>>,
}

impl View for Pool {
    type V = PoolView;

    closed spec fn view(&self) -> PoolView {
        PoolView {
            capacity: self.capacity as nat,
            lent: self.lent@,
            next_ticket: self.next_ticket as nat,
        }
    }
}

impl Pool {
    /// Well-formedness: the abstract state is valid and the lent counter
    /// agrees with the set of outstanding tickets.
    pub closed spec fn wf(&self) -> bool {
        &&& pool_inv(self@)
        &&& self.in_use as nat == self.lent@.len()
    }

    /// `wf` is opaque to callers; this exposes the view-level invariant.
    pub proof fn lemma_wf(&self)
        requires
            self.wf(),
        ensures
            pool_inv(self@),
    {
    }

    /// Build a pool eagerly from a connection URI and an optional size
    /// bound. Fails with `ConfigError::MalformedUri` when the URI is not
    /// well formed, and with `ConfigError::InvalidPoolSize` when the
    /// requested bound admits no connection; succeeds exactly otherwise,
    /// with nothing lent out yet.
    pub fn construct(uri: &str, max_size: Option<usize>) -> (r: Result<Pool, ConfigError>)
        ensures
            match r {
                Ok(p) => {
                    &&& is_valid_uri(uri@)
                    &&& spec_size_ok(max_size)
                    &&& p.wf()
                    &&& p@ == spec_fresh_pool(spec_capacity_of(max_size))
                },
                Err(e) => {
                    &&& !(is_valid_uri(uri@) && spec_size_ok(max_size))
                    &&& e == (if !is_valid_uri(uri@) {
                        ConfigError::MalformedUri
                    } else {
                        ConfigError::InvalidPoolSize
                    })
                },
            },
    {
        if !check_uri(uri) {
            return Err(ConfigError::MalformedUri);
        }
        let capacity: usize = match max_size {
            Some(n) => {
                if n < 1 {
                    return Err(ConfigError::InvalidPoolSize);
                }
                n
            },
            None => DEFAULT_MAX_POOL_SIZE,
        };
        Ok(Pool { capacity, in_use: 0, next_ticket: 0, lent: Ghost(Set::empty()) })
    }

    /// Adapter for a pool configured and built elsewhere: adopt it at the
    /// given capacity, with no checkout outstanding.
    pub fn adopt(capacity: usize) -> (p: Pool)
        ensures
            p.wf(),
            p@ == spec_fresh_pool(capacity as nat),
    {
        Pool { capacity, in_use: 0, next_ticket: 0, lent: Ghost(Set::empty()) }
    }

    /// The size bound the pool was built with.
    pub fn capacity(&self) -> (c: usize)
        ensures
            c as nat == self@.capacity,
    {
        self.capacity
    }

    /// How many connections are available for checkout right now.
    pub fn available(&self) -> (a: usize)
        requires
            self.wf(),
        ensures
            a as nat == spec_available(self@),
    {
        self.capacity - self.in_use
    }

    /// Check one connection out. Succeeds exactly when the pool is not
    /// exhausted; the failure is never retried here — retry policy belongs
    /// to the caller.
    pub fn checkout(&mut self) -> (r: Result<Connection, AcquisitionError>)
        requires
            old(self).wf(),
            old(self)@.next_ticket < u64::MAX,
        ensures
            final(self).wf(),
            final(self)@ == spec_checkout(old(self)@).0,
            match r {
                Ok(c) => spec_checkout(old(self)@).1 == Some(c@),
                Err(e) => spec_checkout(old(self)@).1 is None && e == AcquisitionError::Exhausted,
            },
    {
        let ghost p0 = self@;
        if self.in_use < self.capacity {
            let t = self.next_ticket;
            self.next_ticket = t + 1;
            self.in_use = self.in_use + 1;
            self.lent = Ghost(self.lent@.insert(t as nat));
            proof {
                assert(!p0.lent.contains(t as nat));
                axiom_set_insert_len(p0.lent, t as nat);
                assert(self@ =~= spec_checkout(p0).0);
            }
            Ok(Connection { ticket: t })
        } else {
            Err(AcquisitionError::Exhausted)
        }
    }

    /// Return a checkout to the pool. Consumes the connection: each
    /// checkout is given back exactly once.
    pub fn give_back(&mut self, c: Connection)
        requires
            old(self).wf(),
            old(self)@.lent.contains(c@),
        ensures
            final(self).wf(),
            final(self)@ == spec_give_back(old(self)@, c@),
    {
        let ghost p0 = self@;
        proof {
            axiom_set_remove_len(p0.lent, c@);
        }
        self.in_use = self.in_use - 1;
        self.lent = Ghost(self.lent@.remove(c.ticket as nat));
        proof {
            assert(self@ =~= spec_give_back(p0, c@));
        }
    }
}

} // verus!
