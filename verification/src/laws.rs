//! Laws of the lending protocol.
//!
//! Each lemma here states a protocol-wide guarantee over the abstract
//! transition steps of `pool` and `lending`, for every state those steps
//! can be run from — not for chosen values. The exec functions' contracts
//! tie their results to the same transition steps, so these laws carry over
//! to every run of the executable protocol.

use vstd::prelude::*;
use crate::errors::AcquisitionError;
use crate::lending::AttachView;
use crate::lending::LockReply;
use crate::lending::outstanding_handles;
use crate::lending::spec_attach_exclusive;
use crate::lending::spec_attach_shared;
use crate::lending::spec_detach;
use crate::lending::spec_get_pooled;
use crate::lending::spec_try_lock;
use crate::lending::spec_unlock;
use crate::pool::PoolView;
use crate::pool::pool_inv;
use crate::pool::spec_available;
use crate::pool::spec_checkout;
use crate::pool::spec_give_back;

verus! {

/// Idempotent attachment, shared flavor: however often the middleware step
/// runs on a request, the slot is populated at most once — a populated slot
/// is never swapped or repopulated, and a second run changes nothing.
pub proof fn lemma_attach_shared_idempotent(s: Option<AttachView>)
    ensures
        spec_attach_shared(spec_attach_shared(s)) == spec_attach_shared(s),
        s is Some ==> spec_attach_shared(s) == s,
{
}

/// Idempotent attachment, exclusive flavor: a second middleware run on the
/// same request (nested pipeline, re-entrant installation) leaves the slot
/// and the pool exactly as the first run left them; on an already-populated
/// slot the step skips acquisition altogether and succeeds.
pub proof fn lemma_attach_exclusive_idempotent(s: Option<AttachView>, p: PoolView)
    ensures
        spec_attach_exclusive(
            spec_attach_exclusive(s, p).0,
            spec_attach_exclusive(s, p).1,
        ).0 == spec_attach_exclusive(s, p).0,
        spec_attach_exclusive(
            spec_attach_exclusive(s, p).0,
            spec_attach_exclusive(s, p).1,
        ).1 == spec_attach_exclusive(s, p).1,
        s is Some ==> spec_attach_exclusive(s, p) == (s, p, Ok::<(), AcquisitionError>(())),
{
}

/// Serialization of exclusive access: at most one exclusive handle is
/// outstanding at any instant; a grant happens exactly when the request is
/// exclusively attached and the guard is free; while a handle is
/// outstanding every further attempt must wait and changes nothing; and a
/// release makes the next attempt succeed again.
pub proof fn lemma_exclusive_serialized(s: Option<AttachView>)
    ensures
        outstanding_handles(s) <= 1,
        spec_try_lock(s).1 is Granted <==> (s matches Option::Some(
            AttachView::Exclusive { conn, locked },
        ) && !locked),
        spec_try_lock(s).1 is Granted ==> outstanding_handles(spec_try_lock(s).0) == 1,
        spec_try_lock(s).1 is Granted ==> spec_try_lock(spec_try_lock(s).0).1 is Busy,
        spec_try_lock(s).1 is Busy ==> spec_try_lock(s).0 == s,
        spec_try_lock(s).1 is Granted ==> spec_try_lock(
            spec_unlock(spec_try_lock(s).0),
        ).1 is Granted,
{
}

/// Independence of shared-lending accessor calls: whether
/// `get_pooled_connection` succeeds is a function of the pool's current
/// exhaustion state alone — not of how many accessors ran before in the
/// same request, nor of anything else in the request's state. A successful
/// call takes exactly one connection; a failed call takes none.
pub proof fn lemma_get_pooled_independent(
    s1: Option<AttachView>,
    s2: Option<AttachView>,
    p: PoolView,
)
    requires
        pool_inv(p),
        s1 == Option::Some(AttachView::Shared),
        s2 == Option::Some(AttachView::Shared),
    ensures
        spec_get_pooled(s1, p) == spec_get_pooled(s2, p),
        spec_get_pooled(s1, p).1 is Ok <==> p.lent.len() < p.capacity,
        spec_get_pooled(s1, p).1 is Ok ==> spec_available(spec_get_pooled(s1, p).0)
            == spec_available(p) - 1,
        !(spec_get_pooled(s1, p).1 is Ok) ==> spec_get_pooled(s1, p).0 == p,
{
    if p.lent.len() < p.capacity {
        assert(!p.lent.contains(p.next_ticket));
        vstd::set::axiom_set_insert_len(p.lent, p.next_ticket);
    }
}

/// A completed checkout-and-return cycle restores the pool: the outstanding
/// set and the available count come back to their pre-cycle values (only
/// the fresh-ticket counter moves on).
pub proof fn lemma_cycle_restores(p: PoolView)
    requires
        pool_inv(p),
    ensures
        spec_checkout(p).1 matches Option::Some(t) ==> spec_give_back(
            spec_checkout(p).0,
            t,
        ).lent == p.lent,
        spec_checkout(p).1 matches Option::Some(t) ==> spec_available(
            spec_give_back(spec_checkout(p).0, t),
        ) == spec_available(p),
{
    if p.lent.len() < p.capacity {
        assert(!p.lent.contains(p.next_ticket));
        assert(p.lent.insert(p.next_ticket).remove(p.next_ticket) =~= p.lent);
    }
}

/// The exclusive-lending round trip: attaching to a fresh request and then
/// tearing the request down leaves the pool's outstanding set and available
/// count exactly as they were before the request — whether or not the
/// attachment succeeded.
pub proof fn lemma_request_roundtrip_restores(s: Option<AttachView>, p: PoolView)
    requires
        pool_inv(p),
        s is None,
    ensures
        spec_detach(
            spec_attach_exclusive(s, p).0,
            spec_attach_exclusive(s, p).1,
        ).lent == p.lent,
        spec_available(
            spec_detach(spec_attach_exclusive(s, p).0, spec_attach_exclusive(s, p).1),
        ) == spec_available(p),
{
    lemma_cycle_restores(p);
}

} // verus!
