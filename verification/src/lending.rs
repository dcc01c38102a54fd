//! The lending protocol: middleware attachment, request accessors, and
//! teardown.
//!
//! Per request the protocol is a small state machine over the request's
//! extension slot: absent at request start, populated at most once by the
//! middleware, read by accessors, discarded with the request. Two lending
//! policies are supported, explicitly and by name:
//!
//! - *shared lending* (`attach_shared` / `get_pooled_connection`): the pool
//!   handle itself is attached; every accessor call is an independent,
//!   fallible checkout, and the caller releases each one on its own;
//! - *exclusive lending* (`attach_exclusive` / `try_lock` / `unlock`): one
//!   connection is checked out when the middleware runs and sits behind a
//!   mutual-exclusion guard for the rest of the request; accessors take
//!   turns on it and the checkout returns to the pool at teardown.
//!
//! The functions here are the decision steps of the protocol. The embedding
//! application drives them from its pipeline: it maps `MustWait` to a
//! cooperative suspension, `NotAttached` and `PreconditionViolation` to a
//! fatal server fault, and calls `detach` when the request's scope ends.

use vstd::prelude::*;
use crate::errors::AccessError;
use crate::errors::AcquisitionError;
use crate::pool::Connection;
use crate::pool::Pool;
use crate::pool::PoolView;
use crate::pool::spec_checkout;
use crate::pool::spec_give_back;

verus! {

/// Abstract state of a request's attachment.
pub ghost enum AttachView {
    /// The pool handle was cloned into the request.
    Shared,
    /// A single checkout (by ticket) sits behind the guard; `locked` says
    /// whether an exclusive handle is outstanding right now.
    Exclusive { conn: nat, locked: bool },
}

/// What the middleware stored in the request's extension slot.
pub enum Attachment {
    /// Shared lending: accessors check connections out themselves.
    SharedPool,
    /// Exclusive lending: the request's one connection and its guard.
    Exclusive(GuardedConnection),
}

/// The single lent connection of a request together with the state of its
/// mutual-exclusion guard.
pub struct GuardedConnection {
    conn: Connection,
    locked: bool,
}

/// A request's extension slot: the per-request, type-keyed storage cell
/// this layer owns. Absent at request start, populated at most once.
pub struct Slot {
    entry: Option<Attachment>,
}

impl View for Slot {
    type V = Option<AttachView>;

    closed spec fn view(&self) -> Option<AttachView> {
        match self.entry {
            Option::None => Option::None,
            Option::Some(Attachment::SharedPool) => Option::Some(AttachView::Shared),
            Option::Some(Attachment::Exclusive(g)) => Option::Some(
                AttachView::Exclusive { conn: g.conn@, locked: g.locked },
            ),
        }
    }
}

/// Witness of exclusive access to the request's lent connection.
/// Deliberately not clonable: at most one is outstanding at any instant.
#[derive(Debug)]
pub struct ExclusiveHandle {
    conn: u64,
}

impl View for ExclusiveHandle {
    type V = nat;

    closed spec fn view(&self) -> nat {
        self.conn as nat
    }
}

impl ExclusiveHandle {
    /// The ticket of the connection this handle grants access to.
    pub fn ticket(&self) -> (t: u64)
        ensures
            t as nat == self@,
    {
        self.conn
    }
}

/// Outcome of one exclusive-lock attempt.
pub enum LockAttempt {
    /// The guard was free; the caller now holds the one exclusive handle.
    Acquired(ExclusiveHandle),
    /// Another holder is outstanding: suspend and retry after a release.
    MustWait,
    /// The middleware never attached an exclusive lend to this request: a
    /// precondition violation, fatal to the request.
    NotAttached,
}

/// Abstract outcome of one exclusive-lock attempt.
pub ghost enum LockReply {
    Granted { conn: nat },
    Busy,
    Unattached,
}

/// Attachment step, shared flavor: populate an empty slot with the pool
/// handle; leave a populated slot exactly as it is.
pub open spec fn spec_attach_shared(s: Option<AttachView>) -> Option<AttachView> {
    if s is Some {
        s
    } else {
        Option::Some(AttachView::Shared)
    }
}

/// Attachment step, exclusive flavor: on an empty slot, one checkout; the
/// pool's failure is the step's failure. A populated slot and the pool stay
/// exactly as they are.
pub open spec fn spec_attach_exclusive(s: Option<AttachView>, p: PoolView) -> (
    Option<AttachView>,
    PoolView,
    Result<(), AcquisitionError>,
) {
    if s is Some {
        (s, p, Ok(()))
    } else {
        match spec_checkout(p).1 {
            Option::Some(t) => (
                Option::Some(AttachView::Exclusive { conn: t, locked: false }),
                spec_checkout(p).0,
                Ok(()),
            ),
            Option::None => (s, p, Err(AcquisitionError::Exhausted)),
        }
    }
}

/// Accessor step, shared flavor: an independent checkout from the attached
/// pool handle; without a shared attachment, a precondition violation.
pub open spec fn spec_get_pooled(s: Option<AttachView>, p: PoolView) -> (
    PoolView,
    Result<nat, AccessError>,
) {
    match s {
        Option::Some(AttachView::Shared) => match spec_checkout(p).1 {
            Option::Some(t) => (spec_checkout(p).0, Ok(t)),
            Option::None => (p, Err(AccessError::Acquisition(AcquisitionError::Exhausted))),
        },
        _ => (p, Err(AccessError::PreconditionViolation)),
    }
}

/// Lock step, exclusive flavor: grant the guard when it is free, report it
/// busy while a handle is outstanding, and report a missing attachment.
pub open spec fn spec_try_lock(s: Option<AttachView>) -> (Option<AttachView>, LockReply) {
    match s {
        Option::Some(AttachView::Exclusive { conn, locked }) => {
            if locked {
                (s, LockReply::Busy)
            } else {
                (
                    Option::Some(AttachView::Exclusive { conn, locked: true }),
                    LockReply::Granted { conn },
                )
            }
        },
        _ => (s, LockReply::Unattached),
    }
}

/// Release step: the guard becomes free again; anything else is untouched.
pub open spec fn spec_unlock(s: Option<AttachView>) -> Option<AttachView> {
    match s {
        Option::Some(AttachView::Exclusive { conn, locked }) => Option::Some(
            AttachView::Exclusive { conn, locked: false },
        ),
        _ => s,
    }
}

/// Teardown step: an exclusive lend returns its checkout to the pool; a
/// shared lend has nothing to return here.
pub open spec fn spec_detach(s: Option<AttachView>, p: PoolView) -> PoolView {
    match s {
        Option::Some(AttachView::Exclusive { conn, locked }) => spec_give_back(p, conn),
        _ => p,
    }
}

/// How many exclusive handles are outstanding for a slot.
pub open spec fn outstanding_handles(s: Option<AttachView>) -> nat {
    match s {
        Option::Some(AttachView::Exclusive { conn, locked }) => if locked {
            1nat
        } else {
            0nat
        },
        _ => 0nat,
    }
}

impl Slot {
    /// A request starts with nothing attached.
    pub fn new() -> (s: Slot)
        ensures
            s@ is None,
    {
        Slot { entry: Option::None }
    }

    /// Whether the middleware has attached anything to this request yet.
    pub fn is_attached(&self) -> (r: bool)
        ensures
            r == self@ is Some,
    {
        match &self.entry {
            Option::Some(_) => true,
            Option::None => false,
        }
    }
}

/// Middleware step, shared flavor: clone the pool handle into the slot —
/// unless the slot is already populated (re-entrant installation, nested
/// pipeline), which leaves it exactly as it was.
pub fn attach_shared(slot: &mut Slot)
    ensures
        final(slot)@ == spec_attach_shared(old(slot)@),
{
    match &slot.entry {
        Option::Some(_) => {},
        Option::None => {
            slot.entry = Option::Some(Attachment::SharedPool);
        },
    }
}

/// Middleware step, exclusive flavor: on a fresh request, perform exactly
/// one checkout and store it behind an unlocked guard; pool exhaustion is
/// fatal to the request and is not retried. On a populated slot, skip
/// acquisition and leave slot and pool exactly as they were.
pub fn attach_exclusive(slot: &mut Slot, pool: &mut Pool) -> (r: Result<(), AcquisitionError>)
    requires
        old(pool).wf(),
        old(pool)@.next_ticket < u64::MAX,
    ensures
        final(pool).wf(),
        (final(slot)@, final(pool)@, r) == spec_attach_exclusive(old(slot)@, old(pool)@),
{
    match &slot.entry {
        Option::Some(_) => Ok(()),
        Option::None => match pool.checkout() {
            Ok(c) => {
                slot.entry = Option::Some(
                    Attachment::Exclusive(GuardedConnection { conn: c, locked: false }),
                );
                Ok(())
            },
            Err(e) => Err(e),
        },
    }
}

/// Accessor, shared flavor: a fresh, independent checkout from the pool
/// handle attached to the request. Succeeds or fails on the pool's current
/// exhaustion state alone; each returned connection is released on its own
/// through `Pool::give_back`. Without a shared attachment (middleware never
/// ran, or the request is under exclusive lending) this is a precondition
/// violation.
pub fn get_pooled_connection(slot: &Slot, pool: &mut Pool) -> (r: Result<Connection, AccessError>)
    requires
        old(pool).wf(),
        old(pool)@.next_ticket < u64::MAX,
    ensures
        final(pool).wf(),
        final(pool)@ == spec_get_pooled(slot@, old(pool)@).0,
        match r {
            Ok(c) => spec_get_pooled(slot@, old(pool)@).1 == Ok::<nat, AccessError>(c@),
            Err(e) => spec_get_pooled(slot@, old(pool)@).1 == Err::<nat, AccessError>(e),
        },
{
    match &slot.entry {
        Option::Some(Attachment::SharedPool) => match pool.checkout() {
            Ok(c) => Ok(c),
            Err(_e) => Err(AccessError::Acquisition(AcquisitionError::Exhausted)),
        },
        _ => Err(AccessError::PreconditionViolation),
    }
}

/// Accessor, exclusive flavor, one decision step. `Acquired` hands over the
/// only exclusive handle; `MustWait` asks the embedding application to
/// suspend the calling task and retry once the holder releases; and
/// `NotAttached` reports the precondition violation of running before the
/// middleware.
pub fn try_lock(slot: &mut Slot) -> (r: LockAttempt)
    ensures
        final(slot)@ == spec_try_lock(old(slot)@).0,
        match r {
            LockAttempt::Acquired(h) => spec_try_lock(old(slot)@).1 == (LockReply::Granted {
                conn: h@,
            }),
            LockAttempt::MustWait => spec_try_lock(old(slot)@).1 is Busy,
            LockAttempt::NotAttached => spec_try_lock(old(slot)@).1 is Unattached,
        },
{
    match &mut slot.entry {
        Option::Some(Attachment::Exclusive(g)) => {
            if g.locked {
                LockAttempt::MustWait
            } else {
                g.locked = true;
                LockAttempt::Acquired(ExclusiveHandle { conn: g.conn.ticket() })
            }
        },
        _ => LockAttempt::NotAttached,
    }
}

/// Release the exclusive guard. Consumes the handle: one release per grant,
/// when the holder's scope ends.
pub fn unlock(slot: &mut Slot, handle: ExclusiveHandle)
    requires
        old(slot)@ matches Option::Some(AttachView::Exclusive { conn, locked })
            && locked && handle@ == conn,
    ensures
        final(slot)@ == spec_unlock(old(slot)@),
{
    match &mut slot.entry {
        Option::Some(Attachment::Exclusive(g)) => {
            g.locked = false;
        },
        _ => {},
    }
}

/// End-of-request teardown: the slot is discarded with the request's scope,
/// and an exclusive lend returns its one checkout to the pool — whether or
/// not the guard is currently held, since an aborted request drops any
/// guard together with the slot. Under shared lending nothing returns
/// here: each accessor checkout is released on its own.
pub fn detach(slot: Slot, pool: &mut Pool)
    requires
        old(pool).wf(),
        slot@ matches Option::Some(AttachView::Exclusive { conn, locked })
            ==> old(pool)@.lent.contains(conn),
    ensures
        final(pool).wf(),
        final(pool)@ == spec_detach(slot@, old(pool)@),
{
    match slot.entry {
        Option::Some(Attachment::Exclusive(g)) => {
            pool.give_back(g.conn);
        },
        _ => {},
    }
}

} // verus!
