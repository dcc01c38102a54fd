//! Request-scoped lending of pooled database connections.
//!
//! A bounded pool of connections is shared by all in-flight requests. A
//! middleware stage attaches either the pool handle itself (shared lending)
//! or a single checked-out connection behind a mutual-exclusion guard
//! (exclusive lending) to each request's extension slot, exactly once per
//! request. Downstream handlers reach the lent resource through accessors,
//! and the checkout returns to the pool when the request's slot is torn
//! down.
//!
//! This crate verifies the lending protocol itself: pool accounting,
//! idempotent attachment, accessor preconditions and the serialization of
//! exclusive access. Performing real I/O against a database and driving an
//! asynchronous request pipeline are left to the embedding application,
//! which calls the decision functions here at each step.

pub mod errors;
pub mod laws;
pub mod lending;
pub mod pool;
pub mod uri;
