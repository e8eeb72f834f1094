//! Scoped, dynamically nested local storage.
//!
//! A caller installs a value in a slot for the duration of an inner
//! computation. The computation, and whatever it calls, reads that value; when
//! it ends the slot holds again exactly what it held before.
//!
//! A [`LocalKey`] is one slot. A slot that belongs to one execution context
//! ([`LocalKey::new`]) lets scopes nest. A slot shared by the whole process
//! ([`LocalKey::new_shared`]) has a busy flag and admits one scope at a time.
//! [`LocalKey::sync_scope`] is a scope around a closure, and a
//! [`TaskLocalFuture`] is a scope around a computation that suspends: each of
//! its steps installs the value and takes it out again.
//!
//! The code that a scope runs receives the slot by exclusive borrow. What
//! holds of every scope is proved in [`laws`].

pub mod cell;
pub mod error;
pub mod future;
pub mod guard;
pub mod key;
pub mod laws;

pub use cell::StorageCell;
pub use error::AccessError;
pub use error::ScopeInnerErr;
pub use future::FutureView;
pub use future::Poll;
pub use future::TaskLocalFuture;
pub use guard::Busy;
pub use guard::ReentrancyGuard;
pub use key::KeyView;
pub use key::LocalKey;
