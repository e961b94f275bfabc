//! A minimal reactive-value library built around versioned cells.
//!
//! A [`dynamic::Dynamic`] holds a value together with a monotonic version
//! counter that advances exactly once per semantic change.  Observers poll
//! for changes through cursors ([`consumer::Consumer`] and its N-ary
//! companions), which remember the last version they have consumed; polling
//! is the only propagation mechanism, there are no push callbacks.

pub mod consumer;
pub mod dynamic;
pub mod laws;
