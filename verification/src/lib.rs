//! A verified engine for mirroring a freedesktop status-notifier ("system
//! tray") service into a render-ready item catalog, and for turning user
//! clicks back into remote activation calls.
//!
//! The crate holds the tray synchronization state machine, the item catalog,
//! the icon resolver and the bus-address / activation logic. Everything that
//! talks to the bus, the tray client library or the screen lives outside this
//! crate and drives the engine through plain values.

use vstd::prelude::*;
use vstd::string::StringExecFns;

pub mod activation;
pub mod address;
pub mod catalog;
pub mod engine;
pub mod icon;
pub mod item;

verus! {

/// The identifier this widget registers under on the compositor.
pub fn namespace() -> (r: String)
    ensures
        r@ == "vibebar"@,
{
    String::from_str("vibebar")
}

} // verus!
