use vstd::prelude::*;

verus! {

/// Every failure is fatal: the feed stops at the first one.
#[derive(Clone, Copy, Debug, PartialEq, Eq, Structural)]
pub enum BroadcastError {
    /// The settings could not be loaded at startup.
    Config,
    /// The output connection could not be opened at startup.
    Connect,
    /// Re-loading the settings before a pass failed.
    Reload,
    /// A frame could not be sent over the connection.
    Send,
}

} // verus!
