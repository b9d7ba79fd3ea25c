use vstd::prelude::*;

verus! {

/// The heartbeat interval the threaded binding opens its reliable-datagram
/// transport with when the caller supplies no configuration.
pub const DEFAULT_HEARTBEAT_MILLIS: u64 = 500;

/// Optional tuning values for the transport binding; absence means transport
/// defaults.
#[derive(Clone, Copy, PartialEq, Eq, Structural, Debug)]
pub struct Config {
    /// Interval, in milliseconds, at which the reliable-datagram transport
    /// sends keep-alive heartbeats.
    pub heartbeat_interval_millis: u64,
}

/// The heartbeat interval the transport is actually opened with: the
/// configured value, or the default where no configuration was given.
pub fn effective_heartbeat_millis(config: &Option<Config>) -> (r: u64)
    ensures
        r == (match config {
            Option::Some(c) => c.heartbeat_interval_millis,
            Option::None => DEFAULT_HEARTBEAT_MILLIS,
        }),
{
    match config {
        Option::Some(c) => c.heartbeat_interval_millis,
        Option::None => DEFAULT_HEARTBEAT_MILLIS,
    }
}

} // verus!
