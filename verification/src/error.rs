//! The failures that the loop reports.
use vstd::prelude::*;

verus! {

/// Why a frame or the whole session failed.
#[derive(Debug, Copy, Clone, PartialEq, Eq)]
pub enum GameError {
    /// A connection could not be opened, or a send or receive on it failed.
    SocketErr,
    /// A frame's draw did not finish within the render deadline.
    Timeout,
}

/// An engine was asked for with a frame rate of zero, which has no frame
/// interval.
#[derive(Debug, Copy, Clone, PartialEq, Eq)]
pub struct ZeroFrameRate;

/// A delay was asked for that the platform timer cannot count.
#[derive(Debug, Copy, Clone, PartialEq, Eq)]
pub struct DelayTooLong;

} // verus!
