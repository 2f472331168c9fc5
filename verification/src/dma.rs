//! Direct memory access: channel handles.

use vstd::prelude::*;

verus! {

/// Where a channel sits in the controller.
#[derive(Debug, Clone, Copy, PartialEq, Eq, Structural)]
pub struct ChannelInfo {
    /// The channel's number.
    pub num: usize,
}

/// A channel that has lost its own type.
#[derive(Debug, Clone, Copy, PartialEq, Eq, Structural)]
pub struct AnyChannel {
    pub id: u8,
}

impl AnyChannel {
    /// Where the channel sits in the controller.
    pub fn info(&self) -> (r: ChannelInfo)
        ensures
            r.num == self.id,
    {
        ChannelInfo { num: self.id as usize }
    }

    /// The channel's number.
    pub fn id(&self) -> (r: u8)
        ensures
            r == self.id,
    {
        self.id
    }
}

/// Stands where a channel is asked for and none is to be used.
#[derive(Debug, Clone, Copy, PartialEq, Eq, Structural)]
pub struct NoDma;

} // verus!
