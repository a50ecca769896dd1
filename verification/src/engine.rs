//! What passes between the handles and the engine: what a handle asks to be
//! done before it can take the engine's answer, and the answers that the
//! engine gives while a handle is opened.

use vstd::prelude::*;

verus! {

/// What is to be done with the engine for one operation on a handle, before
/// the handle takes the answer.
#[derive(Clone, Copy, Debug, PartialEq, Eq, Structural)]
pub struct CallPlan {
    /// Drop the engine's reference to the buffer that the packet or frame of
    /// the operation holds, first.
    pub unref: bool,
    /// Make the engine's call. Where this is `false` the handle has the
    /// answer already, and the code handed to it is not read.
    pub call: bool,
}

/// An answer of the engine to a request made while a handle is opened.
#[derive(Clone, Copy, Debug, PartialEq, Eq, Structural)]
pub enum EngineReply {
    /// A lookup or an allocation has returned: an object (`true`) or nothing.
    Object(bool),
    /// A call has returned this result code.
    Code(i32),
    /// What was to be freed has been freed.
    Released,
}

} // verus!
