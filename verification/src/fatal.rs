//! The fatal conditions under which the runtime throws instead of returning.

use vstd::prelude::*;

verus! {

/// A condition on which the runtime gives up and throws a host exception.
#[derive(Clone, Copy, Debug, PartialEq, Eq, Structural)]
pub enum Fatal {
    /// A null pointer was handed to Rust.
    NullPointer,
    /// An object was borrowed again while a conflicting borrow was alive.
    RecursiveBorrow,
    /// The host asked for an allocation that cannot be described or served.
    InvalidMalloc,
}

/// The message thrown for each fatal condition.
pub open spec fn message_of(f: Fatal) -> Seq<char> {
    match f {
        Fatal::NullPointer => "null pointer passed to rust"@,
        Fatal::RecursiveBorrow => "recursive use of an object detected which would lead to unsafe aliasing in rust"@,
        Fatal::InvalidMalloc => "invalid malloc request"@,
    }
}

impl Fatal {
    /// The message that is thrown to the host for this condition.
    pub fn message(&self) -> (m: &'static str)
        ensures
            m@ == message_of(*self),
    {
        match self {
            Fatal::NullPointer => "null pointer passed to rust",
            Fatal::RecursiveBorrow => "recursive use of an object detected which would lead to unsafe aliasing in rust",
            Fatal::InvalidMalloc => "invalid malloc request",
        }
    }
}

} // verus!
