//! Identifiers shared by all actors.

use vstd::prelude::*;

verus! {

/// A process id.
#[allow(non_camel_case_types)]
pub type pid_t = i32;

/// A value that identifies something and can be compared by `same`.
pub trait Id: Copy {
    fn same(self, other: Self) -> (r: bool)
        ensures
            r == (self == other),
    ;
}

/// A native macOS space.
#[derive(Copy, Clone, Debug, PartialEq, Eq, Hash, PartialOrd, Ord, Structural)]
pub struct SpaceId(pub u64);

/// A window as the window server numbers it; zero stands for no window.
#[derive(Copy, Clone, Debug, PartialEq, Eq, Hash, PartialOrd, Ord, Structural)]
pub struct WindowServerId(pub u32);

/// The number of a frame write, by which its echo is recognised; zero is the
/// number of no write.
#[derive(Copy, Clone, Debug, PartialEq, Eq, Hash, PartialOrd, Ord, Structural)]
pub struct TransactionId(pub u32);

impl SpaceId {
    pub fn new(id: u64) -> (r: SpaceId)
        ensures
            r == SpaceId(id),
    {
        SpaceId(id)
    }

    pub fn get(self) -> (r: u64)
        ensures
            r == self.0,
    {
        self.0
    }
}

impl WindowServerId {
    pub fn new(id: u32) -> (r: WindowServerId)
        ensures
            r == WindowServerId(id),
    {
        WindowServerId(id)
    }

    pub fn as_u32(self) -> (r: u32)
        ensures
            r == self.0,
    {
        self.0
    }
}

impl Default for TransactionId {
    fn default() -> (r: Self)
        ensures
            r == TransactionId(0),
    {
        TransactionId(0)
    }
}

impl Id for u64 {
    fn same(self, other: Self) -> (r: bool) {
        self == other
    }
}

impl Id for u32 {
    fn same(self, other: Self) -> (r: bool) {
        self == other
    }
}

impl Id for i32 {
    fn same(self, other: Self) -> (r: bool) {
        self == other
    }
}

impl Id for SpaceId {
    fn same(self, other: Self) -> (r: bool) {
        self == other
    }
}

impl Id for WindowServerId {
    fn same(self, other: Self) -> (r: bool) {
        self == other
    }
}

} // verus!
