use vstd::prelude::*;

verus! {

/// A byte offset into the heap arena.
#[derive(Debug, Clone, Copy, PartialEq, Eq, Hash, Structural)]
pub struct ArenaPointer(pub u32);

/// The pointer value that stands for "no term".
pub const NULL_POINTER_ADDRESS: u32 = 0xFFFFFFFF;

impl ArenaPointer {
    /// The null pointer.
    pub fn null() -> (result: ArenaPointer)
        ensures
            result.0 == NULL_POINTER_ADDRESS,
    {
        ArenaPointer(NULL_POINTER_ADDRESS)
    }

    /// The placeholder written into fields that have not been assigned yet (the null address).
    pub fn uninitialized() -> (result: ArenaPointer)
        ensures
            result.0 == NULL_POINTER_ADDRESS,
    {
        ArenaPointer(NULL_POINTER_ADDRESS)
    }

    /// Whether this is the null pointer.
    pub fn is_null(self) -> (result: bool)
        ensures
            result == (self.0 == NULL_POINTER_ADDRESS),
    {
        self.0 == NULL_POINTER_ADDRESS
    }

    /// This pointer, or `None` if it is null.
    pub fn as_non_null(self) -> (result: Option<ArenaPointer>)
        ensures
            self.0 == NULL_POINTER_ADDRESS ==> result is None,
            self.0 != NULL_POINTER_ADDRESS ==> result == Some(self),
    {
        if self.is_null() {
            None
        } else {
            Some(self)
        }
    }

    /// The pointer `offset` bytes further on.
    pub fn offset(self, offset: u32) -> (result: ArenaPointer)
        requires
            self.0 + offset <= u32::MAX,
        ensures
            result.0 == self.0 + offset,
    {
        ArenaPointer(self.0 + offset)
    }
}

} // verus!
