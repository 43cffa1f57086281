//! Typed handles and an allocator that never hands the same one out twice.

use std::marker::PhantomData;
use vstd::prelude::*;

verus! {

/// A typed index into some collection of `T`, carried as a 64-bit value.
pub struct Handle<T> {
    value: u64,
    _pd: PhantomData<T>,
}

impl<T> Clone for Handle<T> {
    fn clone(&self) -> (r: Self)
        ensures
            r == *self,
    {
        Handle { value: self.value, _pd: PhantomData }
    }
}

impl<T> Copy for Handle<T> {

}

impl<T> Handle<T> {
    /// The value that every handle carries, read as a mathematical integer.
    pub closed spec fn value(self) -> nat {
        self.value as nat
    }

    /// The handle that refers to nothing.
    pub fn nil() -> (r: Self)
        ensures
            r.value() == 0,
    {
        Self::new(0)
    }

    pub fn new(value: u64) -> (r: Self)
        ensures
            r.value() == value,
    {
        Self { value, _pd: PhantomData }
    }

    pub fn from_usize(value: usize) -> (r: Self)
        ensures
            r.value() == value,
    {
        Self::new(value as u64)
    }

    /// The index carried by the handle; on targets whose `usize` is narrower
    /// than 64 bits the value is truncated, as `as` does.
    pub fn to_usize(&self) -> (r: usize)
        ensures
            r == self.value() as usize,
            self.value() <= usize::MAX ==> r == self.value(),
    {
        self.value as usize
    }
}

/// Hands out handles with strictly increasing values, starting at 1, so that
/// no handle is ever handed out twice and none equals the nil handle.
pub struct HandleAllocator<T> {
    last_index: u64,
    _pd: PhantomData<T>,
}

impl<T> HandleAllocator<T> {
    /// The value of the last handle handed out (0 before the first).
    pub closed spec fn last(self) -> nat {
        self.last_index as nat
    }

    pub fn new() -> (r: Self)
        ensures
            r.last() == 0,
    {
        Self { last_index: 0, _pd: PhantomData }
    }

    pub fn allocate_handle(&mut self) -> (r: Handle<T>)
        requires
            old(self).last() < u64::MAX,
        ensures
            final(self).last() == old(self).last() + 1,
            r.value() == final(self).last(),
    {
        self.last_index = self.last_index + 1;
        Handle::new(self.last_index)
    }
}

} // verus!
