//! Accessor cells: ownership-tagged typed views over a resolved address.
//!
//! A cell is created once a virtual pointer has been linked against a live
//! mapping and resolved; it records the resolved address together with the
//! element type and the kind of access it stands for. The three kinds mirror
//! the access modes of the language: an owning cell, a shared-borrow cell and
//! a mutable-borrow cell. None of them performs any cleanup when dropped:
//! whether the value behind the address still needs releasing is for the
//! layer that manages persistent allocations to decide, not for the view.
//!
//! A cell asserts nothing about the bytes behind the address; the caller
//! guarantees they already hold a valid value of the element type, except
//! where the cell was handed out by an operation that wrote one there first.

use vstd::prelude::*;
use core::marker::PhantomData;

verus! {

/// An owning view: the holder is the exclusive owner of the value at `addr`
/// for dereference purposes, and is responsible for whatever cleanup that
/// value requires.
pub struct PmemCell<T> {
    pub addr: usize,
    pub element: PhantomData<T>,
}

impl<T> PmemCell<T> {
    pub fn new(addr: usize) -> (c: Self)
        ensures
            c.addr == addr,
    {
        PmemCell { addr, element: PhantomData }
    }

    /// The resolved address this cell stands over.
    pub fn addr(&self) -> (a: usize)
        ensures
            a == self.addr,
    {
        self.addr
    }
}

/// A shared-borrow view: read-only access that may alias other shared views
/// of the same location.
pub struct PmemRef<T> {
    pub addr: usize,
    pub element: PhantomData<T>,
}

impl<T> PmemRef<T> {
    pub fn new(addr: usize) -> (c: Self)
        ensures
            c.addr == addr,
    {
        PmemRef { addr, element: PhantomData }
    }

    /// The resolved address this view stands over.
    pub fn addr(&self) -> (a: usize)
        ensures
            a == self.addr,
    {
        self.addr
    }
}

/// A mutable-borrow view: exclusive read/write access to the location for as
/// long as the view is held.
pub struct PmemMutRef<T> {
    pub addr: usize,
    pub element: PhantomData<T>,
}

impl<T> PmemMutRef<T> {
    pub fn new(addr: usize) -> (c: Self)
        ensures
            c.addr == addr,
    {
        PmemMutRef { addr, element: PhantomData }
    }

    /// The resolved address this view stands over.
    pub fn addr(&self) -> (a: usize)
        ensures
            a == self.addr,
    {
        self.addr
    }

    /// Gives up write access, keeping a shared view of the same location.
    pub fn as_ref(&self) -> (c: PmemRef<T>)
        ensures
            c.addr == self.addr,
    {
        PmemRef { addr: self.addr, element: PhantomData }
    }
}

} // verus!
