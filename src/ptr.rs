//! Foreign object addresses.
//!
//! A foreign object lives outside the host allocator and is only ever reached
//! through its address. `Ptr<T>` carries that address as a plain integer,
//! typed by the kind of object it points to; the address zero is the null
//! pointer, which foreign factories return on failure.
use core::marker::PhantomData;
use vstd::prelude::*;

verus! {

/// The address of a foreign object of kind `T`; zero is null.
#[derive(Debug)]
pub struct Ptr<T> {
    addr: usize,
    marker: PhantomData<T>,
}

/// The untyped foreign object, the receiver of any message.
#[derive(Debug)]
pub struct Object {
    opaque: (),
}

/// An untyped object pointer.
pub type Id = Ptr<Object>;

/// What can go wrong when a handle is made.
#[derive(Debug, Clone, Copy, PartialEq, Eq, Structural)]
pub enum HandleError {
    /// The pointer to wrap was null.
    Null,
    /// The foreign `retain` answered null or another object.
    RetainFailed,
}

impl<T> View for Ptr<T> {
    type V = usize;

    closed spec fn view(&self) -> usize {
        self.addr
    }
}

impl<T> Clone for Ptr<T> {
    fn clone(&self) -> (r: Self)
        ensures
            r@ == self@,
    {
        Ptr { addr: self.addr, marker: PhantomData }
    }
}

impl<T> Copy for Ptr<T> {
}

impl<T> Ptr<T> {
    /// The null pointer.
    pub fn null() -> (r: Self)
        ensures
            r@ == 0,
    {
        Ptr { addr: 0, marker: PhantomData }
    }

    /// The pointer to the object at `addr`.
    pub fn from_addr(addr: usize) -> (r: Self)
        ensures
            r@ == addr,
    {
        Ptr { addr, marker: PhantomData }
    }

    pub fn addr(&self) -> (r: usize)
        ensures
            r == self@,
    {
        self.addr
    }

    pub fn is_null(&self) -> (r: bool)
        ensures
            r == (self@ == 0),
    {
        self.addr == 0
    }

    /// The same address, read as a pointer to another kind of object.
    pub fn cast<U>(self) -> (r: Ptr<U>)
        ensures
            r@ == self@,
    {
        Ptr { addr: self.addr, marker: PhantomData }
    }
}

/// The address that an optional borrowed object passes to a foreign call:
/// the object's own, or null when there is none.
pub open spec fn opt_addr<T>(opt: Option<Ptr<T>>) -> usize {
    match opt {
        Some(p) => p@,
        None => 0,
    }
}

/// Lowers an optional read-only argument to a nullable pointer.
pub fn opt_pointer<T>(opt: Option<Ptr<T>>) -> (r: Ptr<T>)
    ensures
        r@ == opt_addr(opt),
{
    match opt {
        Some(p) => p,
        None => Ptr::null(),
    }
}

/// Lowers an optional argument that the callee may write through to a
/// nullable pointer.
pub fn opt_pointer_mut<T>(opt: Option<Ptr<T>>) -> (r: Ptr<T>)
    ensures
        r@ == opt_addr(opt),
{
    match opt {
        Some(p) => p,
        None => Ptr::null(),
    }
}

/// Checks the answer of a foreign `retain` sent to `sent`. Both protocols
/// answer the object they were given; null or any other object is a failed
/// retain.
pub fn check_retained<T>(sent: Ptr<T>, returned: Ptr<T>) -> (r: Result<Ptr<T>, HandleError>)
    ensures
        r is Ok <==> returned@ == sent@,
        r matches Ok(p) ==> p@ == sent@,
        r matches Err(e) ==> e == HandleError::RetainFailed,
{
    if returned.addr == sent.addr {
        Ok(sent)
    } else {
        Err(HandleError::RetainFailed)
    }
}

} // verus!
