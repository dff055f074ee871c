//! A handle that carries its retain/release pair beside the pointer, so that
//! the pointee's kind needs no trait of its own.
use crate::ptr::{check_retained, HandleError, Ptr};
use core::mem::ManuallyDrop;
use vstd::prelude::*;

verus! {

/// The retain/release pair for objects of kind `T`, as a value that a handle
/// stores.
pub trait RefCountFns<T> {
    /// Increments the count of the object at `ptr` and answers the pointer
    /// that the function returned, which is `ptr` itself unless it failed.
    fn retain(&self, ptr: Ptr<T>) -> (r: Ptr<T>)
        requires
            ptr@ != 0,
    ;

    /// Decrements the count of the object at `ptr`.
    fn release(&self, ptr: Ptr<T>)
        requires
            ptr@ != 0,
        opens_invariants none
        no_unwind when true;
}

/// An owning handle that keeps the pair `fns` to clone and drop with.
///
/// The handle may cross threads exactly when both `T` and the pair may.
pub struct ExternalRc<T, F: RefCountFns<T> + Copy> {
    ptr: Ptr<T>,
    fns: F,
}

impl<T, F: RefCountFns<T> + Copy> ExternalRc<T, F> {
    #[verifier::type_invariant]
    spec fn inv(self) -> bool {
        self.ptr@ != 0
    }

    /// The address of the object that the handle owns a count on.
    pub closed spec fn addr(&self) -> usize {
        self.ptr@
    }

    /// The pair that the handle retains and releases with.
    pub closed spec fn spec_fns(&self) -> F {
        self.fns
    }

    /// Takes over the count of a pointer that is already retained by `fns`
    /// and not null.
    pub fn new_unchecked(ptr: Ptr<T>, fns: F) -> (r: Self)
        requires
            ptr@ != 0,
        ensures
            r.addr() == ptr@,
            r.spec_fns() == fns,
    {
        ExternalRc { ptr, fns }
    }

    /// Takes over the count of a pointer retained by `fns`; `None` when it is
    /// null. Nothing is called.
    pub fn new(ptr: Ptr<T>, fns: F) -> (r: Option<Self>)
        ensures
            r is Some <==> ptr@ != 0,
            r matches Some(h) ==> h.addr() == ptr@ && h.spec_fns() == fns,
    {
        if ptr.is_null() {
            None
        } else {
            Some(Self::new_unchecked(ptr, fns))
        }
    }

    /// The typed pointer, for foreign calls.
    pub fn as_ptr(&self) -> (r: Ptr<T>)
        ensures
            r@ == self.addr(),
            r@ != 0,
    {
        proof {
            use_type_invariant(self);
        }
        self.ptr
    }

    /// The pair that the handle retains and releases with.
    pub fn fns(&self) -> (r: F)
        ensures
            r == self.spec_fns(),
    {
        self.fns
    }

    /// Gives the owned count to the caller, who must release it in turn: the
    /// handle is consumed without calling `release`.
    pub fn into_ptr(self) -> (r: Ptr<T>)
        ensures
            r@ == self.addr(),
            r@ != 0,
    {
        proof {
            use_type_invariant(&self);
        }
        let kept = ManuallyDrop::new(self);
        kept.ptr
    }

    /// A new handle on a borrowed object: calls `retain` of `fns` on it. A
    /// null pointer is refused without calling anything.
    pub fn retain(obj: Ptr<T>, fns: F) -> (r: Result<Self, HandleError>)
        ensures
            obj@ == 0 ==> r == Err::<Self, HandleError>(HandleError::Null),
            r matches Ok(h) ==> h.addr() == obj@ && h.spec_fns() == fns,
            r matches Err(e) ==> obj@ != 0 ==> e == HandleError::RetainFailed,
    {
        if obj.is_null() {
            return Err(HandleError::Null);
        }
        let returned = fns.retain(obj);
        match check_retained(obj, returned) {
            Ok(p) => Ok(ExternalRc { ptr: p, fns }),
            Err(e) => Err(e),
        }
    }

    /// A second handle on the same object with the same pair: calls
    /// `retain` once.
    pub fn try_clone(&self) -> (r: Result<Self, HandleError>)
        ensures
            r matches Ok(h) ==> h.addr() == self.addr() && h.spec_fns() == self.spec_fns(),
            r matches Err(e) ==> e == HandleError::RetainFailed,
    {
        proof {
            use_type_invariant(self);
        }
        let returned = self.fns.retain(self.ptr);
        match check_retained(self.ptr, returned) {
            Ok(p) => Ok(ExternalRc { ptr: p, fns: self.fns }),
            Err(e) => Err(e),
        }
    }
}

impl<T, F: RefCountFns<T> + Copy> Drop for ExternalRc<T, F> {
    /// Calls `release` once.
    fn drop(&mut self)
        opens_invariants none
        no_unwind
    {
        proof {
            use_type_invariant(&*self);
        }
        self.fns.release(self.ptr);
    }
}

} // verus!
