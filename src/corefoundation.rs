//! Handles on objects whose reference count is kept by a pair of plain
//! functions that the object's kind names.
use crate::foundation::run_length;
use crate::ptr::{check_retained, HandleError, Ptr};
use core::mem::ManuallyDrop;
use vstd::prelude::*;

verus! {

/// A kind of foreign object together with the function pair that keeps its
/// reference count.
///
/// Keying the pair to the object's kind keeps one family's functions from
/// ever being applied to another family's objects.
pub trait CoreObject: Sized {
    /// Increments the count of the object at `ptr` and answers the pointer
    /// that the function returned, which is `ptr` itself unless it failed.
    fn retain(ptr: Ptr<Self>) -> (r: Ptr<Self>)
        requires
            ptr@ != 0,
    ;

    /// Decrements the count of the object at `ptr`.
    fn release(ptr: Ptr<Self>)
        requires
            ptr@ != 0,
        opens_invariants none
        no_unwind when true;
}

/// An owning handle on an object that may only be read through it.
///
/// The handle may cross threads exactly when its kind `T` may: whether the
/// kind's count is safe to change from several threads is for the kind to
/// declare, not for the handle.
pub struct CoreRetainedObject<T: CoreObject> {
    ptr: Ptr<T>,
}

impl<T: CoreObject> CoreRetainedObject<T> {
    #[verifier::type_invariant]
    spec fn inv(self) -> bool {
        self.ptr@ != 0
    }

    /// The address of the object that the handle owns a count on.
    pub closed spec fn addr(&self) -> usize {
        self.ptr@
    }

    /// The typed pointer, for foreign calls that only read the object.
    pub fn as_ptr(&self) -> (r: Ptr<T>)
        ensures
            r@ == self.addr(),
            r@ != 0,
    {
        proof {
            use_type_invariant(self);
        }
        self.ptr
    }

    /// Gives the owned count to the caller, who must release it in turn: the
    /// handle is consumed without calling `release`.
    pub fn into_ptr(self) -> (r: Ptr<T>)
        ensures
            r@ == self.addr(),
            r@ != 0,
    {
        proof {
            use_type_invariant(&self);
        }
        let kept = ManuallyDrop::new(self);
        kept.ptr
    }

    /// Takes over the count of a pointer that is already retained and not
    /// null.
    pub fn retained_unchecked(ptr: Ptr<T>) -> (r: Self)
        requires
            ptr@ != 0,
        ensures
            r.addr() == ptr@,
    {
        CoreRetainedObject { ptr }
    }

    /// Takes over the count of a retained pointer; `None` when it is null.
    /// Nothing is called.
    pub fn retained(ptr: Ptr<T>) -> (r: Option<Self>)
        ensures
            r is Some <==> ptr@ != 0,
            r matches Some(h) ==> h.addr() == ptr@,
    {
        if ptr.is_null() {
            None
        } else {
            Some(Self::retained_unchecked(ptr))
        }
    }

    /// A new handle on a borrowed object: calls `retain` on it. A null
    /// pointer is refused without calling anything.
    pub fn retain(obj: Ptr<T>) -> (r: Result<Self, HandleError>)
        ensures
            obj@ == 0 ==> r == Err::<Self, HandleError>(HandleError::Null),
            r matches Ok(h) ==> h.addr() == obj@,
            r matches Err(e) ==> obj@ != 0 ==> e == HandleError::RetainFailed,
    {
        if obj.is_null() {
            return Err(HandleError::Null);
        }
        let returned = T::retain(obj);
        match check_retained(obj, returned) {
            Ok(p) => Ok(CoreRetainedObject { ptr: p }),
            Err(e) => Err(e),
        }
    }

    /// A second handle on the same object: calls `retain` once.
    pub fn try_clone(&self) -> (r: Result<Self, HandleError>)
        ensures
            r matches Ok(h) ==> h.addr() == self.addr(),
            r matches Err(e) ==> e == HandleError::RetainFailed,
    {
        proof {
            use_type_invariant(self);
        }
        let returned = T::retain(self.ptr);
        match check_retained(self.ptr, returned) {
            Ok(p) => Ok(CoreRetainedObject { ptr: p }),
            Err(e) => Err(e),
        }
    }
}

impl<T: CoreObject> Drop for CoreRetainedObject<T> {
    /// Calls `release` once.
    fn drop(&mut self)
        opens_invariants none
        no_unwind
    {
        proof {
            use_type_invariant(&*self);
        }
        T::release(self.ptr);
    }
}

/// An owning handle on an object that may be changed through it: a pointer
/// for foreign calls that write the object is given only to a unique borrow
/// of the handle.
///
/// The handle may cross threads exactly when its kind `T` may: whether the
/// kind's count is safe to change from several threads is for the kind to
/// declare, not for the handle.
pub struct CoreRetainedMutableObject<T: CoreObject> {
    ptr: Ptr<T>,
}

impl<T: CoreObject> CoreRetainedMutableObject<T> {
    #[verifier::type_invariant]
    spec fn inv(self) -> bool {
        self.ptr@ != 0
    }

    /// The address of the object that the handle owns a count on.
    pub closed spec fn addr(&self) -> usize {
        self.ptr@
    }

    /// The typed pointer, for foreign calls that only read the object.
    pub fn as_ptr(&self) -> (r: Ptr<T>)
        ensures
            r@ == self.addr(),
            r@ != 0,
    {
        proof {
            use_type_invariant(self);
        }
        self.ptr
    }

    /// The typed pointer, for foreign calls that change the object.
    pub fn as_mut_ptr(&mut self) -> (r: Ptr<T>)
        ensures
            r@ == old(self).addr(),
            r@ != 0,
            final(self).addr() == old(self).addr(),
    {
        proof {
            use_type_invariant(&*self);
        }
        self.ptr
    }

    /// Gives the owned count to the caller, who must release it in turn: the
    /// handle is consumed without calling `release`.
    pub fn into_ptr(self) -> (r: Ptr<T>)
        ensures
            r@ == self.addr(),
            r@ != 0,
    {
        proof {
            use_type_invariant(&self);
        }
        let kept = ManuallyDrop::new(self);
        kept.ptr
    }

    /// Takes over the count of a pointer that is already retained and not
    /// null.
    pub fn retained(ptr: Ptr<T>) -> (r: Self)
        requires
            ptr@ != 0,
        ensures
            r.addr() == ptr@,
    {
        CoreRetainedMutableObject { ptr }
    }

    /// Takes over the count of a retained pointer; `None` when it is null.
    /// Nothing is called.
    pub fn from_retained_ptr(ptr: Ptr<T>) -> (r: Option<Self>)
        ensures
            r is Some <==> ptr@ != 0,
            r matches Some(h) ==> h.addr() == ptr@,
    {
        if ptr.is_null() {
            None
        } else {
            Some(Self::retained(ptr))
        }
    }

    /// A new handle on a borrowed object: calls `retain` on it. A null
    /// pointer is refused without calling anything.
    pub fn retain(obj: Ptr<T>) -> (r: Result<Self, HandleError>)
        ensures
            obj@ == 0 ==> r == Err::<Self, HandleError>(HandleError::Null),
            r matches Ok(h) ==> h.addr() == obj@,
            r matches Err(e) ==> obj@ != 0 ==> e == HandleError::RetainFailed,
    {
        if obj.is_null() {
            return Err(HandleError::Null);
        }
        let returned = T::retain(obj);
        match check_retained(obj, returned) {
            Ok(p) => Ok(CoreRetainedMutableObject { ptr: p }),
            Err(e) => Err(e),
        }
    }

    /// A second handle on the same object: calls `retain` once.
    pub fn try_clone(&self) -> (r: Result<Self, HandleError>)
        ensures
            r matches Ok(h) ==> h.addr() == self.addr(),
            r matches Err(e) ==> e == HandleError::RetainFailed,
    {
        proof {
            use_type_invariant(self);
        }
        let returned = T::retain(self.ptr);
        match check_retained(self.ptr, returned) {
            Ok(p) => Ok(CoreRetainedMutableObject { ptr: p }),
            Err(e) => Err(e),
        }
    }
}

impl<T: CoreObject> Drop for CoreRetainedMutableObject<T> {
    /// Calls `release` once.
    fn drop(&mut self)
        opens_invariants none
        no_unwind
    {
        proof {
            use_type_invariant(&*self);
        }
        T::release(self.ptr);
    }
}

/// The framework's index and count type: a signed word.
pub type CFIndex = isize;

/// A run of `length` items from `location` on.
#[derive(Debug, Clone, Copy, PartialEq, Eq, Structural, Hash)]
pub struct CFRange {
    pub location: CFIndex,
    pub length: CFIndex,
}

/// The length of the half-open run from `start` to `end`, capped at the
/// largest index.
pub open spec fn capped_run_length(start: int, end: int) -> int {
    if run_length(start, end) > isize::MAX {
        isize::MAX as int
    } else {
        run_length(start, end)
    }
}

impl From<core::ops::Range<CFIndex>> for CFRange {
    /// The run that `r` covers; a range whose end does not lie after its
    /// start is empty.
    fn from(r: core::ops::Range<CFIndex>) -> (s: Self)
        ensures
            s.location == r.start,
            s.length == capped_run_length(r.start as int, r.end as int),
    {
        let length: CFIndex = if r.end > r.start {
            match r.end.checked_sub(r.start) {
                Some(d) => d,
                None => isize::MAX,
            }
        } else {
            0
        };
        CFRange { location: r.start, length }
    }
}

impl vstd::std_specs::convert::FromSpecImpl<core::ops::Range<CFIndex>> for CFRange {
    open spec fn obeys_from_spec() -> bool {
        true
    }

    open spec fn from_spec(r: core::ops::Range<CFIndex>) -> Self {
        CFRange {
            location: r.start,
            length: capped_run_length(r.start as int, r.end as int) as CFIndex,
        }
    }
}

} // verus!
