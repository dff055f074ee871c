//! Handles on objects whose reference count is kept by messages sent to the
//! object itself.
use crate::ptr::{check_retained, HandleError, Id, Ptr};
use core::mem::ManuallyDrop;
use vstd::prelude::*;

verus! {

/// An object that answers the `retain` and `release` messages.
///
/// The implementation sends the message through the foreign runtime's
/// message dispatch; nothing else is asked of it.
pub trait ObjcObject: Sized {
    /// Sends `retain` to the object at `obj` and answers what the message
    /// returned, which is `obj` itself unless the runtime failed.
    fn send_retain(obj: Ptr<Self>) -> (r: Ptr<Self>)
        requires
            obj@ != 0,
    ;

    /// Sends `release` to the object at `obj`.
    fn send_release(obj: Ptr<Self>)
        requires
            obj@ != 0,
        opens_invariants none
        no_unwind when true;
}

/// An owning handle on an object that may only be read through it.
///
/// The handle may cross threads exactly when its kind `T` may: whether the
/// kind's count is safe to change from several threads is for the kind to
/// declare, not for the handle.
pub struct CocoaObject<T: ObjcObject> {
    ptr: Ptr<T>,
}

impl<T: ObjcObject> CocoaObject<T> {
    #[verifier::type_invariant]
    spec fn inv(self) -> bool {
        self.ptr@ != 0
    }

    /// The address of the object that the handle owns a count on.
    pub closed spec fn addr(&self) -> usize {
        self.ptr@
    }

    /// The object pointer to hand to foreign calls.
    pub fn id(&self) -> (r: Id)
        ensures
            r@ == self.addr(),
            r@ != 0,
    {
        proof {
            use_type_invariant(self);
        }
        self.ptr.cast()
    }

    /// The typed pointer, for foreign calls that only read the object.
    pub fn as_ptr(&self) -> (r: Ptr<T>)
        ensures
            r@ == self.addr(),
            r@ != 0,
    {
        proof {
            use_type_invariant(self);
        }
        self.ptr
    }

    /// Gives the owned count to the caller, who must release it in turn: the
    /// handle is consumed without sending `release`.
    pub fn into_id(self) -> (r: Id)
        ensures
            r@ == self.addr(),
            r@ != 0,
    {
        proof {
            use_type_invariant(&self);
        }
        let kept = ManuallyDrop::new(self);
        kept.ptr.cast()
    }

    /// Takes over the count of a pointer that is already retained and not
    /// null.
    pub fn from_retained_ptr_unchecked(ptr: Ptr<T>) -> (r: Self)
        requires
            ptr@ != 0,
        ensures
            r.addr() == ptr@,
    {
        CocoaObject { ptr }
    }

    /// As `from_retained_ptr_unchecked`, from an untyped pointer.
    pub fn from_retained_id_unchecked(id: Id) -> (r: Self)
        requires
            id@ != 0,
        ensures
            r.addr() == id@,
    {
        CocoaObject { ptr: id.cast() }
    }

    /// Takes over the count of a retained pointer; `None` when it is null.
    /// No message is sent.
    pub fn from_retained_ptr(ptr: Ptr<T>) -> (r: Option<Self>)
        ensures
            r is Some <==> ptr@ != 0,
            r matches Some(h) ==> h.addr() == ptr@,
    {
        if ptr.is_null() {
            None
        } else {
            Some(Self::from_retained_ptr_unchecked(ptr))
        }
    }

    /// As `from_retained_ptr`, from an untyped pointer.
    pub fn from_retained_id(id: Id) -> (r: Option<Self>)
        ensures
            r is Some <==> id@ != 0,
            r matches Some(h) ==> h.addr() == id@,
    {
        if id.is_null() {
            None
        } else {
            Some(Self::from_retained_id_unchecked(id))
        }
    }

    /// A new handle on a borrowed object: sends it `retain`. A null pointer
    /// is refused without sending anything.
    pub fn retain(obj: Ptr<T>) -> (r: Result<Self, HandleError>)
        ensures
            obj@ == 0 ==> r == Err::<Self, HandleError>(HandleError::Null),
            r matches Ok(h) ==> h.addr() == obj@,
            r matches Err(e) ==> obj@ != 0 ==> e == HandleError::RetainFailed,
    {
        if obj.is_null() {
            return Err(HandleError::Null);
        }
        let returned = T::send_retain(obj);
        match check_retained(obj, returned) {
            Ok(p) => Ok(CocoaObject { ptr: p }),
            Err(e) => Err(e),
        }
    }

    /// A second handle on the same object: sends it `retain` once.
    pub fn try_clone(&self) -> (r: Result<Self, HandleError>)
        ensures
            r matches Ok(h) ==> h.addr() == self.addr(),
            r matches Err(e) ==> e == HandleError::RetainFailed,
    {
        proof {
            use_type_invariant(self);
        }
        let returned = T::send_retain(self.ptr);
        match check_retained(self.ptr, returned) {
            Ok(p) => Ok(CocoaObject { ptr: p }),
            Err(e) => Err(e),
        }
    }
}

impl<T: ObjcObject> Drop for CocoaObject<T> {
    /// Sends `release` once.
    fn drop(&mut self)
        opens_invariants none
        no_unwind
    {
        proof {
            use_type_invariant(&*self);
        }
        T::send_release(self.ptr);
    }
}

/// An owning handle on an object that may be changed through it: a pointer
/// for foreign calls that write the object is given only to a unique borrow
/// of the handle.
///
/// The handle may cross threads exactly when its kind `T` may: whether the
/// kind's count is safe to change from several threads is for the kind to
/// declare, not for the handle.
pub struct CocoaMutableObject<T: ObjcObject> {
    ptr: Ptr<T>,
}

impl<T: ObjcObject> CocoaMutableObject<T> {
    #[verifier::type_invariant]
    spec fn inv(self) -> bool {
        self.ptr@ != 0
    }

    /// The address of the object that the handle owns a count on.
    pub closed spec fn addr(&self) -> usize {
        self.ptr@
    }

    /// The object pointer to hand to foreign calls.
    pub fn id(&self) -> (r: Id)
        ensures
            r@ == self.addr(),
            r@ != 0,
    {
        proof {
            use_type_invariant(self);
        }
        self.ptr.cast()
    }

    /// The typed pointer, for foreign calls that only read the object.
    pub fn as_ptr(&self) -> (r: Ptr<T>)
        ensures
            r@ == self.addr(),
            r@ != 0,
    {
        proof {
            use_type_invariant(self);
        }
        self.ptr
    }

    /// The typed pointer, for foreign calls that change the object.
    pub fn as_mut_ptr(&mut self) -> (r: Ptr<T>)
        ensures
            r@ == old(self).addr(),
            r@ != 0,
            final(self).addr() == old(self).addr(),
    {
        proof {
            use_type_invariant(&*self);
        }
        self.ptr
    }

    /// Gives the owned count to the caller, who must release it in turn: the
    /// handle is consumed without sending `release`.
    pub fn into_id(self) -> (r: Id)
        ensures
            r@ == self.addr(),
            r@ != 0,
    {
        proof {
            use_type_invariant(&self);
        }
        let kept = ManuallyDrop::new(self);
        kept.ptr.cast()
    }

    /// Takes over the count of a pointer that is already retained and not
    /// null.
    pub fn from_retained_ptr_unchecked(ptr: Ptr<T>) -> (r: Self)
        requires
            ptr@ != 0,
        ensures
            r.addr() == ptr@,
    {
        CocoaMutableObject { ptr }
    }

    /// As `from_retained_ptr_unchecked`, from an untyped pointer.
    pub fn from_retained_id_unchecked(id: Id) -> (r: Self)
        requires
            id@ != 0,
        ensures
            r.addr() == id@,
    {
        CocoaMutableObject { ptr: id.cast() }
    }

    /// Takes over the count of a retained pointer; `None` when it is null.
    /// No message is sent.
    pub fn from_retained_ptr(ptr: Ptr<T>) -> (r: Option<Self>)
        ensures
            r is Some <==> ptr@ != 0,
            r matches Some(h) ==> h.addr() == ptr@,
    {
        if ptr.is_null() {
            None
        } else {
            Some(Self::from_retained_ptr_unchecked(ptr))
        }
    }

    /// As `from_retained_ptr`, from an untyped pointer.
    pub fn from_retained_id(id: Id) -> (r: Option<Self>)
        ensures
            r is Some <==> id@ != 0,
            r matches Some(h) ==> h.addr() == id@,
    {
        if id.is_null() {
            None
        } else {
            Some(Self::from_retained_id_unchecked(id))
        }
    }

    /// A new handle on a borrowed object: sends it `retain`. A null pointer
    /// is refused without sending anything.
    pub fn retain(obj: Ptr<T>) -> (r: Result<Self, HandleError>)
        ensures
            obj@ == 0 ==> r == Err::<Self, HandleError>(HandleError::Null),
            r matches Ok(h) ==> h.addr() == obj@,
            r matches Err(e) ==> obj@ != 0 ==> e == HandleError::RetainFailed,
    {
        if obj.is_null() {
            return Err(HandleError::Null);
        }
        let returned = T::send_retain(obj);
        match check_retained(obj, returned) {
            Ok(p) => Ok(CocoaMutableObject { ptr: p }),
            Err(e) => Err(e),
        }
    }

    /// A second handle on the same object: sends it `retain` once.
    pub fn try_clone(&self) -> (r: Result<Self, HandleError>)
        ensures
            r matches Ok(h) ==> h.addr() == self.addr(),
            r matches Err(e) ==> e == HandleError::RetainFailed,
    {
        proof {
            use_type_invariant(self);
        }
        let returned = T::send_retain(self.ptr);
        match check_retained(self.ptr, returned) {
            Ok(p) => Ok(CocoaMutableObject { ptr: p }),
            Err(e) => Err(e),
        }
    }
}

impl<T: ObjcObject> Drop for CocoaMutableObject<T> {
    /// Sends `release` once.
    fn drop(&mut self)
        opens_invariants none
        no_unwind
    {
        proof {
            use_type_invariant(&*self);
        }
        T::send_release(self.ptr);
    }
}

} // verus!
