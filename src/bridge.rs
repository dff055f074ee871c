//! Toll-free bridging: two kinds of foreign object that the frameworks
//! document as one layout, so that a pointer to one may be read as a pointer
//! to the other.
//!
//! A bridge relabels a borrowed pointer. It takes no count and gives none
//! back, and it is offered only between kinds that declare the pairing.
use crate::cocoa::{CocoaMutableObject, CocoaObject, ObjcObject};
use crate::corefoundation::{CoreObject, CoreRetainedMutableObject, CoreRetainedObject};
use crate::ptr::Ptr;
use vstd::prelude::*;

verus! {

/// Declares that `Self` and `B` are documented as one layout.
pub trait TollFreeBridge<B> {

}

/// Reads a pointer to `A` as a pointer to its bridged kind `B`.
pub fn bridge<A: TollFreeBridge<B>, B>(p: Ptr<A>) -> (r: Ptr<B>)
    ensures
        r@ == p@,
{
    p.cast()
}

/// Reads a pointer to `B` as a pointer to the kind `A` bridged to it.
pub fn bridge_back<A: TollFreeBridge<B>, B>(p: Ptr<B>) -> (r: Ptr<A>)
    ensures
        r@ == p@,
{
    p.cast()
}

impl<T: ObjcObject> CocoaObject<T> {
    /// The owned object, borrowed as its bridged kind `B`.
    pub fn bridged<B>(&self) -> (r: Ptr<B>)
        where
            T: TollFreeBridge<B>,
        ensures
            r@ == self.addr(),
            r@ != 0,
    {
        bridge(self.as_ptr())
    }
}

impl<T: ObjcObject> CocoaMutableObject<T> {
    /// The owned object, borrowed as its bridged kind `B`.
    pub fn bridged<B>(&self) -> (r: Ptr<B>)
        where
            T: TollFreeBridge<B>,
        ensures
            r@ == self.addr(),
            r@ != 0,
    {
        bridge(self.as_ptr())
    }
}

impl<T: CoreObject> CoreRetainedObject<T> {
    /// The owned object, borrowed as its bridged kind `B`.
    pub fn bridged<B>(&self) -> (r: Ptr<B>)
        where
            T: TollFreeBridge<B>,
        ensures
            r@ == self.addr(),
            r@ != 0,
    {
        bridge(self.as_ptr())
    }
}

impl<T: CoreObject> CoreRetainedMutableObject<T> {
    /// The owned object, borrowed as its bridged kind `B`.
    pub fn bridged<B>(&self) -> (r: Ptr<B>)
        where
            T: TollFreeBridge<B>,
        ensures
            r@ == self.addr(),
            r@ != 0,
    {
        bridge(self.as_ptr())
    }
}

} // verus!
