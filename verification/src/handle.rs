//! One opaque native pointer, held by its numeric value and never dereferenced.

use vstd::prelude::*;
use crate::enums::OtcError;

verus! {

/// The identity of the null pointer. The identity of a native object is the
/// numeric value of its pointer; it is used to look an object up, and for
/// nothing else.
pub const NULL_KEY: usize = 0;

/// An opaque native pointer together with the duty to give it back.
///
/// An owned handle must ask the engine to delete its pointer, once. A borrowed
/// handle is only valid while the callback that supplied it runs, and never asks
/// for deletion. A handle that has asked for deletion is null from then on.
#[derive(Debug)]
pub struct NativeHandle {
    addr: usize,
    owned: bool,
}

impl NativeHandle {
    /// The pointer's numeric value; zero when null or deleted.
    pub closed spec fn key(self) -> usize {
        self.addr
    }

    /// Whether this handle is responsible for deletion.
    pub closed spec fn owned(self) -> bool {
        self.owned
    }

    /// Whether the handle names a native object that may still be used.
    pub open spec fn live(self) -> bool {
        self.key() != NULL_KEY
    }

    /// The handle once it has given its pointer up: null, with the same duty.
    pub closed spec fn tombstone(self) -> NativeHandle {
        NativeHandle { addr: NULL_KEY, owned: self.owned }
    }

    /// A tombstone names nothing, and the tombstone of a tombstone is itself.
    pub proof fn lemma_tombstone(self)
        ensures
            !self.tombstone().live(),
            self.tombstone().owned() == self.owned(),
            self.tombstone().tombstone() == self.tombstone(),
            !self.live() ==> self.tombstone() == self,
    {
    }

    /// The owned handle for a pointer.
    pub closed spec fn wrap_spec(addr: usize) -> NativeHandle {
        NativeHandle { addr, owned: true }
    }

    /// Takes ownership of a pointer that the engine handed out.
    pub fn wrap(addr: usize) -> (h: NativeHandle)
        ensures
            h == NativeHandle::wrap_spec(addr),
            h.key() == addr,
            h.owned(),
    {
        NativeHandle { addr, owned: true }
    }

    /// The borrowed handle for a pointer.
    pub closed spec fn borrow_spec(addr: usize) -> NativeHandle {
        NativeHandle { addr, owned: false }
    }

    /// A borrowed handle names its pointer and owes no deletion.
    pub proof fn lemma_borrow_spec(addr: usize)
        ensures
            NativeHandle::borrow_spec(addr).key() == addr,
            !NativeHandle::borrow_spec(addr).owned(),
    {
    }

    /// An owned handle names its pointer and owes its deletion.
    pub proof fn lemma_wrap_spec(addr: usize)
        ensures
            NativeHandle::wrap_spec(addr).key() == addr,
            NativeHandle::wrap_spec(addr).owned(),
            NativeHandle::null_spec() == NativeHandle::wrap_spec(0),
            !NativeHandle::null_spec().live(),
    {
    }

    /// Refers to a pointer that stays the engine's.
    pub fn borrow(addr: usize) -> (h: NativeHandle)
        ensures
            h == NativeHandle::borrow_spec(addr),
            h.key() == addr,
            !h.owned(),
    {
        NativeHandle { addr, owned: false }
    }

    /// The owned handle that names nothing.
    pub closed spec fn null_spec() -> NativeHandle {
        NativeHandle { addr: NULL_KEY, owned: true }
    }

    /// A handle that names nothing.
    pub fn null() -> (h: NativeHandle)
        ensures
            h == NativeHandle::null_spec(),
            h.key() == NULL_KEY,
            !h.live(),
            h.owned(),
    {
        NativeHandle { addr: NULL_KEY, owned: true }
    }

    /// The identity key, null included.
    pub fn inner(&self) -> (k: usize)
        ensures
            k == self.key(),
    {
        self.addr
    }

    pub fn is_null(&self) -> (b: bool)
        ensures
            b == !self.live(),
    {
        self.addr == NULL_KEY
    }

    pub fn is_owned(&self) -> (b: bool)
        ensures
            b == self.owned(),
    {
        self.owned
    }

    /// The identity key of a live handle; a null handle is a typed error.
    pub fn checked(&self) -> (r: Result<usize, OtcError>)
        ensures
            r == (if self.live() {
                Ok::<usize, OtcError>(self.key())
            } else {
                Err::<usize, OtcError>(OtcError::NullError)
            }),
    {
        if self.addr == NULL_KEY {
            Err(OtcError::NullError)
        } else {
            Ok(self.addr)
        }
    }

    /// Turns the result of the engine's copy primitive into an owned handle. The
    /// copy of a null pointer is a typed error, never a handle.
    pub fn adopt(copied: usize) -> (r: Result<NativeHandle, OtcError>)
        ensures
            copied == NULL_KEY ==> r == Err::<NativeHandle, OtcError>(OtcError::NullError),
            copied != NULL_KEY ==> r is Ok && r->Ok_0.key() == copied && r->Ok_0.owned(),
    {
        if copied == NULL_KEY {
            Err(OtcError::NullError)
        } else {
            Ok(NativeHandle { addr: copied, owned: true })
        }
    }

    /// Gives the pointer up. The first call on a live owned handle returns the
    /// pointer that the engine must delete; the handle is null afterwards, so
    /// every later call returns nothing. A borrowed handle is only forgotten.
    pub fn request_delete(&mut self) -> (doomed: Option<usize>)
        ensures
            doomed == (if old(self).live() && old(self).owned() {
                Some(old(self).key())
            } else {
                None::<usize>
            }),
            *final(self) == old(self).tombstone(),
            !final(self).live(),
            final(self).owned() == old(self).owned(),
        no_unwind
    {
        if self.addr != NULL_KEY && self.owned {
            let addr = self.addr;
            self.addr = NULL_KEY;
            Some(addr)
        } else {
            self.addr = NULL_KEY;
            None
        }
    }
}

} // verus!
