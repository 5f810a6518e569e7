//! The general handle.
use crate::backend::Backend;
use crate::pointer::Pointer;
use crate::sync::SyncPointer;
use crate::sync::UPGRADE_ERROR;
use std::ops::Deref;
use std::rc::Rc;
use std::sync::Arc;
use vstd::prelude::*;
use vstd::std_specs::convert::FromSpecImpl;

verus! {

/// A dynamic smart pointer which is not guaranteed to be thread-safe.
///
/// It can be built from any of the three backends, `Rc` included, and is
/// therefore never `Send` or `Sync`.
pub struct SharedPointer<T: ?Sized + 'static> {
    pub(crate) inner: Pointer<T>,
}

impl<T: ?Sized + 'static> SharedPointer<T> {
    /// The backend this handle was bound to when it was built.
    pub open(crate) spec fn backend(&self) -> Backend {
        self.inner.backend()
    }

    /// The data this handle gives access to.
    pub open(crate) spec fn value(&self) -> &T {
        self.inner.target()
    }

    /// Whether the backend of this handle is thread-safe.
    pub fn is_sync(&self) -> (safe: bool)
        ensures
            safe == self.backend().thread_safe(),
    {
        self.inner.sync()
    }

    /// Attempts to turn this handle into a `SyncPointer`; the same conversion
    /// as [`SyncPointer::try_from_shared`].
    pub fn try_into_sync(self) -> (upgraded: Result<SyncPointer<T>, &'static str>)
        ensures
            upgraded == SyncPointer::upgrade(self),
            upgraded is Ok <==> self.backend().thread_safe(),
            upgraded matches Ok(sync) ==> sync.backend() == self.backend() && sync.value()
                == self.value(),
            upgraded matches Err(error) ==> error == UPGRADE_ERROR,
    {
        SyncPointer::try_from_shared(self)
    }

    /// Turns this handle, which is known to be bound to a thread-safe
    /// backend, into a `SyncPointer`.
    pub fn into_sync(self) -> (sync: SyncPointer<T>)
        requires
            self.backend().thread_safe(),
        ensures
            SyncPointer::upgrade(self) == Ok::<SyncPointer<T>, &'static str>(sync),
            sync.backend() == self.backend(),
            sync.value() == self.value(),
    {
        self.try_into_sync().unwrap()
    }
}

impl<T: 'static> SharedPointer<T> {
    /// Builds a handle that owns `data`.
    ///
    /// The handle is bound to the `Arc` backend, so it can always be turned
    /// into a `SyncPointer`.
    pub fn new(data: T) -> (shared: SharedPointer<T>)
        ensures
            shared.backend() == Backend::Arc,
            shared.value() == &data,
    {
        SharedPointer::from(Arc::new(data))
    }
}

impl<T: ?Sized + 'static> Deref for SharedPointer<T> {
    type Target = T;

    /// Reads the data behind this handle.
    fn deref(&self) -> (data: &T)
        ensures
            data == self.value(),
    {
        &*self.inner
    }
}

impl<T: ?Sized + 'static> Clone for SharedPointer<T> {
    /// Builds another handle to the same data, bound to the same backend.
    fn clone(&self) -> (copy: SharedPointer<T>)
        ensures
            copy.backend() == self.backend(),
            copy.value() == self.value(),
    {
        SharedPointer { inner: self.inner.clone() }
    }
}

impl<T: ?Sized + 'static> From<&'static T> for SharedPointer<T> {
    /// Builds a handle to the data that `ptr` refers to, bound to the static
    /// backend.
    fn from(ptr: &'static T) -> (shared: SharedPointer<T>)
        ensures
            shared.backend() == Backend::Static,
            shared.value() == ptr,
    {
        SharedPointer { inner: Pointer::from(ptr) }
    }
}

impl<T: ?Sized + 'static> FromSpecImpl<&'static T> for SharedPointer<T> {
    open spec fn obeys_from_spec() -> bool {
        true
    }

    open(crate) spec fn from_spec(ptr: &'static T) -> SharedPointer<T> {
        SharedPointer { inner: Pointer::Static(ptr) }
    }
}

impl<T: ?Sized + 'static> From<Rc<T>> for SharedPointer<T> {
    /// Builds a handle that holds the share of `ptr` in its allocation, bound
    /// to the `Rc` backend.
    fn from(ptr: Rc<T>) -> (shared: SharedPointer<T>)
        ensures
            shared.backend() == Backend::Rc,
            shared.value() == &*ptr,
    {
        SharedPointer { inner: Pointer::from(ptr) }
    }
}

impl<T: ?Sized + 'static> FromSpecImpl<Rc<T>> for SharedPointer<T> {
    open spec fn obeys_from_spec() -> bool {
        true
    }

    open(crate) spec fn from_spec(ptr: Rc<T>) -> SharedPointer<T> {
        SharedPointer { inner: Pointer::Rc(ptr) }
    }
}

impl<T: ?Sized + 'static> From<Arc<T>> for SharedPointer<T> {
    /// Builds a handle that holds the share of `ptr` in its allocation, bound
    /// to the `Arc` backend.
    fn from(ptr: Arc<T>) -> (shared: SharedPointer<T>)
        ensures
            shared.backend() == Backend::Arc,
            shared.value() == &*ptr,
    {
        SharedPointer { inner: Pointer::from(ptr) }
    }
}

impl<T: ?Sized + 'static> FromSpecImpl<Arc<T>> for SharedPointer<T> {
    open spec fn obeys_from_spec() -> bool {
        true
    }

    open(crate) spec fn from_spec(ptr: Arc<T>) -> SharedPointer<T> {
        SharedPointer { inner: Pointer::Arc(ptr) }
    }
}

impl<T: ?Sized + 'static> From<SyncPointer<T>> for SharedPointer<T> {
    /// Gives up the guarantee of thread safety. The handle keeps its data and
    /// its backend, so it can be turned back into a `SyncPointer`.
    fn from(ptr: SyncPointer<T>) -> (shared: SharedPointer<T>)
        ensures
            shared.backend() == ptr.backend(),
            shared.value() == ptr.value(),
    {
        SharedPointer { inner: Pointer::from(ptr.inner) }
    }
}

impl<T: ?Sized + 'static> FromSpecImpl<SyncPointer<T>> for SharedPointer<T> {
    open spec fn obeys_from_spec() -> bool {
        true
    }

    open(crate) spec fn from_spec(ptr: SyncPointer<T>) -> SharedPointer<T> {
        SharedPointer { inner: Pointer::widened(ptr.inner) }
    }
}

} // verus!
