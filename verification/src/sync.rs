//! The thread-safe handle and the conversions from the general one.
use crate::backend::Backend;
use crate::pointer::Pointer;
use crate::pointer::ThreadSafe;
use crate::shared::SharedPointer;
use std::ops::Deref;
use std::sync::Arc;
use vstd::prelude::*;
use vstd::std_specs::convert::FromSpecImpl;
use vstd::std_specs::convert::TryFromSpecImpl;

verus! {

/// What a conversion reports when the `SharedPointer` was built from an `Rc`.
pub const UPGRADE_ERROR: &'static str =
    "Cannot upgrade non-threadsafe SharedPointer to SyncPointer";

/// A dynamic thread-safe smart pointer.
///
/// It can only be built from an `Arc` or a `&'static`, never from an `Rc`,
/// and is `Send` and `Sync` whenever `T` is both.
pub struct SyncPointer<T: ?Sized + 'static> {
    pub(crate) inner: ThreadSafe<T>,
}

impl<T: ?Sized + 'static> SyncPointer<T> {
    /// The backend this handle was bound to when it was built.
    pub open(crate) spec fn backend(&self) -> Backend {
        self.inner.backend()
    }

    /// The data this handle gives access to.
    pub open(crate) spec fn value(&self) -> &T {
        self.inner.target()
    }

    /// The outcome of converting `ptr`: a handle to the same data on the same
    /// backend when that backend is thread-safe, [`UPGRADE_ERROR`] when it is
    /// not.
    pub open(crate) spec fn upgrade(ptr: SharedPointer<T>) -> Result<SyncPointer<T>, &'static str> {
        match ptr.inner {
            Pointer::Rc(_) => Err(UPGRADE_ERROR),
            Pointer::Arc(arc) => Ok(SyncPointer { inner: ThreadSafe::Arc(arc) }),
            Pointer::Static(data) => Ok(SyncPointer { inner: ThreadSafe::Static(data) }),
        }
    }

    /// Attempts to turn a `SharedPointer` into a `SyncPointer`.
    ///
    /// This succeeds exactly when `ptr` is bound to a thread-safe backend, and
    /// the handle it returns then leads to the same data through the same
    /// backend. A `ptr` built from an `Rc` is released and [`UPGRADE_ERROR`]
    /// comes back.
    pub fn try_from_shared(ptr: SharedPointer<T>) -> (upgraded: Result<SyncPointer<T>, &'static str>)
        ensures
            upgraded == Self::upgrade(ptr),
            upgraded is Ok <==> ptr.backend().thread_safe(),
            upgraded matches Ok(sync) ==> sync.backend() == ptr.backend() && sync.value()
                == ptr.value(),
            upgraded matches Err(error) ==> error == UPGRADE_ERROR,
    {
        match ptr.inner.into_thread_safe() {
            Some(inner) => Ok(SyncPointer { inner }),
            None => Err(UPGRADE_ERROR),
        }
    }

    /// Turns a `SharedPointer` that is known to be bound to a thread-safe
    /// backend into a `SyncPointer`.
    pub fn from_shared(ptr: SharedPointer<T>) -> (sync: SyncPointer<T>)
        requires
            ptr.backend().thread_safe(),
        ensures
            Self::upgrade(ptr) == Ok::<SyncPointer<T>, &'static str>(sync),
            sync.backend() == ptr.backend(),
            sync.value() == ptr.value(),
    {
        SyncPointer::try_from_shared(ptr).unwrap()
    }
}

impl<T: 'static> SyncPointer<T> {
    /// Builds a handle that owns `data`, bound to the `Arc` backend.
    pub fn new(data: T) -> (sync: SyncPointer<T>)
        ensures
            sync.backend() == Backend::Arc,
            sync.value() == &data,
    {
        SyncPointer::from(Arc::new(data))
    }
}

impl<T: ?Sized + 'static> Deref for SyncPointer<T> {
    type Target = T;

    /// Reads the data behind this handle.
    fn deref(&self) -> (data: &T)
        ensures
            data == self.value(),
    {
        &*self.inner
    }
}

impl<T: ?Sized + 'static> Clone for SyncPointer<T> {
    /// Builds another handle to the same data, bound to the same backend.
    fn clone(&self) -> (copy: SyncPointer<T>)
        ensures
            copy.backend() == self.backend(),
            copy.value() == self.value(),
    {
        SyncPointer { inner: self.inner.clone() }
    }
}

impl<T: ?Sized + 'static> From<&'static T> for SyncPointer<T> {
    /// Builds a handle to the data that `ptr` refers to, bound to the static
    /// backend.
    fn from(ptr: &'static T) -> (sync: SyncPointer<T>)
        ensures
            sync.backend() == Backend::Static,
            sync.value() == ptr,
    {
        SyncPointer { inner: ThreadSafe::from(ptr) }
    }
}

impl<T: ?Sized + 'static> FromSpecImpl<&'static T> for SyncPointer<T> {
    open spec fn obeys_from_spec() -> bool {
        true
    }

    open(crate) spec fn from_spec(ptr: &'static T) -> SyncPointer<T> {
        SyncPointer { inner: ThreadSafe::Static(ptr) }
    }
}

impl<T: ?Sized + 'static> From<Arc<T>> for SyncPointer<T> {
    /// Builds a handle that holds the share of `ptr` in its allocation, bound
    /// to the `Arc` backend.
    fn from(ptr: Arc<T>) -> (sync: SyncPointer<T>)
        ensures
            sync.backend() == Backend::Arc,
            sync.value() == &*ptr,
    {
        SyncPointer { inner: ThreadSafe::from(ptr) }
    }
}

impl<T: ?Sized + 'static> FromSpecImpl<Arc<T>> for SyncPointer<T> {
    open spec fn obeys_from_spec() -> bool {
        true
    }

    open(crate) spec fn from_spec(ptr: Arc<T>) -> SyncPointer<T> {
        SyncPointer { inner: ThreadSafe::Arc(ptr) }
    }
}

impl<T: ?Sized + 'static> TryFrom<SharedPointer<T>> for SyncPointer<T> {
    type Error = &'static str;

    /// The same conversion as [`SyncPointer::try_from_shared`].
    fn try_from(ptr: SharedPointer<T>) -> (upgraded: Result<SyncPointer<T>, &'static str>)
        ensures
            upgraded == Self::upgrade(ptr),
            upgraded is Ok <==> ptr.backend().thread_safe(),
            upgraded matches Ok(sync) ==> sync.backend() == ptr.backend() && sync.value()
                == ptr.value(),
            upgraded matches Err(error) ==> error == UPGRADE_ERROR,
    {
        SyncPointer::try_from_shared(ptr)
    }
}

impl<T: ?Sized + 'static> TryFromSpecImpl<SharedPointer<T>> for SyncPointer<T> {
    open spec fn obeys_try_from_spec() -> bool {
        true
    }

    open(crate) spec fn try_from_spec(ptr: SharedPointer<T>) -> Result<SyncPointer<T>, &'static str> {
        Self::upgrade(ptr)
    }
}

} // verus!
