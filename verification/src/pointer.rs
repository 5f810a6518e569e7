//! The erased pointers that the two handle types wrap.
//!
//! [`Pointer`] forgets which of the three backends owns the data;
//! [`ThreadSafe`] does the same for the two backends that may cross threads.
//! Neither is part of the public interface.
use crate::backend::Backend;
use std::ops::Deref;
use std::rc::Rc;
use std::sync::Arc;
use vstd::prelude::*;
use vstd::std_specs::convert::FromSpecImpl;

verus! {

/// A pointer to a `T` owned by any of the three backends.
pub enum Pointer<T: ?Sized + 'static> {
    Rc(Rc<T>),
    Arc(Arc<T>),
    Static(&'static T),
}

/// A pointer to a `T` owned by one of the two thread-safe backends.
///
/// There is no variant for `Rc`, so a value of this type is `Send` and `Sync`
/// whenever `T` is both.
pub enum ThreadSafe<T: ?Sized + 'static> {
    Arc(Arc<T>),
    Static(&'static T),
}

impl<T: ?Sized + 'static> Pointer<T> {
    /// The backend this pointer is bound to.
    pub open spec fn backend(&self) -> Backend {
        match self {
            Pointer::Rc(_) => Backend::Rc,
            Pointer::Arc(_) => Backend::Arc,
            Pointer::Static(_) => Backend::Static,
        }
    }

    /// The data this pointer leads to.
    pub open spec fn target(&self) -> &T {
        match self {
            Pointer::Rc(rc) => &**rc,
            Pointer::Arc(arc) => &**arc,
            Pointer::Static(data) => *data,
        }
    }

    /// The general pointer that stands for a thread-safe one.
    pub open spec fn widened(ptr: ThreadSafe<T>) -> Pointer<T> {
        match ptr {
            ThreadSafe::Arc(arc) => Pointer::Arc(arc),
            ThreadSafe::Static(data) => Pointer::Static(data),
        }
    }

    /// Whether the backend of this pointer is thread-safe.
    pub fn sync(&self) -> (safe: bool)
        ensures
            safe == self.backend().thread_safe(),
    {
        match self {
            Pointer::Rc(_) => false,
            Pointer::Arc(_) => true,
            Pointer::Static(_) => true,
        }
    }

    /// Narrows this pointer to the thread-safe backends. The backend and the
    /// data stay what they were; a pointer bound to `Rc` has no counterpart
    /// and is released.
    pub fn into_thread_safe(self) -> (narrowed: Option<ThreadSafe<T>>)
        ensures
            narrowed is Some <==> self.backend().thread_safe(),
            narrowed matches Some(ptr) ==> ptr.backend() == self.backend() && ptr.target()
                == self.target(),
    {
        match self {
            Pointer::Rc(_) => None,
            Pointer::Arc(arc) => Some(ThreadSafe::Arc(arc)),
            Pointer::Static(data) => Some(ThreadSafe::Static(data)),
        }
    }
}

impl<T: ?Sized + 'static> Deref for Pointer<T> {
    type Target = T;

    /// Reads the data through whichever backend owns it.
    fn deref(&self) -> (data: &T)
        ensures
            data == self.target(),
    {
        match self {
            Pointer::Rc(rc) => &**rc,
            Pointer::Arc(arc) => &**arc,
            Pointer::Static(data) => *data,
        }
    }
}

impl<T: ?Sized + 'static> Clone for Pointer<T> {
    /// Duplicates the pointer through its backend: the two counted backends
    /// hand out another share of the same allocation, the static one hands
    /// out the same reference again.
    fn clone(&self) -> (copy: Pointer<T>)
        ensures
            copy == *self,
    {
        match self {
            Pointer::Rc(rc) => Pointer::Rc(rc.clone()),
            Pointer::Arc(arc) => Pointer::Arc(arc.clone()),
            Pointer::Static(data) => Pointer::Static(*data),
        }
    }
}

impl<T: ?Sized + 'static> From<Rc<T>> for Pointer<T> {
    /// Erases an `Rc`, binding the pointer to the `Rc` backend.
    fn from(ptr: Rc<T>) -> (erased: Pointer<T>)
        ensures
            erased.backend() == Backend::Rc,
            erased.target() == &*ptr,
    {
        Pointer::Rc(ptr)
    }
}

impl<T: ?Sized + 'static> FromSpecImpl<Rc<T>> for Pointer<T> {
    open spec fn obeys_from_spec() -> bool {
        true
    }

    open spec fn from_spec(ptr: Rc<T>) -> Pointer<T> {
        Pointer::Rc(ptr)
    }
}

impl<T: ?Sized + 'static> From<Arc<T>> for Pointer<T> {
    /// Erases an `Arc`, binding the pointer to the `Arc` backend.
    fn from(ptr: Arc<T>) -> (erased: Pointer<T>)
        ensures
            erased.backend() == Backend::Arc,
            erased.target() == &*ptr,
    {
        Pointer::Arc(ptr)
    }
}

impl<T: ?Sized + 'static> FromSpecImpl<Arc<T>> for Pointer<T> {
    open spec fn obeys_from_spec() -> bool {
        true
    }

    open spec fn from_spec(ptr: Arc<T>) -> Pointer<T> {
        Pointer::Arc(ptr)
    }
}

impl<T: ?Sized + 'static> From<&'static T> for Pointer<T> {
    /// Erases a `&'static`, binding the pointer to the static backend.
    fn from(ptr: &'static T) -> (erased: Pointer<T>)
        ensures
            erased.backend() == Backend::Static,
            erased.target() == ptr,
    {
        Pointer::Static(ptr)
    }
}

impl<T: ?Sized + 'static> FromSpecImpl<&'static T> for Pointer<T> {
    open spec fn obeys_from_spec() -> bool {
        true
    }

    open spec fn from_spec(ptr: &'static T) -> Pointer<T> {
        Pointer::Static(ptr)
    }
}

impl<T: ?Sized + 'static> ThreadSafe<T> {
    /// The backend this pointer is bound to.
    pub open spec fn backend(&self) -> Backend {
        match self {
            ThreadSafe::Arc(_) => Backend::Arc,
            ThreadSafe::Static(_) => Backend::Static,
        }
    }

    /// The data this pointer leads to.
    pub open spec fn target(&self) -> &T {
        match self {
            ThreadSafe::Arc(arc) => &**arc,
            ThreadSafe::Static(data) => *data,
        }
    }
}

impl<T: ?Sized + 'static> Deref for ThreadSafe<T> {
    type Target = T;

    /// Reads the data through whichever backend owns it.
    fn deref(&self) -> (data: &T)
        ensures
            data == self.target(),
    {
        match self {
            ThreadSafe::Arc(arc) => &**arc,
            ThreadSafe::Static(data) => *data,
        }
    }
}

impl<T: ?Sized + 'static> Clone for ThreadSafe<T> {
    /// Duplicates the pointer through its backend, as [`Pointer::clone`] does.
    fn clone(&self) -> (copy: ThreadSafe<T>)
        ensures
            copy == *self,
    {
        match self {
            ThreadSafe::Arc(arc) => ThreadSafe::Arc(arc.clone()),
            ThreadSafe::Static(data) => ThreadSafe::Static(*data),
        }
    }
}

impl<T: ?Sized + 'static> From<Arc<T>> for ThreadSafe<T> {
    /// Erases an `Arc`, binding the pointer to the `Arc` backend.
    fn from(ptr: Arc<T>) -> (erased: ThreadSafe<T>)
        ensures
            erased.backend() == Backend::Arc,
            erased.target() == &*ptr,
    {
        ThreadSafe::Arc(ptr)
    }
}

impl<T: ?Sized + 'static> FromSpecImpl<Arc<T>> for ThreadSafe<T> {
    open spec fn obeys_from_spec() -> bool {
        true
    }

    open spec fn from_spec(ptr: Arc<T>) -> ThreadSafe<T> {
        ThreadSafe::Arc(ptr)
    }
}

impl<T: ?Sized + 'static> From<&'static T> for ThreadSafe<T> {
    /// Erases a `&'static`, binding the pointer to the static backend.
    fn from(ptr: &'static T) -> (erased: ThreadSafe<T>)
        ensures
            erased.backend() == Backend::Static,
            erased.target() == ptr,
    {
        ThreadSafe::Static(ptr)
    }
}

impl<T: ?Sized + 'static> FromSpecImpl<&'static T> for ThreadSafe<T> {
    open spec fn obeys_from_spec() -> bool {
        true
    }

    open spec fn from_spec(ptr: &'static T) -> ThreadSafe<T> {
        ThreadSafe::Static(ptr)
    }
}

impl<T: ?Sized + 'static> From<ThreadSafe<T>> for Pointer<T> {
    /// Widens a thread-safe pointer to a general one, keeping its backend.
    fn from(ptr: ThreadSafe<T>) -> (erased: Pointer<T>)
        ensures
            erased.backend() == ptr.backend(),
            erased.target() == ptr.target(),
    {
        match ptr {
            ThreadSafe::Arc(arc) => Pointer::Arc(arc),
            ThreadSafe::Static(data) => Pointer::Static(data),
        }
    }
}

impl<T: ?Sized + 'static> FromSpecImpl<ThreadSafe<T>> for Pointer<T> {
    open spec fn obeys_from_spec() -> bool {
        true
    }

    open spec fn from_spec(ptr: ThreadSafe<T>) -> Pointer<T> {
        Pointer::widened(ptr)
    }
}

} // verus!
