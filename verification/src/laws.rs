//! What holds of every handle, whatever it was built from.
//!
//! Each proof function states one law. Those about building, cloning and
//! reading speak of the functions themselves: `call_ensures(f, args, out)`
//! says that `out` is a value that `f` may return for `args`. Those about
//! conversions speak of [`SyncPointer::upgrade`] and of the `from_spec` of the
//! conversion back.
use crate::backend::Backend;
use crate::shared::SharedPointer;
use crate::sync::SyncPointer;
use crate::sync::UPGRADE_ERROR;
use std::ops::Deref;
use std::rc::Rc;
use std::sync::Arc;
use vstd::prelude::*;
use vstd::std_specs::convert::FromSpec;
use vstd::std_specs::convert::TryFromSpec;

verus! {

/// Reading a `SharedPointer` that `new` built yields the data it was built
/// from.
pub proof fn lemma_shared_new_then_read<T: 'static>(data: T, shared: SharedPointer<T>, read: &T)
    requires
        call_ensures(SharedPointer::<T>::new, (data,), shared),
        call_ensures(<SharedPointer<T> as Deref>::deref, (&shared,), read),
    ensures
        *read == data,
{
}

/// A `SharedPointer` that `new` built always upgrades.
pub proof fn lemma_shared_new_then_upgrade<T: 'static>(data: T, shared: SharedPointer<T>)
    requires
        call_ensures(SharedPointer::<T>::new, (data,), shared),
    ensures
        SyncPointer::upgrade(shared) is Ok,
        SyncPointer::upgrade(shared)->Ok_0.value() == &data,
        call_requires(SharedPointer::<T>::into_sync, (shared,)),
{
}

/// Reading a `SharedPointer` built from an `Rc` yields the data of that `Rc`.
pub proof fn lemma_shared_from_rc_then_read<T: ?Sized + 'static>(
    ptr: Rc<T>,
    shared: SharedPointer<T>,
    read: &T,
)
    requires
        call_ensures(<SharedPointer<T> as From<Rc<T>>>::from, (ptr,), shared),
        call_ensures(<SharedPointer<T> as Deref>::deref, (&shared,), read),
    ensures
        read == &*ptr,
{
}

/// Reading a `SharedPointer` built from an `Arc` yields the data of that
/// `Arc`.
pub proof fn lemma_shared_from_arc_then_read<T: ?Sized + 'static>(
    ptr: Arc<T>,
    shared: SharedPointer<T>,
    read: &T,
)
    requires
        call_ensures(<SharedPointer<T> as From<Arc<T>>>::from, (ptr,), shared),
        call_ensures(<SharedPointer<T> as Deref>::deref, (&shared,), read),
    ensures
        read == &*ptr,
{
}

/// Reading a `SharedPointer` built from a `&'static` yields the referenced
/// data.
pub proof fn lemma_shared_from_static_then_read<T: ?Sized + 'static>(
    ptr: &'static T,
    shared: SharedPointer<T>,
    read: &T,
)
    requires
        call_ensures(<SharedPointer<T> as From<&'static T>>::from, (ptr,), shared),
        call_ensures(<SharedPointer<T> as Deref>::deref, (&shared,), read),
    ensures
        read == ptr,
{
}

/// Reading a `SyncPointer` that `new` built yields the data it was built
/// from.
pub proof fn lemma_sync_new_then_read<T: 'static>(data: T, sync: SyncPointer<T>, read: &T)
    requires
        call_ensures(SyncPointer::<T>::new, (data,), sync),
        call_ensures(<SyncPointer<T> as Deref>::deref, (&sync,), read),
    ensures
        *read == data,
{
}

/// Reading a `SyncPointer` built from an `Arc` yields the data of that `Arc`.
pub proof fn lemma_sync_from_arc_then_read<T: ?Sized + 'static>(
    ptr: Arc<T>,
    sync: SyncPointer<T>,
    read: &T,
)
    requires
        call_ensures(<SyncPointer<T> as From<Arc<T>>>::from, (ptr,), sync),
        call_ensures(<SyncPointer<T> as Deref>::deref, (&sync,), read),
    ensures
        read == &*ptr,
{
}

/// Reading a `SyncPointer` built from a `&'static` yields the referenced
/// data.
pub proof fn lemma_sync_from_static_then_read<T: ?Sized + 'static>(
    ptr: &'static T,
    sync: SyncPointer<T>,
    read: &T,
)
    requires
        call_ensures(<SyncPointer<T> as From<&'static T>>::from, (ptr,), sync),
        call_ensures(<SyncPointer<T> as Deref>::deref, (&sync,), read),
    ensures
        read == ptr,
{
}

/// A clone of a `SharedPointer` is bound to the backend of the original, and
/// reading it yields what reading the original yields.
pub proof fn lemma_shared_clone_then_read<T: ?Sized + 'static>(
    original: SharedPointer<T>,
    copy: SharedPointer<T>,
    read_original: &T,
    read_copy: &T,
)
    requires
        cloned(original, copy),
        call_ensures(<SharedPointer<T> as Deref>::deref, (&original,), read_original),
        call_ensures(<SharedPointer<T> as Deref>::deref, (&copy,), read_copy),
    ensures
        copy.backend() == original.backend(),
        read_copy == read_original,
{
}

/// A clone of a `SyncPointer` is bound to the backend of the original, and
/// reading it yields what reading the original yields.
pub proof fn lemma_sync_clone_then_read<T: ?Sized + 'static>(
    original: SyncPointer<T>,
    copy: SyncPointer<T>,
    read_original: &T,
    read_copy: &T,
)
    requires
        cloned(original, copy),
        call_ensures(<SyncPointer<T> as Deref>::deref, (&original,), read_original),
        call_ensures(<SyncPointer<T> as Deref>::deref, (&copy,), read_copy),
    ensures
        copy.backend() == original.backend(),
        read_copy == read_original,
{
}

/// No `SyncPointer` is bound to the `Rc` backend.
pub proof fn lemma_sync_backend_is_thread_safe<T: ?Sized + 'static>(sync: SyncPointer<T>)
    ensures
        sync.backend().thread_safe(),
        sync.backend() != Backend::Rc,
{
}

/// A `SharedPointer` bound to the `Arc` or the static backend always
/// upgrades: the checked conversions succeed, with a handle to the same data
/// on the same backend, and the unchecked ones may be called.
pub proof fn lemma_thread_safe_backend_upgrades<T: ?Sized + 'static>(shared: SharedPointer<T>)
    requires
        shared.backend() == Backend::Arc || shared.backend() == Backend::Static,
    ensures
        SyncPointer::upgrade(shared) is Ok,
        SyncPointer::upgrade(shared)->Ok_0.backend() == shared.backend(),
        SyncPointer::upgrade(shared)->Ok_0.value() == shared.value(),
        call_requires(SyncPointer::<T>::from_shared, (shared,)),
        call_requires(SharedPointer::<T>::into_sync, (shared,)),
{
}

/// A `SharedPointer` bound to the `Rc` backend never upgrades: the checked
/// conversions fail with [`UPGRADE_ERROR`].
pub proof fn lemma_rc_backend_never_upgrades<T: ?Sized + 'static>(shared: SharedPointer<T>)
    requires
        shared.backend() == Backend::Rc,
    ensures
        SyncPointer::upgrade(shared) == Err::<SyncPointer<T>, &'static str>(UPGRADE_ERROR),
{
}

/// `TryFrom` is the conversion that [`SyncPointer::upgrade`] describes.
pub proof fn lemma_try_from_is_upgrade<T: ?Sized + 'static>(shared: SharedPointer<T>)
    ensures
        <SyncPointer<T> as TryFromSpec<SharedPointer<T>>>::obeys_try_from_spec(),
        <SyncPointer<T> as TryFromSpec<SharedPointer<T>>>::try_from_spec(shared)
            == SyncPointer::upgrade(shared),
{
}

/// Turning a `SyncPointer` into a `SharedPointer` keeps its data and its
/// backend.
pub proof fn lemma_demote_keeps_value_and_backend<T: ?Sized + 'static>(sync: SyncPointer<T>)
    ensures
        <SharedPointer<T> as FromSpec<SyncPointer<T>>>::obeys_from_spec(),
        <SharedPointer<T> as FromSpec<SyncPointer<T>>>::from_spec(sync).value() == sync.value(),
        <SharedPointer<T> as FromSpec<SyncPointer<T>>>::from_spec(sync).backend()
            == sync.backend(),
{
}

/// A `SyncPointer` that was turned into a `SharedPointer` upgrades again, to
/// the handle it was.
pub proof fn lemma_demote_then_upgrade<T: ?Sized + 'static>(sync: SyncPointer<T>)
    ensures
        SyncPointer::upgrade(<SharedPointer<T> as FromSpec<SyncPointer<T>>>::from_spec(sync))
            == Ok::<SyncPointer<T>, &'static str>(sync),
{
}

/// Where a `SharedPointer` upgrades, turning the result back yields the
/// handle it was.
pub proof fn lemma_upgrade_then_demote<T: ?Sized + 'static>(shared: SharedPointer<T>)
    requires
        shared.backend().thread_safe(),
    ensures
        <SharedPointer<T> as FromSpec<SyncPointer<T>>>::from_spec(
            SyncPointer::upgrade(shared)->Ok_0,
        ) == shared,
{
}

} // verus!
