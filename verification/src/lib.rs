//! Dynamic smart pointers for abstracting over different ownership models.
//!
//! A handle of this crate owns its data through one of three backends: an
//! `Rc`, an `Arc` or a `&'static` reference. Which one it is gets decided
//! when the handle is built and is no longer visible in its type afterwards;
//! cloning, reading and releasing dispatch on the backend at run time.
//!
//! A [`SharedPointer`] can be built from any of the three backends and is
//! never `Send` or `Sync`. A [`SyncPointer`] can only be built from an `Arc`
//! or a `&'static` and is `Send` and `Sync` whenever its payload is. A
//! `SharedPointer` converts into a `SyncPointer` exactly when it was not
//! built from an `Rc`.
pub mod backend;
pub mod laws;
mod pointer;
mod shared;
mod sync;

pub use crate::backend::Backend;
pub use crate::shared::SharedPointer;
pub use crate::sync::SyncPointer;
pub use crate::sync::UPGRADE_ERROR;
