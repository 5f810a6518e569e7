//! The three ownership strategies a handle can be bound to.
use vstd::prelude::*;

verus! {

/// The sharing strategy that owns the data behind a handle.
#[derive(Clone, Copy, Debug, PartialEq, Eq, Structural)]
pub enum Backend {
    /// A reference-counted allocation whose count is updated without atomics.
    Rc,
    /// A reference-counted allocation whose count is updated atomically.
    Arc,
    /// A value that lives for the rest of the process.
    Static,
}

impl Backend {
    /// Whether handles of this backend may be duplicated and released from
    /// several threads at once.
    pub open spec fn thread_safe(self) -> bool {
        self != Backend::Rc
    }

    /// Computes [`Backend::thread_safe`].
    pub fn is_thread_safe(self) -> (safe: bool)
        ensures
            safe == self.thread_safe(),
    {
        match self {
            Backend::Rc => false,
            Backend::Arc => true,
            Backend::Static => true,
        }
    }
}

} // verus!
