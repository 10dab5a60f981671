use vstd::prelude::*;

verus! {

use std::sync::Arc;

/// The raw std weak pointer, held opaquely: its type cannot be declared to
/// the verifier, so it lives in a hidden field and is touched only by the
/// trusted functions below.
#[verifier::external_body]
#[verifier::reject_recursive_types(X)]
struct WeakPtr<X> {
    ptr: std::sync::Weak<X>,
}

/// A non-owning reference: it never keeps its target alive, and dereferencing
/// it yields an explicit present-or-absent result instead of a bare
/// reference. The ghost `target` records which allocation the reference was
/// created from, so contracts can say what a successful upgrade returns.
#[verifier::reject_recursive_types(X)]
pub struct WeakRef<X> {
    ptr: WeakPtr<X>,
    target: Ghost<Arc<X>>,
}

impl<X> WeakRef<X> {
    /// The strong reference this weak reference was created from.
    pub closed spec fn target(&self) -> Arc<X> {
        self.target@
    }

    /// Relies on std::sync::Arc::downgrade: the weak reference observes the
    /// very allocation the strong reference owns.
    #[verifier::external_body]
    fn downgrade_raw(a: &Arc<X>) -> WeakPtr<X> {
        WeakPtr { ptr: Arc::downgrade(a) }
    }

    /// A non-owning reference to the allocation behind `a`.
    pub fn downgrade(a: &Arc<X>) -> (w: WeakRef<X>)
        ensures
            w.target() == *a,
    {
        let ghost t: Arc<X> = *a;
        WeakRef { ptr: Self::downgrade_raw(a), target: Ghost(t) }
    }

    /// Relies on std::sync::Weak::upgrade: it yields a strong reference to
    /// the allocation the weak reference was created from, or nothing once
    /// every strong reference to it is gone. Nothing promises which of the
    /// two outcomes occurs: that depends on the rest of the process.
    #[verifier::external_body]
    pub fn upgrade(&self) -> (r: Option<Arc<X>>)
        ensures
            r matches Some(a) ==> a == self.target(),
    {
        self.ptr.ptr.upgrade()
    }

    /// Relies on std::sync::Weak::clone: the copy observes the same
    /// allocation as the original.
    #[verifier::external_body]
    fn clone_raw(&self) -> WeakPtr<X> {
        WeakPtr { ptr: self.ptr.ptr.clone() }
    }
}

impl<X> Clone for WeakRef<X> {
    fn clone(&self) -> (r: Self)
        ensures
            r.target() == self.target(),
    {
        let ghost t: Arc<X> = self.target@;
        WeakRef { ptr: self.clone_raw(), target: Ghost(t) }
    }
}

} // verus!
