//! A flag that one task sets, once, and that others read.
//!
//! What holds the flag's value is a parameter here. So nothing reaches it but the
//! functions that are handed in, and those can only be the ones that
//! [`Holder`] names: a reader can load the value and nothing else, and a recorder
//! can store one and is then gone.

use core::sync::atomic::{AtomicBool, Ordering};
use std::sync::Arc;
use vstd::prelude::*;

verus! {

/// What can hold the value of a flag.
pub trait Holder: Sized {
    /// Made with the value `initial`, it is `holder`.
    spec fn made(initial: bool, holder: Self) -> bool;

    /// Loaded, it gave `value`.
    spec fn loaded(&self, value: bool) -> bool;

    /// The value `value` was stored to it.
    spec fn stored(&self, value: bool) -> bool;
}

impl Holder for AtomicBool {
    open spec fn made(initial: bool, holder: AtomicBool) -> bool {
        call_ensures(AtomicBool::new, (initial,), holder)
    }

    open spec fn loaded(&self, value: bool) -> bool {
        call_ensures(AtomicBool::load, (self, Ordering::Acquire), value)
    }

    open spec fn stored(&self, value: bool) -> bool {
        call_ensures(AtomicBool::store, (self, value, Ordering::Release), ())
    }
}

/// Reads a flag.
#[derive(Debug)]
pub struct Reader<F> {
    holder: Arc<F>,
}

/// Sets a flag, once.
#[derive(Debug)]
pub struct Recorder<F> {
    holder: Arc<F>,
}

impl<F: Holder> Clone for Reader<F> {
    fn clone(&self) -> (this: Self)
        ensures
            this == *self,
    {
        Reader { holder: self.holder.clone() }
    }
}

impl<F: Holder> Reader<F> {
    /// What holds the value of the flag.
    pub closed spec fn holder(self) -> Arc<F> {
        self.holder
    }

    /// Reads the flag.
    pub fn read<L: Fn(&F, Ordering) -> bool>(&self, load: L) -> (value: bool)
        requires
            forall|holder: &F| #[trigger] call_requires(load, (holder, Ordering::Acquire)),
            forall|holder: &F, value: bool| #[trigger]
                call_ensures(load, (holder, Ordering::Acquire), value) ==> holder.loaded(value),
            forall|holder: &F, value: bool| #[trigger]
                holder.loaded(value) ==> call_ensures(load, (holder, Ordering::Acquire), value),
        ensures
            self.holder().loaded(value),
    {
        load(&*self.holder, Ordering::Acquire)
    }
}

impl<F: Holder> Recorder<F> {
    /// What holds the value of the flag.
    pub closed spec fn holder(self) -> Arc<F> {
        self.holder
    }

    /// Sets the flag to `value`.
    pub fn record<S: FnOnce(&F, bool, Ordering)>(self, store: S, value: bool)
        requires
            forall|holder: &F, value: bool| #[trigger]
                call_requires(store, (holder, value, Ordering::Release)),
            forall|holder: &F, value: bool| #[trigger]
                call_ensures(store, (holder, value, Ordering::Release), ()) ==> holder.stored(value),
            forall|holder: &F, value: bool| #[trigger]
                holder.stored(value) ==> call_ensures(store, (holder, value, Ordering::Release), ()),
        ensures
            self.holder().stored(value),
    {
        store(&*self.holder, value, Ordering::Release)
    }
}

/// Makes a flag with the value `initial`: what reads it, and what sets it.
pub fn flag<F: Holder, N: FnOnce(bool) -> F>(make: N, initial: bool) -> (shared: (
    Reader<F>,
    Recorder<F>,
))
    requires
        call_requires(make, (initial,)),
        forall|holder: F| #[trigger]
            call_ensures(make, (initial,), holder) ==> F::made(initial, holder),
        forall|holder: F| #[trigger]
            F::made(initial, holder) ==> call_ensures(make, (initial,), holder),
    ensures
        shared.0.holder() == shared.1.holder(),
        F::made(initial, *shared.0.holder()),
{
    let holder = Arc::new(make(initial));
    (Reader { holder: holder.clone() }, Recorder { holder })
}

/// An atomic flag is made, loaded and stored to by `AtomicBool`'s own functions,
/// with acquire and release ordering: whoever hands anything else to a reader or
/// a recorder cannot meet what it requires.
pub proof fn law_atomic_holder(holder: AtomicBool, value: bool)
    ensures
        AtomicBool::made(value, holder) <==> call_ensures(AtomicBool::new, (value,), holder),
        holder.loaded(value) <==> call_ensures(
            AtomicBool::load,
            (&holder, Ordering::Acquire),
            value,
        ),
        holder.stored(value) <==> call_ensures(
            AtomicBool::store,
            (&holder, value, Ordering::Release),
            (),
        ),
{
}

} // verus!
