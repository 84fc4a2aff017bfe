use core::marker::PhantomData;
use vstd::prelude::*;

verus! {

/// Capability marker: a type implementing `Leak` may have its destructor
/// skipped safely. The capability is opt-in: a type is non-leakable unless an
/// impl grants the capability explicitly.
pub trait Leak {}

impl Leak for () {}

impl Leak for bool {}

impl Leak for u32 {}

impl Leak for u64 {}

impl Leak for usize {}

impl Leak for String {}

/// Sentinel marker that permanently withholds the capability: it has no
/// `Leak` impl, so any composite relying on it stays non-leakable unless an
/// explicit rule grants the capability back. It is only ever constructed as
/// a subfield of the wrapper or of a guard.
#[derive(Default, Debug, Clone, Copy, PartialEq, Eq, PartialOrd, Ord, Hash)]
pub(crate) struct PhantomUnleak;

/// Wrapper that withholds the leak capability from its contents whenever the
/// contained type is tied to a bounded borrow. It owns exactly one value of
/// `T` beside a zero-sized sentinel, takes the same space and alignment as
/// `T` alone, and drops exactly as `T` does.
#[derive(Default, Debug, Clone, Copy, PartialEq, Eq, PartialOrd, Ord, Hash)]
pub struct Unleak<T>(pub T, PhantomUnleak);

impl<T> Unleak<T> {
    /// The wrapped value, as contracts see it.
    pub closed spec fn value(self) -> T {
        self.0
    }

    /// Wraps a value; infallible, no runtime behaviour beyond moving `v`.
    pub fn new(v: T) -> (r: Self)
        ensures
            r.value() == v,
    {
        Unleak(v, PhantomUnleak)
    }

    /// Unwraps, handing the contained value back unchanged.
    pub fn into_inner(self) -> (r: T)
        ensures
            r == self.value(),
    {
        self.0
    }

    /// A borrow of the contained value.
    pub fn get(&self) -> (r: &T)
        ensures
            *r == self.value(),
    {
        &self.0
    }
}

// This is the essential part of the `Unleak` design: the capability is
// granted back exactly when the contents are self-contained.
impl<T: 'static> Leak for Unleak<T> {}

/// Guard shape whose covariant payload sits behind the revoking wrapper.
/// `Process` is the owned processor value whose call signature carries the
/// contravariant input; `Co` is the covariant payload.
pub struct Variance<Process, Co> {
    pub process: Process,
    // invalidate `Co` type's safety invariant before restoring it
    // inside of the drop
    pub queue: Unleak<Co>,
}

impl<Process, Co> Variance<Process, Co> {
    /// Assembles the guard, wrapping the payload.
    pub fn new(process: Process, queue: Co) -> (r: Self)
        ensures
            r.process == process,
            r.queue.value() == queue,
    {
        Variance { process, queue: Unleak::new(queue) }
    }
}

// Design A: the composite's capability is inherited wholesale from the
// wrapper's propagation rule; nothing is written out by hand here.
impl<Process, Co> Leak for Variance<Process, Co> where Unleak<Co>: Leak {
}

/// Guard shape that keeps the payload bare and adds the sentinel as a
/// sibling field instead of wrapping the payload.
pub struct VarianceAlt<Process, Co> {
    pub process: Process,
    pub queue: Co,
    _unleak: PhantomUnleak,
}

impl<Process, Co> VarianceAlt<Process, Co> {
    /// The owned processor, as contracts see it.
    pub closed spec fn processor(self) -> Process {
        self.process
    }

    /// The bare covariant payload, as contracts see it.
    pub closed spec fn payload(self) -> Co {
        self.queue
    }

    /// Assembles the guard around a bare payload; infallible.
    pub fn new(process: Process, queue: Co) -> (r: Self)
        ensures
            r.processor() == process,
            r.payload() == queue,
    {
        VarianceAlt { process, queue, _unleak: PhantomUnleak }
    }
}

// Design B: the capability rule is written out manually at the composite
// site, mirroring the wrapper's rule without the wrapper layer.
impl<Process, Co: 'static> Leak for VarianceAlt<Process, Co> {}

/// Scoped-join guard shape: its phantom fields tie it to the spawned task's
/// result type `T` and, through the wrapper, to the borrowed region `'a` it
/// must not outlive without running its destructor. The `Rc` phantom keeps
/// it conservatively thread-unsafe by default; a collaborator hands it to or
/// shares it with another execution context only through the gates in
/// `capability` (transfer only when the payload is self-contained, read-only
/// sharing always). The right variance of `'a` for the guard's safety is an
/// open question, to be settled where the guard is constructed.
pub struct JoinGuard<'a, T> {
    _marker: PhantomData<T>,
    _unleak: PhantomData<Unleak<&'a ()>>,
    _unsend: PhantomData<std::rc::Rc<()>>,
}

impl<'a, T> JoinGuard<'a, T> {
    /// Makes the guard shape; all of its state is at the type level.
    pub fn new() -> (r: Self) {
        JoinGuard { _marker: PhantomData, _unleak: PhantomData, _unsend: PhantomData }
    }
}

// The guard may be leaked only when nothing borrowed can end under it.
impl<T> Leak for JoinGuard<'static, T> {}

/// Relies on core::mem::forget: takes ownership without running the
/// value's destructor; it never panics.
#[verifier::external_body]
fn forget_value<T>(value: T) {
    core::mem::forget(value)
}

/// Discards a value without running its destructor. Gated on the `Leak`
/// capability: a non-leakable value is rejected at compile time.
pub fn leak<T: Leak>(value: T) {
    forget_value(value)
}

} // verus!
