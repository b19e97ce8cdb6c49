//! [`InlineFn`], the reusable half: a type-erased `FnMut()`.
use vstd::prelude::*;

use super::buffer;
use super::buffer::{Placement, StoreError, choose_placement, is_fit};
use super::label;
use super::label::format_label;

verus! {

/// Anything [`InlineFn`] can store: a callable that takes no arguments, returns
/// nothing, can be called more than once, and is safe to move across threads.
///
/// Every `FnMut() + Send` closure has it, so closures that mutate what they
/// captured are welcome. Every `Fn` closure has it too, since `Fn: FnMut`.
/// Closures that consume what they captured only satisfy `FnOnce` and belong in
/// [`InlineFnOnce`](super::InlineFnOnce) instead.
pub trait IRunnable: Send {
    /// The closure, in this state, may be called with no arguments: its own
    /// precondition holds.
    spec fn call_allowed(&self) -> bool;

    /// A call of the closure in this state, with no arguments, returned `()`.
    spec fn call_returned(&self) -> bool;

    /// Calls the closure once, in place. The closure stays: it may be called
    /// again under the same condition, with the same outcome.
    fn call_in_place(&mut self)
        requires
            old(self).call_allowed(),
        ensures
            old(self).call_returned(),
            final(self).call_allowed() == old(self).call_allowed(),
            final(self).call_returned() == old(self).call_returned(),
    ;
}

impl<T: FnMut() + Send> IRunnable for T {
    open spec fn call_allowed(&self) -> bool {
        call_requires(*self, ())
    }

    open spec fn call_returned(&self) -> bool {
        call_ensures(*self, (), ())
    }

    fn call_in_place(&mut self) {
        self()
    }
}

/// A stored closure together with the number of calls it has received.
struct Counted<T> {
    f: T,
    calls: Ghost<nat>,
}

/// What an [`InlineFn`] holds: a closure that counts the calls it receives.
trait CountedCall: Send {
    /// The closure, in this state, may be called with no arguments.
    spec fn allowed(&self) -> bool;

    /// A call of the closure in this state, with no arguments, returned `()`.
    spec fn returned(&self) -> bool;

    /// How many calls the closure has received since it was stored.
    spec fn calls(&self) -> nat;

    /// Calls the closure once and counts the call.
    fn call(&mut self)
        requires
            old(self).allowed(),
        ensures
            old(self).returned(),
            final(self).allowed() == old(self).allowed(),
            final(self).returned() == old(self).returned(),
            final(self).calls() == old(self).calls() + 1,
    ;
}

impl<T: FnMut() + Send> CountedCall for Counted<T> {
    spec fn allowed(&self) -> bool {
        self.f.call_allowed()
    }

    spec fn returned(&self) -> bool {
        self.f.call_returned()
    }

    spec fn calls(&self) -> nat {
        self.calls@
    }

    fn call(&mut self) {
        self.f.call_in_place();
        self.calls = Ghost(self.calls@ + 1);
    }
}

/// A type-erased `FnMut()` whose closure is placed by the inline buffer rules.
///
/// # Storage
///
/// The closure is held behind one owning pointer whatever its size. What the
/// inline buffer rules decide is recorded as its [`Placement`]: inline when its
/// size and alignment fit an `S` byte buffer aligned to
/// [`BUFFER_ALIGN`](super::BUFFER_ALIGN), boxed otherwise. With boxing switched
/// off, a closure that would have to be boxed is refused.
///
/// # Parameters
///
/// - `S`: size of the inline buffer, in bytes. A closure fits when both its size
///   and its alignment fit. [`SMALL`](super::SMALL) is the usual choice.
/// - `D`: what to do when the closure does not fit. `true` boxes it, `false`
///   refuses it.
///
/// # Calling
///
/// [`run`](Self::run) takes `&mut self`, which is what lets the closure touch
/// its own state, and it can be called as many times as you like.
pub struct InlineFn<const S: usize, const D: bool> {
    closure: Box<dyn CountedCall>,
    placement: Placement,
}

impl<const S: usize, const D: bool> InlineFn<S, D> {
    /// The placement the inline buffer rules gave the closure.
    pub closed spec fn stored_placement(&self) -> Placement {
        self.placement
    }

    /// Stores `f`, placed inline when it fits and boxed when it does not.
    ///
    /// Needs a buffer of at least one byte, and, with boxing switched off, a
    /// closure that fits; [`try_new`](Self::try_new) checks both.
    pub fn new<T: FnMut() + Send + 'static>(f: T) -> (r: Self)
        requires
            S > 0,
            D || buffer::fits(size_of::<T>() as int, align_of::<T>() as int, S as int),
        ensures
            r.stored_placement() == buffer::placement_for(
                size_of::<T>() as int,
                align_of::<T>() as int,
                S as int,
            ),
            buffer::decision_for::<T>(S, D) == Ok::<Placement, StoreError>(r.stored_placement()),
            r.stored_call_allowed() == call_requires(f, ()),
            r.stored_call_returned() == call_ensures(f, (), ()),
            r.stored_calls() == 0,
    {
        let placement = if is_fit::<T, S>() {
            Placement::Inline
        } else {
            Placement::Boxed
        };
        InlineFn { closure: Box::new(Counted { f, calls: Ghost(0) }), placement }
    }

    /// Stores `f` as [`new`](Self::new) does, or says why it cannot: the buffer
    /// is empty, or the closure does not fit while boxing is switched off.
    pub fn try_new<T: FnMut() + Send + 'static>(f: T) -> (r: Result<Self, StoreError>)
        ensures
            match buffer::decision_for::<T>(S, D) {
                Ok(p) => r matches Ok(v) && v.stored_placement() == p
                    && v.stored_call_allowed() == call_requires(f, ())
                    && v.stored_call_returned() == call_ensures(f, (), ())
                    && v.stored_calls() == 0,
                Err(e) => r == Err::<Self, StoreError>(e),
            },
    {
        match choose_placement::<T, S, D>() {
            Ok(placement) => Ok(
                InlineFn { closure: Box::new(Counted { f, calls: Ghost(0) }), placement },
            ),
            Err(e) => Err(e),
        }
    }

    /// The stored closure, in this state, may be called with no arguments.
    pub closed spec fn stored_call_allowed(&self) -> bool {
        self.closure.allowed()
    }

    /// How many calls the stored closure has received since it was stored.
    pub closed spec fn stored_calls(&self) -> nat {
        self.closure.calls()
    }

    /// The stored closure, in this state, was called with no arguments and
    /// returned.
    pub closed spec fn stored_call_returned(&self) -> bool {
        self.closure.returned()
    }

    /// Calls the stored closure exactly once. Borrows, so it can be called
    /// repeatedly; the closure stays where it was placed.
    pub fn run(&mut self)
        requires
            old(self).stored_call_allowed(),
        ensures
            old(self).stored_call_returned(),
            final(self).stored_call_allowed() == old(self).stored_call_allowed(),
            final(self).stored_call_returned() == old(self).stored_call_returned(),
            final(self).stored_placement() == old(self).stored_placement(),
            final(self).stored_calls() == old(self).stored_calls() + 1,
    {
        self.closure.call();
    }

    /// Calls the stored closure once, then drops it.
    pub fn run_once(self)
        requires
            self.stored_call_allowed(),
        ensures
            self.stored_call_returned(),
    {
        let mut this = self;
        this.run();
    }

    /// The placement the inline buffer rules gave the closure.
    pub fn placement(&self) -> (p: Placement)
        ensures
            p == self.stored_placement(),
    {
        self.placement
    }

    /// `InlineFn<S> { .. }`: the type's name and its buffer size.
    pub fn debug_string(&self) -> (r: String)
        ensures
            r@ == label::label_text("InlineFn"@, S as nat),
    {
        format_label("InlineFn", S)
    }
}

} // verus!
