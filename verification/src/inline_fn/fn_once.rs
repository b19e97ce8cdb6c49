//! [`InlineFnOnce`], the consuming half: a type-erased `FnOnce()`.
use vstd::prelude::*;

use super::buffer;
use super::buffer::{Placement, StoreError, choose_placement, is_fit};
use super::label;
use super::label::format_label;

verus! {

/// Anything [`InlineFnOnce`] can store: a callable that takes no arguments,
/// returns nothing, and is safe to move across threads.
///
/// This is the widest of the call traits. Since `Fn: FnMut: FnOnce`, every
/// closure accepted by [`InlineFn`](super::InlineFn) is accepted here too, plus
/// the ones that consume what they captured.
pub trait IRunnableOnce: Send {
    /// The closure may be called with no arguments: its own precondition holds.
    spec fn call_allowed(&self) -> bool;

    /// A call of the closure with no arguments returned `()`.
    spec fn call_returned(&self) -> bool;

    /// Calls the closure, consuming it and the box that holds it.
    fn call_boxed(self: Box<Self>)
        requires
            (*self).call_allowed(),
        ensures
            (*self).call_returned(),
    ;
}

impl<T: FnOnce() + Send> IRunnableOnce for T {
    open spec fn call_allowed(&self) -> bool {
        call_requires(*self, ())
    }

    open spec fn call_returned(&self) -> bool {
        call_ensures(*self, (), ())
    }

    fn call_boxed(self: Box<Self>) {
        let f = *self;
        f()
    }
}

/// A type-erased `FnOnce()` whose closure is placed by the inline buffer rules.
///
/// Same storage rules as [`InlineFn`](super::InlineFn), different contract: the
/// closure is consumed when it runs, so it runs at most once. That is what buys
/// the wider set of accepted closures.
///
/// # Storage
///
/// The closure is held behind one owning pointer whatever its size. What the
/// inline buffer rules decide is recorded as its [`Placement`]: inline when its
/// size and alignment fit an `S` byte buffer aligned to
/// [`BUFFER_ALIGN`](super::BUFFER_ALIGN), boxed otherwise. With boxing switched
/// off, a closure that would have to be boxed is refused.
///
/// # Parameters
///
/// - `S`: size of the inline buffer, in bytes. A closure fits when both its size
///   and its alignment fit.
/// - `D`: what to do when the closure does not fit. `true` boxes it, `false`
///   refuses it.
///
/// # Calling
///
/// [`run`](Self::run) takes `self`. Calling it twice does not compile, since the
/// value is gone after the first call. A value that is never run drops its
/// closure normally.
pub struct InlineFnOnce<const S: usize, const D: bool> {
    closure: Box<dyn IRunnableOnce>,
    placement: Placement,
}

impl<const S: usize, const D: bool> InlineFnOnce<S, D> {
    /// The placement the inline buffer rules gave the closure.
    pub closed spec fn stored_placement(&self) -> Placement {
        self.placement
    }

    /// Stores `f`, placed inline when it fits and boxed when it does not.
    ///
    /// Needs a buffer of at least one byte, and, with boxing switched off, a
    /// closure that fits; [`try_new`](Self::try_new) checks both.
    pub fn new<T: FnOnce() + Send + 'static>(f: T) -> (r: Self)
        requires
            S > 0,
            D || buffer::fits(size_of::<T>() as int, align_of::<T>() as int, S as int),
        ensures
            r.stored_placement() == buffer::placement_for(
                size_of::<T>() as int,
                align_of::<T>() as int,
                S as int,
            ),
            buffer::decision_for::<T>(S, D) == Ok::<Placement, StoreError>(r.stored_placement()),
            r.stored_call_allowed() == call_requires(f, ()),
            r.stored_call_returned() == call_ensures(f, (), ()),
    {
        let placement = if is_fit::<T, S>() {
            Placement::Inline
        } else {
            Placement::Boxed
        };
        InlineFnOnce { closure: Box::new(f), placement }
    }

    /// Stores `f` as [`new`](Self::new) does, or says why it cannot: the buffer
    /// is empty, or the closure does not fit while boxing is switched off.
    pub fn try_new<T: FnOnce() + Send + 'static>(f: T) -> (r: Result<Self, StoreError>)
        ensures
            match buffer::decision_for::<T>(S, D) {
                Ok(p) => r matches Ok(v) && v.stored_placement() == p
                    && v.stored_call_allowed() == call_requires(f, ())
                    && v.stored_call_returned() == call_ensures(f, (), ()),
                Err(e) => r == Err::<Self, StoreError>(e),
            },
    {
        match choose_placement::<T, S, D>() {
            Ok(placement) => Ok(InlineFnOnce { closure: Box::new(f), placement }),
            Err(e) => Err(e),
        }
    }

    /// The stored closure may be called with no arguments.
    pub closed spec fn stored_call_allowed(&self) -> bool {
        self.closure.call_allowed()
    }

    /// A call of the stored closure with no arguments returned.
    pub closed spec fn stored_call_returned(&self) -> bool {
        self.closure.call_returned()
    }

    /// Calls the stored closure, consuming both it and `self`.
    pub fn run(self)
        requires
            self.stored_call_allowed(),
        ensures
            self.stored_call_returned(),
    {
        self.closure.call_boxed();
    }

    /// The placement the inline buffer rules gave the closure.
    pub fn placement(&self) -> (p: Placement)
        ensures
            p == self.stored_placement(),
    {
        self.placement
    }

    /// `InlineFnOnce<S> { .. }`: the type's name and its buffer size.
    pub fn debug_string(&self) -> (r: String)
        ensures
            r@ == label::label_text("InlineFnOnce"@, S as nat),
    {
        format_label("InlineFnOnce", S)
    }
}

} // verus!
