//! Storage rules shared by [`InlineFn`](super::InlineFn) and
//! [`InlineFnOnce`](super::InlineFnOnce).
//!
//! Both types differ only in how they call the closure they hold. Where they put
//! it, and how they decide whether it fits, is the same on both sides.
use vstd::prelude::*;
use vstd::string::StringExecFns;

use super::label;
use super::label::decimal_string;

verus! {

/// `4 * size_of::<usize>()`. Fits a closure capturing up to four words.
pub const SMALL: usize = 32;

/// `8 * size_of::<usize>()`. Use it when the captured state is on the larger side.
pub const LARGE: usize = 64;

/// Alignment that the inline buffer guarantees, whatever its size.
///
/// A plain byte buffer is only 1 byte aligned, which would reject nearly every
/// closure that captures anything, since a captured pointer already needs 8.
pub const BUFFER_ALIGN: usize = 16;

/// The side of the inline buffer limit that a stored closure falls on.
#[derive(Clone, Copy, Debug, PartialEq, Eq, Structural)]
pub enum Placement {
    /// Fits the fixed buffer: both its size and its alignment are within limits.
    Inline,
    /// Does not fit the buffer and needs a heap allocation of its own.
    Boxed,
}

/// Why a closure was refused.
#[derive(Clone, Copy, Debug, PartialEq, Eq, Structural)]
pub enum StoreError {
    /// The buffer has no room at all: a zero sized buffer would hand out a
    /// dangling place to write into.
    ZeroSizedBuffer,
    /// The closure does not fit inline and boxing is switched off. Carries what
    /// the closure needs and what the buffer offers.
    BoxingDisabled {
        closure_size: usize,
        closure_align: usize,
        buffer_size: usize,
        buffer_align: usize,
    },
}

/// The text that explains a refusal, for a container named `container` and a
/// closure named `closure`. The zero sized buffer text names only the container.
pub open spec fn refusal_text(error: StoreError, container: Seq<char>, closure: Seq<char>) -> Seq<
    char,
> {
    match error {
        StoreError::ZeroSizedBuffer => "The `"@ + container + "` buffer size must be greater than 0"@,
        StoreError::BoxingDisabled { closure_size, closure_align, buffer_size, buffer_align } => {
            "`"@ + container + "` cannot store `"@ + closure
                + "` inline and boxing is off.\nclosure: size "@ + label::decimal(closure_size as nat)
                + " bytes, align "@ + label::decimal(closure_align as nat)
                + " bytes\nbuffer:  size "@ + label::decimal(buffer_size as nat)
                + " bytes, align "@ + label::decimal(buffer_align as nat)
                + " bytes\nRaise the buffer size, or allow boxing, to store this closure."@
        },
    }
}

impl StoreError {
    /// Explains the refusal, naming the container and the closure. For a closure
    /// that does not fit, the text spells out what the closure needs and what the
    /// buffer offers, since one of the two numbers is usually the culprit.
    pub fn message(&self, container: &str, closure: &str) -> (r: String)
        ensures
            r@ == refusal_text(*self, container@, closure@),
    {
        match self {
            StoreError::ZeroSizedBuffer => {
                let mut text = String::from_str("The `");
                text.append(container);
                text.append("` buffer size must be greater than 0");
                text
            },
            StoreError::BoxingDisabled { closure_size, closure_align, buffer_size, buffer_align } => {
                let mut text = String::from_str("`");
                text.append(container);
                text.append("` cannot store `");
                text.append(closure);
                text.append("` inline and boxing is off.\nclosure: size ");
                let digits = decimal_string(*closure_size);
                text.append(digits.as_str());
                text.append(" bytes, align ");
                let digits = decimal_string(*closure_align);
                text.append(digits.as_str());
                text.append(" bytes\nbuffer:  size ");
                let digits = decimal_string(*buffer_size);
                text.append(digits.as_str());
                text.append(" bytes, align ");
                let digits = decimal_string(*buffer_align);
                text.append(digits.as_str());
                text.append(" bytes\nRaise the buffer size, or allow boxing, to store this closure.");
                text
            },
        }
    }
}

/// A value of `size` bytes and alignment `align` fits inline in a buffer of
/// `capacity` bytes: both the size and the alignment have to fit.
pub open spec fn fits(size: int, align: int, capacity: int) -> bool {
    size <= capacity && align <= BUFFER_ALIGN as int
}

/// Inline when the value fits, boxed otherwise.
pub open spec fn placement_for(size: int, align: int, capacity: int) -> Placement {
    if fits(size, align, capacity) {
        Placement::Inline
    } else {
        Placement::Boxed
    }
}

/// The whole storage decision for a closure of `size` bytes and alignment
/// `align`, a buffer of `capacity` bytes, and boxing allowed or not.
pub open spec fn storage_decision(size: usize, align: usize, capacity: usize, boxing: bool) -> Result<
    Placement,
    StoreError,
> {
    if capacity == 0 {
        Err(StoreError::ZeroSizedBuffer)
    } else if fits(size as int, align as int, capacity as int) {
        Ok(Placement::Inline)
    } else if boxing {
        Ok(Placement::Boxed)
    } else {
        Err(
            StoreError::BoxingDisabled {
                closure_size: size,
                closure_align: align,
                buffer_size: capacity,
                buffer_align: BUFFER_ALIGN,
            },
        )
    }
}

/// The storage decision for a value of type `T` in an `S` byte buffer.
pub open spec fn decision_for<T>(capacity: usize, boxing: bool) -> Result<Placement, StoreError> {
    storage_decision(
        size_of::<T>() as usize,
        align_of::<T>() as usize,
        capacity,
        boxing,
    )
}

/// Whether `T` can live inline in an `S` byte buffer.
///
/// Two separate questions. Size asks whether the closure fits at all, alignment
/// asks whether the buffer can put it at an address the closure is allowed to
/// sit at. Both have to hold, otherwise the closure goes on the heap where the
/// allocator handles alignment.
pub fn is_fit<T, const S: usize>() -> (r: bool)
    ensures
        r == fits(size_of::<T>() as int, align_of::<T>() as int, S as int),
        r <==> (size_of::<T>() <= S && align_of::<T>() <= 16),
{
    core::mem::size_of::<T>() <= S && core::mem::align_of::<T>() <= BUFFER_ALIGN
}

/// Refuses a zero sized buffer.
pub fn check_buffer_size<const S: usize>() -> (r: Result<(), StoreError>)
    ensures
        S > 0 ==> r == Ok::<(), StoreError>(()),
        S == 0 ==> r == Err::<(), StoreError>(StoreError::ZeroSizedBuffer),
{
    if S > 0 {
        Ok(())
    } else {
        Err(StoreError::ZeroSizedBuffer)
    }
}

/// Refuses the heap fallback for `T` when the caller asked for inline storage
/// only. The error spells out what the closure needs and what the buffer offers.
pub fn check_boxing_allowed<T, const S: usize>(allowed: bool) -> (r: Result<(), StoreError>)
    ensures
        allowed ==> r == Ok::<(), StoreError>(()),
        !allowed ==> r == Err::<(), StoreError>(
            StoreError::BoxingDisabled {
                closure_size: size_of::<T>() as usize,
                closure_align: align_of::<T>() as usize,
                buffer_size: S,
                buffer_align: BUFFER_ALIGN,
            },
        ),
{
    if allowed {
        Ok(())
    } else {
        Err(
            StoreError::BoxingDisabled {
                closure_size: core::mem::size_of::<T>(),
                closure_align: core::mem::align_of::<T>(),
                buffer_size: S,
                buffer_align: BUFFER_ALIGN,
            },
        )
    }
}

/// Decides where a closure of type `T` goes in an `S` byte buffer, with boxing
/// allowed when `D` holds: the buffer size is checked first, then the fit, then
/// whether boxing is allowed.
pub fn choose_placement<T, const S: usize, const D: bool>() -> (r: Result<Placement, StoreError>)
    ensures
        r == decision_for::<T>(S, D),
        S == 0 ==> r == Err::<Placement, StoreError>(StoreError::ZeroSizedBuffer),
{
    match check_buffer_size::<S>() {
        Err(e) => return Err(e),
        Ok(()) => {},
    }
    if is_fit::<T, S>() {
        Ok(Placement::Inline)
    } else {
        match check_boxing_allowed::<T, S>(D) {
            Err(e) => Err(e),
            Ok(()) => Ok(Placement::Boxed),
        }
    }
}

/// A value fits exactly when its size is within the capacity and its alignment
/// is within the 16 bytes the buffer guarantees; an alignment above 16 never
/// fits, whatever the capacity.
pub proof fn lemma_fit_needs_size_and_alignment(size: int, align: int, capacity: int)
    ensures
        fits(size, align, capacity) <==> (size <= capacity && align <= 16),
        align > 16 ==> !fits(size, align, capacity),
        size > capacity ==> !fits(size, align, capacity),
{
}

/// What the storage decision gives, case by case: an empty buffer is refused
/// for every closure and every boxing setting; otherwise a closure whose size
/// and alignment fit goes inline, one that does not is boxed when boxing is on,
/// and refused with its own needs and the buffer's offer when boxing is off.
pub proof fn lemma_storage_decision_cases(size: usize, align: usize, capacity: usize, boxing: bool)
    ensures
        capacity == 0 ==> storage_decision(size, align, capacity, boxing) == Err::<
            Placement,
            StoreError,
        >(StoreError::ZeroSizedBuffer),
        storage_decision(size, align, capacity, boxing) is Ok ==> capacity > 0,
        storage_decision(size, align, capacity, boxing) == Ok::<Placement, StoreError>(
            Placement::Inline,
        ) <==> (capacity > 0 && size <= capacity && align <= 16),
        storage_decision(size, align, capacity, boxing) == Ok::<Placement, StoreError>(
            Placement::Boxed,
        ) <==> (capacity > 0 && !(size <= capacity && align <= 16) && boxing),
        (capacity > 0 && !(size <= capacity && align <= 16) && !boxing) ==> storage_decision(
            size,
            align,
            capacity,
            boxing,
        ) == Err::<Placement, StoreError>(
            StoreError::BoxingDisabled {
                closure_size: size,
                closure_align: align,
                buffer_size: capacity,
                buffer_align: 16,
            },
        ),
{
}

/// A closure that fits a buffer also fits every larger buffer.
pub proof fn lemma_fit_is_monotone(size: int, align: int, small: int, large: int)
    requires
        small <= large,
        fits(size, align, small),
    ensures
        fits(size, align, large),
        placement_for(size, align, large) == Placement::Inline,
{
}

/// With boxing allowed, every closure is accepted by a buffer of at least one byte.
pub proof fn lemma_boxing_never_refuses(size: usize, align: usize, capacity: usize)
    requires
        capacity > 0,
    ensures
        storage_decision(size, align, capacity, true) is Ok,
        storage_decision(size, align, capacity, true) == Ok::<Placement, StoreError>(
            placement_for(size as int, align as int, capacity as int),
        ),
{
}

/// With boxing switched off, an accepted closure is always stored inline: no
/// heap allocation is ever chosen.
pub proof fn lemma_no_boxing_means_inline(size: usize, align: usize, capacity: usize)
    ensures
        storage_decision(size, align, capacity, false) is Ok ==> storage_decision(
            size,
            align,
            capacity,
            false,
        ) == Ok::<Placement, StoreError>(Placement::Inline),
        storage_decision(size, align, capacity, false) is Ok <==> (capacity > 0 && fits(
            size as int,
            align as int,
            capacity as int,
        )),
{
}

/// Boxing only matters for closures that do not fit: on a buffer of at least one
/// byte, the two settings agree on every closure that fits.
pub proof fn lemma_boxing_only_matters_when_too_big(size: usize, align: usize, capacity: usize)
    requires
        capacity > 0,
        fits(size as int, align as int, capacity as int),
    ensures
        storage_decision(size, align, capacity, true) == storage_decision(
            size,
            align,
            capacity,
            false,
        ),
{
}

} // verus!
