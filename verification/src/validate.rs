//! The validation gate applied to activation inputs.
//!
//! An input buffer passes when it holds at most 10000 elements, every element
//! is finite, and every element's magnitude is at most 1000.0. The check walks
//! the buffer left to right and reports the first violation it meets: a
//! non-finite element as `NonFiniteValue`, an oversized magnitude as
//! `OutOfBounds`; an oversized buffer is rejected as `SizeLimitExceeded`
//! before any element is read. Only the activation operation is gated — the
//! other operations are total by design.

use vstd::prelude::*;

use crate::bits::is_finite_bits;
use crate::bits::within_magnitude_bound;
use crate::bits::finite_bits;
use crate::bits::magnitude_bounded;

verus! {

/// Why an activation input buffer was rejected.
#[derive(Clone, Copy, Debug, PartialEq, Eq, Structural)]
pub enum ValidationError {
    /// The buffer holds more than 10000 elements.
    SizeLimitExceeded,
    /// Some element is a NaN or an infinity.
    NonFiniteValue,
    /// Some element's magnitude exceeds 1000.0.
    OutOfBounds,
}

/// The most elements an activation input buffer may hold.
pub const MAX_INPUT_LEN: usize = 10000;

/// An element is admissible: finite with magnitude at most 1000.0.
pub open spec fn elem_ok(b: u32) -> bool {
    is_finite_bits(b) && within_magnitude_bound(b)
}

/// The error the left-to-right walk reports first from position `i` on, if
/// any: a non-finite element before an out-of-bounds one at the same
/// position, an earlier position before a later one.
pub open spec fn first_elem_error_from(s: Seq<u32>, i: int) -> Option<ValidationError>
    decreases s.len() - i,
{
    if i < 0 || i >= s.len() {
        None
    } else if !is_finite_bits(s[i]) {
        Some(ValidationError::NonFiniteValue)
    } else if !within_magnitude_bound(s[i]) {
        Some(ValidationError::OutOfBounds)
    } else {
        first_elem_error_from(s, i + 1)
    }
}

/// The verdict on a whole buffer: the size bound first, then the
/// first element violation.
pub open spec fn validation_of(s: Seq<u32>) -> Option<ValidationError> {
    if s.len() > MAX_INPUT_LEN {
        Some(ValidationError::SizeLimitExceeded)
    } else {
        first_elem_error_from(s, 0)
    }
}

/// The walk reports nothing from position `i` on exactly when every later
/// element is admissible.
pub proof fn lemma_first_elem_error_none(s: Seq<u32>, i: int)
    requires
        0 <= i,
    ensures
        first_elem_error_from(s, i) is None <==> (forall|k: int|
            i <= k < s.len() ==> elem_ok(#[trigger] s[k])),
    decreases s.len() - i,
{
    if 0 <= i < s.len() {
        lemma_first_elem_error_none(s, i + 1);
    }
}

/// Checks an activation input buffer, handed over as bit patterns.
///
/// Returns `Ok` exactly when the buffer holds at most 10000 elements, every
/// element is finite, and every element's magnitude is at most 1000.0;
/// otherwise returns the first violation in the documented order.
pub fn validate(inputs: &Vec<u32>) -> (r: Result<(), ValidationError>)
    ensures
        r == (match validation_of(inputs@) {
            None => Ok::<(), ValidationError>(()),
            Some(e) => Err(e),
        }),
        r is Ok <==> inputs@.len() <= MAX_INPUT_LEN && (forall|k: int|
            0 <= k < inputs@.len() ==> elem_ok(#[trigger] inputs@[k])),
{
    proof {
        lemma_first_elem_error_none(inputs@, 0);
    }
    if inputs.len() > MAX_INPUT_LEN {
        return Err(ValidationError::SizeLimitExceeded);
    }
    let n = inputs.len();
    let mut i: usize = 0;
    while i < n
        invariant
            n == inputs@.len() <= MAX_INPUT_LEN,
            0 <= i <= n,
            first_elem_error_from(inputs@, 0) == first_elem_error_from(inputs@, i as int),
        decreases n - i,
    {
        let b = inputs[i];
        if !finite_bits(b) {
            assert(first_elem_error_from(inputs@, i as int) == Some(
                ValidationError::NonFiniteValue,
            ));
            return Err(ValidationError::NonFiniteValue);
        }
        if !magnitude_bounded(b) {
            assert(first_elem_error_from(inputs@, i as int) == Some(ValidationError::OutOfBounds));
            return Err(ValidationError::OutOfBounds);
        }
        i = i + 1;
    }
    Ok(())
}

} // verus!
