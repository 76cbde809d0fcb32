use vstd::prelude::*;

verus! {

/// The closed set of reasons for which an element can be rejected. Each
/// adapter family produces exactly one of these; most carry the offending
/// element.
#[derive(Debug, PartialEq, Eq, Clone)]
pub enum ValidErr<T> {
    /// A counting cap was exceeded; carries the element beyond the cap.
    TooMany(T),
    /// The source ended before a required count was reached; no element
    /// exists to carry, so this is a synthetic trailing rejection.
    TooFew,
    /// An element fell outside an inclusive range; carries it.
    OutOfBounds(T),
    /// An element failed a boolean rule; carries it.
    Invalid(T),
    /// An element's derived property differed from the first element's;
    /// carries it.
    BrokenConstant(T),
    /// An element failed the test against the element a fixed number of
    /// accepted steps back; carries it.
    LookBackFailed(T),
    /// A rejection of a nested run, bridged into this one; the inner detail
    /// is discarded on purpose.
    Bridged,
}

} // verus!
