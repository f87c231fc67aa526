//! The common representation in which every message of a session travels
//! over the raw channel.
use vstd::prelude::*;

verus! {

/// A representation that can hold a message of type `T`.
///
/// An implementation says, through `message`, which `T` (if any) a value of
/// the representation holds; the three operations are held to that. What the
/// library proves of delivery (a sent message is the one received, a choice
/// is the branch offered) holds for the representations that keep this
/// contract; an implementation whose `from(v)` does not hold `v` (a text
/// encoding that cannot give some values back, say) voids it.
pub trait Repr<T> where Self: Sized {
    /// The message of type `T` that this representation holds, if it holds one.
    spec fn message(&self) -> Option<T>;

    /// Convert a raw type to the common representation.
    fn from(v: T) -> (r: Self)
        ensures
            r.message() == Some(v),
    ;

    /// Try to convert the representation back into one of the raw message
    /// types; when it holds no `T`, the representation comes back unchanged.
    fn try_into(self) -> (r: Result<T, Self>)
        ensures
            match self.message() {
                Some(v) => r == Ok::<T, Self>(v),
                None => r == Err::<T, Self>(self),
            },
    ;

    /// Check whether the representation can be turned into this raw type,
    /// without consuming.
    fn can_into(&self) -> (b: bool)
        ensures
            b == self.message() is Some,
    ;
}

} // verus!
