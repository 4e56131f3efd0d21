use vstd::prelude::*;

verus! {

/// Conversion of `self` into an owned `T`:
/// - an owned value is moved, unchanged;
/// - a borrowed value is cloned.
///
/// Functions that take `impl Cib<T>` accept both `T` and `&T` and work with
/// them uniformly, without redundant clones or moves.
pub trait Cib<T> {
    /// Converts `self` into an owned value: moves if owned, clones if borrowed.
    fn cib(self) -> T;
}

/// The reference case, for every `Clone` type: the result is what `T::clone`
/// returns for the referent, and the reference is left as it was.
impl<'a, T: Clone> Cib<T> for &'a T {
    fn cib(self) -> (r: T)
        ensures
            vstd::pervasive::strictly_cloned(*self, r),
    {
        self.clone()
    }
}

/// The owned case for `String`: the value itself, moved.
impl Cib<Self> for String {
    fn cib(self) -> (r: String)
        ensures
            r == self,
    {
        self
    }
}

/// A string slice becomes a newly allocated `String` with the same characters.
impl<'a> Cib<String> for &'a str {
    fn cib(self) -> (r: String)
        ensures
            r@ == self@,
    {
        self.to_string()
    }
}

} // verus!
