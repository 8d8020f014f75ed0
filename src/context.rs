use vstd::prelude::*;

verus! {

/// Identity of one native solver environment.
///
/// Two handles denote the same environment exactly when their identities are equal;
/// the environment itself lives on the native side.
#[derive(Clone, Copy, PartialEq, Eq, Structural, Debug)]
pub struct Context {
    pub id: u64,
}

impl Context {
    /// Whether `self` and `other` denote the same environment.
    pub fn same_as(&self, other: &Context) -> (r: bool)
        ensures
            r == (self == other),
    {
        self.id == other.id
    }
}

} // verus!
