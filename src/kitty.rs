//! The entity record and its derived gender.

use vstd::prelude::*;

verus! {

/// The gender of a kitty, read off the parity of its first attribute byte.
#[derive(Clone, Copy, Debug, PartialEq, Eq, Structural)]
pub enum KittyGender {
    Male,
    Female,
}

/// A kitty: an immutable 16-byte attribute vector.
#[derive(Clone, Copy, Debug, PartialEq, Eq)]
pub struct Kitty(pub [u8; 16]);

impl Kitty {
    /// The gender that the attribute vector determines: `Male` when byte 0
    /// is even, `Female` when it is odd.
    pub open spec fn spec_gender(self) -> KittyGender {
        if self.0@[0] % 2 == 0 {
            KittyGender::Male
        } else {
            KittyGender::Female
        }
    }

    pub fn gender(&self) -> (r: KittyGender)
        ensures
            r == self.spec_gender(),
            (r == KittyGender::Male) <==> self.0@[0] % 2 == 0,
            (r == KittyGender::Female) <==> self.0@[0] % 2 == 1,
    {
        if self.0[0] % 2 == 0 {
            KittyGender::Male
        } else {
            KittyGender::Female
        }
    }
}

} // verus!
