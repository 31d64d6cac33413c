//! Whether a declaration carries `!important`.

use vstd::prelude::*;

verus! {

/// A declaration [importance][importance].
///
/// [importance]: https://drafts.csswg.org/css-cascade/#importance
#[derive(Clone, Copy, Debug, PartialEq, Eq, Hash, Structural)]
pub enum Importance {
    /// Indicates a declaration without `!important`.
    Normal,
    /// Indicates a declaration with `!important`.
    Important,
}

impl Importance {
    /// The flag as a boolean: `true` exactly for [`Importance::Important`].
    pub open spec fn is_important(self) -> bool {
        self is Important
    }

    /// The importance that a boolean flag stands for.
    pub open spec fn of(important: bool) -> Importance {
        if important {
            Importance::Important
        } else {
            Importance::Normal
        }
    }

    /// Return whether this is an important declaration.
    #[verifier::when_used_as_spec(is_important)]
    pub fn important(self) -> (flag: bool)
        ensures
            flag == self.is_important(),
    {
        match self {
            Importance::Normal => false,
            Importance::Important => true,
        }
    }

    /// The importance that a boolean flag stands for: the inverse of [`Importance::important`].
    pub fn from_flag(important: bool) -> (importance: Importance)
        ensures
            importance == Importance::of(important),
            importance.is_important() == important,
    {
        if important {
            Importance::Important
        } else {
            Importance::Normal
        }
    }
}

} // verus!
