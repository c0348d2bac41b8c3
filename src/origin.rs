//! Who is making a call.
use vstd::prelude::*;

verus! {

/// The authenticated origin of an operation: the privileged root, or one signed account.
#[derive(Debug, Clone, Copy, PartialEq, Eq)]
pub enum Origin {
    Root,
    Signed(u64),
}

impl Origin {
    pub fn root() -> (r: Origin)
        ensures
            r == Origin::Root,
    {
        Origin::Root
    }

    pub fn signed(who: u64) -> (r: Origin)
        ensures
            r == Origin::Signed(who),
    {
        Origin::Signed(who)
    }
}

} // verus!
