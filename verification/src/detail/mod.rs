//! Implementation details for generators: the side-channel slot, the
//! resumption token, the scheduling-context carrier and the driver.

pub mod token;
pub mod waker;
pub mod wrapper;

use vstd::prelude::*;

verus! {

/// The side-channel slot: a tri-state cell used to pass a yielded value
/// out of a generator and a resume argument in, across a suspension
/// boundary whose native protocol carries no payload. At most one of a
/// pending yielded value or a pending resume argument is stored at any
/// time; a take operation is destructive.
pub enum GeneratorArg<Y, A> {
    /// A yielded value waiting to be handed to the caller.
    Yield(Y),
    /// A resume argument waiting to be handed to the generator body.
    Arg(A),
    /// Nothing is pending.
    Empty,
}

impl<Y, A> GeneratorArg<Y, A> {
    /// Takes the pending yielded value out of the slot. A pending
    /// argument (or an empty slot) is left untouched.
    pub fn take_yield(&mut self) -> (r: Option<Y>)
        ensures
            *old(self) matches GeneratorArg::Yield(v) ==> r == Some(v) && *final(self) is Empty,
            !(*old(self) is Yield) ==> r is None && *final(self) == *old(self),
    {
        let mut taken = GeneratorArg::Empty;
        core::mem::swap(self, &mut taken);
        match taken {
            GeneratorArg::Yield(val) => Some(val),
            GeneratorArg::Arg(arg) => {
                *self = GeneratorArg::Arg(arg);
                None
            }
            GeneratorArg::Empty => None,
        }
    }

    /// Takes the pending resume argument out of the slot. A pending
    /// yielded value (or an empty slot) is left untouched.
    pub fn take_arg(&mut self) -> (r: Option<A>)
        ensures
            *old(self) matches GeneratorArg::Arg(a) ==> r == Some(a) && *final(self) is Empty,
            !(*old(self) is Arg) ==> r is None && *final(self) == *old(self),
    {
        let mut taken = GeneratorArg::Empty;
        core::mem::swap(self, &mut taken);
        match taken {
            GeneratorArg::Arg(arg) => Some(arg),
            GeneratorArg::Yield(val) => {
                *self = GeneratorArg::Yield(val);
                None
            }
            GeneratorArg::Empty => None,
        }
    }
}

} // verus!
