//! The scheduling-context carrier: constructed fresh for each drive
//! call, it transports the side-channel slot and the registered token
//! identity to every suspension point of the driven computation.

use vstd::prelude::*;

use crate::detail::token::TokenId;
use crate::detail::GeneratorArg;
use crate::protocol::GeneratorError;

verus! {

/// The scheduling context a generator is driven with. It holds whether
/// a real outer notifier is present (absent for the purely synchronous
/// drive, where driving is always immediate), the side-channel slot,
/// and the identity of the token registered for this generator
/// execution (invalid until registration).
///
/// A carrier belongs to a single drive call: the driver builds it
/// immediately before driving and takes it apart immediately after, so
/// a stale carrier never outlives the drive that created it.
pub struct GeneratorWaker<Y, A> {
    /// Whether a real outer notifier backs this context. With none,
    /// a suspension can only mean a generator yield.
    pub has_waker: bool,
    /// The identity registered for this generator execution, or the
    /// invalid identity if no token has been registered yet.
    pub id: TokenId,
    /// The side-channel slot.
    pub arg: GeneratorArg<Y, A>,
}

impl<Y, A> GeneratorWaker<Y, A> {
    /// Builds a carrier for one drive call.
    pub fn new(has_waker: bool, arg: GeneratorArg<Y, A>, id: TokenId) -> (r: Self)
        ensures
            r == (GeneratorWaker { has_waker, id, arg }),
    {
        GeneratorWaker { has_waker, id, arg }
    }

    /// Whether `id` is the identity registered in this context.
    pub fn id_matches(&self, id: TokenId) -> (r: bool)
        ensures
            r == (self.id == id),
    {
        self.id == id
    }

    /// Records the identity of the token registered for this generator
    /// execution. Fails if and only if a token is already registered,
    /// leaving the context unchanged; double registration is a
    /// programming error.
    pub fn set_id(&mut self, id: TokenId) -> (r: Result<(), GeneratorError>)
        ensures
            old(self).id.spec_valid() ==> r == Err::<(), GeneratorError>(
                GeneratorError::AlreadyRegistered,
            ) && *final(self) == *old(self),
            !old(self).id.spec_valid() ==> r == Ok::<(), GeneratorError>(()) && *final(self)
                == (GeneratorWaker { has_waker: old(self).has_waker, id, arg: old(self).arg }),
    {
        if self.id.is_valid() {
            Err(GeneratorError::AlreadyRegistered)
        } else {
            self.id = id;
            Ok(())
        }
    }
}

} // verus!
