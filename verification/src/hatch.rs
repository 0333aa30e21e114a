//! The two capabilities that an authentication strategy is made of.

use std::convert::Infallible;
use vstd::prelude::*;

verus! {

/// Whenever a hatch needs to cross-check information with or needs to ask for
/// permission at mission control, it uses the communicator to contact and
/// speak with it.
///
/// A communicator is built once, when the server starts, and is never changed
/// afterwards: the requests that are handled at one time share it. It is
/// reached through the hatch that owns it and through nothing else.
pub trait Communicator: Send + Sync + Sized {
    /// Why a communicator of this kind may fail to be built.
    type Error;
}

/// The communicator of a hatch that has nobody to talk to. It cannot fail to
/// be built.
impl Communicator for () {
    type Error = Infallible;
}

/// A hatch isolates the airlock from the outside environment and only grants
/// entry after all its security checks are passed. Otherwise it remains shut
/// and denies access.
///
/// The three specification functions say what a hatch is to the contracts of
/// this crate: which communicator it holds, what attaching one makes of it,
/// and how it is called. A hatch that is verified defines them. For a hatch
/// that is not, they stay undefined, and its methods are taken at their word.
pub trait Hatch: Send + Sync + Sized {
    /// What the hatch uses to speak with its mission control. A hatch that
    /// does not need to be chatty uses `()`.
    type Comm: Communicator;

    /// Why a hatch of this kind may fail to be built from the configuration.
    type Error;

    /// The communicator that is attached to the hatch, if one is.
    open spec fn attached(&self) -> Option<Self::Comm> {
        arbitrary()
    }

    /// The hatch as it is once `comm` has been attached to it.
    open spec fn connected_to(self, comm: Self::Comm) -> Self {
        arbitrary()
    }

    /// The name of the hatch, as a sequence of characters.
    open spec fn identifier() -> Seq<char> {
        arbitrary()
    }

    /// Whether a communicator is attached to the hatch. A hatch that needs
    /// none, and uses `()`, always has one.
    fn is_connected(&self) -> (connected: bool)
        ensures
            connected == (self.attached() is Some),
    ;

    /// This is like an intercom: call the function and use the communicator
    /// to speak to mission control. A hatch has no intercom before a
    /// communicator has been attached to it.
    fn comm(&self) -> (comm: &Self::Comm)
        requires
            self.attached() is Some,
        ensures
            self.attached() == Some(*comm),
    ;

    /// Attaches a communicator to the hatch, which keeps it for all its
    /// communications with mission control.
    fn connect_comm(&mut self, comm: Self::Comm)
        ensures
            *final(self) == old(self).connected_to(comm),
            final(self).attached() == Some(comm),
    ;

    /// Name of the hatch. It picks the hatch's section of the configuration
    /// and stands in the messages about its installation.
    fn name() -> (name: &'static str)
        ensures
            name@ == Self::identifier(),
    ;
}

} // verus!
