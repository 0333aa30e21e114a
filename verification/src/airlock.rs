//! The handle through which request handlers reach an assembled hatch.

use std::sync::Arc;
use vstd::prelude::*;

use crate::assembly::{Assembly, HatchBuilder, Stage};
use crate::hatch::Hatch;
use crate::outcome::Outcome;

verus! {

/// The security airlock is the entry point to a rocket. Everything from the
/// outside environment that wants to enter a rocket needs to go through its
/// hatches and pass all their security checks.
///
/// An airlock holds a shared handle to one hatch. A hatch is let into an
/// airlock only with its communicator attached, and it is never changed
/// afterwards.
pub struct Airlock<H: Hatch> {
    hatch: Arc<H>,
}

/// `Arc::clone`: a second handle to the value that `handle` points to.
#[verifier::external_body]
fn share<H>(handle: &Arc<H>) -> (shared: Arc<H>)
    ensures
        shared == *handle,
{
    Arc::clone(handle)
}

impl<H: Hatch> Airlock<H> {
    #[verifier::type_invariant]
    spec fn connected(&self) -> bool {
        self.hatch.attached() is Some
    }

    /// The hatch that stands in the airlock.
    pub closed spec fn installed(&self) -> H {
        *self.hatch
    }

    /// The hatch that stands in the airlock. Its communicator is attached.
    pub fn hatch(&self) -> (hatch: &H)
        ensures
            *hatch == self.installed(),
            hatch.attached() is Some,
    {
        proof {
            use_type_invariant(self);
        }
        &*self.hatch
    }

    /// The assembly of a hatch of which nothing is at hand: the hatch and its
    /// communicator are both derived from the server's configuration.
    pub fn fairing() -> (assembly: Assembly<H>)
        ensures
            assembly.stage() == (Stage::<H>::NeedsHatch { comm: None }),
    {
        HatchBuilder::from().build()
    }

    /// The assembly of a hatch around a communicator that is at hand: the
    /// hatch is derived from the server's configuration, and `comm` is
    /// attached to it as it is.
    pub fn fairing_with_comm(comm: H::Comm) -> (assembly: Assembly<H>)
        ensures
            assembly.stage() == (Stage::<H>::NeedsHatch { comm: Some(comm) }),
    {
        HatchBuilder::from().with_comm(comm).build()
    }

    /// The assembly of a hatch that is at hand whole: `hatch` comes with its
    /// communicator attached and is installed as it is. Nothing is built,
    /// and nothing is attached to it.
    pub fn fairing_custom(hatch: H) -> (assembly: Assembly<H>)
        requires
            hatch.attached() is Some,
        ensures
            assembly.stage() == (Stage::<H>::Ready { hatch }),
    {
        Assembly::whole(hatch)
    }

    /// Lets a hatch into a new airlock, behind a shared handle.
    pub(crate) fn finish_setup(hatch: H) -> (airlock: Airlock<H>)
        requires
            hatch.attached() is Some,
        ensures
            airlock.installed() == hatch,
    {
        Airlock { hatch: Arc::new(hatch) }
    }

    /// What a handler that asks for the airlock gets, given what the server
    /// holds: a handle of its own where an airlock is installed, and the
    /// server's refusal as it is where none is.
    pub fn from_request<E, F>(managed: Outcome<&Airlock<H>, E, F>) -> (outcome: Outcome<
        Airlock<H>,
        E,
        F,
    >)
        ensures
            match managed {
                Outcome::Success(airlock) => outcome matches Outcome::Success(handle)
                    && handle.installed() == airlock.installed(),
                Outcome::Error(e) => outcome == Outcome::<Airlock<H>, E, F>::Error(e),
                Outcome::Forward(f) => outcome == Outcome::<Airlock<H>, E, F>::Forward(f),
            },
    {
        match managed {
            Outcome::Success(airlock) => {
                proof {
                    use_type_invariant(airlock);
                }
                Outcome::Success(Airlock { hatch: share(&airlock.hatch) })
            },
            Outcome::Error(e) => Outcome::Error(e),
            Outcome::Forward(f) => Outcome::Forward(f),
        }
    }
}

} // verus!
