//! How a hatch is put together before the server starts.
//!
//! A hatch is assembled in two phases. In the first the hatch itself is built
//! from the server's configuration; in the second its communicator is built,
//! which may take a visit to a remote service. Either part may be at hand
//! already, and is then taken as it is. Once both are there the communicator
//! is attached to the hatch, and the hatch is let into its airlock. A hatch
//! that is at hand whole, with its communicator attached, is let in as it
//! is.
//!
//! The building is done by the caller. An [`Assembly`] says what is to be
//! built next, and takes what came of it.

use vstd::prelude::*;

use crate::airlock::Airlock;
use crate::hatch::{Communicator, Hatch};

verus! {

/// Why a hatch was not assembled.
pub enum AssemblyError<H: Hatch> {
    /// The hatch could not be built from the server's configuration.
    Config(H::Error),
    /// The communicator could not be built: the service it speaks to failed
    /// or could not be reached.
    Communicator(<H::Comm as Communicator>::Error),
    /// The assembly was ended before its parts were there.
    Incomplete,
}

/// How far the assembly of a hatch has come.
pub enum Stage<H: Hatch> {
    /// The hatch is to be built. `comm` is the communicator that is at hand.
    NeedsHatch { comm: Option<H::Comm> },
    /// The hatch stands, and its communicator is to be built.
    NeedsComm { hatch: H },
    /// The hatch stands with its communicator attached.
    Ready { hatch: H },
    /// A part could not be built, and no hatch will be installed.
    Failed { error: AssemblyError<H> },
}

impl<H: Hatch> Stage<H> {
    /// The stage at which a hatch arrives that brings `comm` along, if any.
    pub open spec fn with_hatch(hatch: H, comm: Option<H::Comm>) -> Stage<H> {
        match comm {
            Some(comm) => Stage::Ready { hatch: hatch.connected_to(comm) },
            None => Stage::NeedsComm { hatch },
        }
    }

    /// The stage after the caller has tried to build the hatch.
    pub open spec fn hatch_built(self, built: Result<H, H::Error>) -> Stage<H> {
        match self {
            Stage::NeedsHatch { comm } => match built {
                Ok(hatch) => Self::with_hatch(hatch, comm),
                Err(error) => Stage::Failed { error: AssemblyError::Config(error) },
            },
            _ => self,
        }
    }

    /// The stage after the caller has tried to build the communicator.
    pub open spec fn comm_built(
        self,
        built: Result<H::Comm, <H::Comm as Communicator>::Error>,
    ) -> Stage<H> {
        match self {
            Stage::NeedsComm { hatch } => match built {
                Ok(comm) => Stage::Ready { hatch: hatch.connected_to(comm) },
                Err(error) => Stage::Failed { error: AssemblyError::Communicator(error) },
            },
            _ => self,
        }
    }

    /// Whether every hatch that the stage calls ready has its communicator.
    pub open spec fn sound(self) -> bool {
        self matches Stage::Ready { hatch } ==> hatch.attached() is Some
    }

    /// Whether the hatch is ready and holds this very communicator.
    pub open spec fn ready_with(self, comm: H::Comm) -> bool {
        self matches Stage::Ready { hatch } && hatch.attached() == Some(comm)
    }
}

/// What the caller is to do next for an assembly.
#[derive(Clone, Copy, Debug, PartialEq, Eq, Structural)]
pub enum Pending {
    /// Build the hatch from the server's configuration.
    Hatch,
    /// Build the communicator.
    Comm,
    /// Nothing is left to build: end the assembly.
    Nothing,
}

/// The parts of a hatch that are at hand before its assembly begins.
pub struct HatchBuilder<H: Hatch> {
    pub comm: Option<H::Comm>,
    pub hatch: Option<H>,
}

impl<H: Hatch> HatchBuilder<H> {
    /// The stage at which the assembly begins. A part that is at hand is used
    /// in place of one derived from the configuration.
    pub open spec fn first_stage(self) -> Stage<H> {
        match self.hatch {
            Some(hatch) => Stage::with_hatch(hatch, self.comm),
            None => Stage::NeedsHatch { comm: self.comm },
        }
    }

    /// A builder with nothing at hand.
    pub fn from() -> (builder: Self)
        ensures
            builder.comm is None,
            builder.hatch is None,
    {
        HatchBuilder { comm: None, hatch: None }
    }

    /// Hands the builder a hatch that is built already.
    pub fn with_hatch(self, hatch: H) -> (builder: Self)
        ensures
            builder.hatch == Some(hatch),
            builder.comm == self.comm,
    {
        let mut builder = self;
        builder.hatch = Some(hatch);
        builder
    }

    /// Hands the builder a communicator that is built already.
    pub fn with_comm(self, comm: H::Comm) -> (builder: Self)
        ensures
            builder.comm == Some(comm),
            builder.hatch == self.hatch,
    {
        let mut builder = self;
        builder.comm = Some(comm);
        builder
    }

    /// Begins the assembly with what is at hand.
    pub fn build(self) -> (assembly: Assembly<H>)
        ensures
            assembly.stage() == self.first_stage(),
            assembly.stage().sound(),
            self.comm matches Some(comm) ==> (self.hatch is Some ==> assembly.stage().ready_with(
                comm,
            )),
    {
        match self.hatch {
            Some(hatch) => Assembly::arrive(hatch, self.comm),
            None => Assembly { stage: Stage::NeedsHatch { comm: self.comm } },
        }
    }
}

/// The assembly of one hatch, from the parts that are at hand to the airlock
/// that holds the hatch.
pub struct Assembly<H: Hatch> {
    stage: Stage<H>,
}

impl<H: Hatch> Assembly<H> {
    #[verifier::type_invariant]
    spec fn sound(&self) -> bool {
        self.stage.sound()
    }

    /// How far the assembly has come.
    pub closed spec fn stage(&self) -> Stage<H> {
        self.stage
    }

    /// The assembly of a hatch that needs nothing more: its communicator is
    /// attached already.
    pub(crate) fn whole(hatch: H) -> (assembly: Assembly<H>)
        requires
            hatch.attached() is Some,
        ensures
            assembly.stage() == (Stage::<H>::Ready { hatch }),
    {
        Assembly { stage: Stage::Ready { hatch } }
    }

    /// The assembly at the arrival of the hatch.
    fn arrive(hatch: H, comm: Option<H::Comm>) -> (assembly: Assembly<H>)
        ensures
            assembly.stage() == Stage::with_hatch(hatch, comm),
            comm matches Some(c) ==> assembly.stage().ready_with(c),
    {
        match comm {
            Some(comm) => {
                let mut hatch = hatch;
                hatch.connect_comm(comm);
                Assembly { stage: Stage::Ready { hatch } }
            },
            None => Assembly { stage: Stage::NeedsComm { hatch } },
        }
    }

    /// What the caller is to build next.
    pub fn pending(&self) -> (pending: Pending)
        ensures
            pending == match self.stage() {
                Stage::NeedsHatch { .. } => Pending::Hatch,
                Stage::NeedsComm { .. } => Pending::Comm,
                _ => Pending::Nothing,
            },
    {
        match &self.stage {
            Stage::NeedsHatch { .. } => Pending::Hatch,
            Stage::NeedsComm { .. } => Pending::Comm,
            _ => Pending::Nothing,
        }
    }

    /// Takes what came of building the hatch. A hatch that was built gets the
    /// communicator that is at hand, and then holds that very communicator,
    /// or waits for one to be built; a failure ends the assembly as a failure
    /// of the configuration. Out of turn, nothing changes.
    pub fn hatch_built(self, built: Result<H, H::Error>) -> (assembly: Assembly<H>)
        ensures
            assembly.stage() == self.stage().hatch_built(built),
            assembly.stage().sound(),
            self.stage() matches Stage::NeedsHatch { comm: Some(comm) } ==> (built is Ok
                ==> assembly.stage().ready_with(comm)),
    {
        proof {
            use_type_invariant(&self);
        }
        match self.stage {
            Stage::NeedsHatch { comm } => match built {
                Ok(hatch) => Assembly::arrive(hatch, comm),
                Err(error) => Assembly {
                    stage: Stage::Failed { error: AssemblyError::Config(error) },
                },
            },
            stage => Assembly { stage },
        }
    }

    /// Takes what came of building the communicator. One that was built is
    /// attached to the hatch, which then holds that very communicator; a
    /// failure ends the assembly as a failure of the communicator. Out of
    /// turn, nothing changes.
    pub fn comm_built(
        self,
        built: Result<H::Comm, <H::Comm as Communicator>::Error>,
    ) -> (assembly: Assembly<H>)
        ensures
            assembly.stage() == self.stage().comm_built(built),
            assembly.stage().sound(),
            built matches Ok(comm) ==> (self.stage() is NeedsComm ==> assembly.stage().ready_with(
                comm,
            )),
    {
        proof {
            use_type_invariant(&self);
        }
        match self.stage {
            Stage::NeedsComm { hatch } => match built {
                Ok(comm) => {
                    let mut hatch = hatch;
                    hatch.connect_comm(comm);
                    Assembly { stage: Stage::Ready { hatch } }
                },
                Err(error) => Assembly {
                    stage: Stage::Failed { error: AssemblyError::Communicator(error) },
                },
            },
            stage => Assembly { stage },
        }
    }

    /// Ends the assembly. The hatch is let into an airlock if and only if it
    /// stands with its communicator attached.
    pub fn finish(self) -> (airlock: Result<Airlock<H>, AssemblyError<H>>)
        ensures
            airlock is Ok <==> self.stage() is Ready,
            airlock matches Ok(a) ==> a.installed().attached() is Some,
            match self.stage() {
                Stage::Ready { hatch } => airlock matches Ok(a) && a.installed() == hatch,
                Stage::Failed { error } => airlock == Err::<Airlock<H>, AssemblyError<H>>(error),
                _ => airlock == Err::<Airlock<H>, AssemblyError<H>>(AssemblyError::Incomplete),
            },
    {
        proof {
            use_type_invariant(&self);
        }
        match self.stage {
            Stage::Ready { hatch } => Ok(Airlock::finish_setup(hatch)),
            Stage::Failed { error } => Err(error),
            _ => Err(AssemblyError::Incomplete),
        }
    }
}

/// An assembly that begins with nothing at hand ends with a hatch that is
/// ready for its airlock if and only if the hatch was built from the
/// configuration and the communicator was built after it. A fault of the
/// configuration ends it as such, whatever would have come of the
/// communicator; a communicator that cannot be built ends it as a failure of
/// the communicator.
pub proof fn law_assembly_needs_both<H: Hatch>(
    hatch: Result<H, H::Error>,
    comm: Result<H::Comm, <H::Comm as Communicator>::Error>,
)
    ensures
        ({
            let nothing = HatchBuilder::<H> { comm: None, hatch: None };
            let end = nothing.first_stage().hatch_built(hatch).comm_built(comm);
            &&& end is Ready <==> hatch is Ok && comm is Ok
            &&& end is Ready ==> end == Stage::<H>::Ready {
                hatch: hatch->Ok_0.connected_to(comm->Ok_0),
            }
            &&& hatch is Err ==> end == Stage::<H>::Failed {
                error: AssemblyError::Config(hatch->Err_0),
            }
            &&& hatch is Ok && comm is Err ==> end == Stage::<H>::Failed {
                error: AssemblyError::Communicator(comm->Err_0),
            }
        }),
{
}

/// A part that is at hand is used, and is not built: with a communicator at
/// hand the assembly never asks for one, and with a hatch at hand it never
/// asks for the hatch.
pub proof fn law_parts_at_hand_are_used<H: Hatch>(
    builder: HatchBuilder<H>,
    hatch: Result<H, H::Error>,
)
    ensures
        builder.hatch is Some ==> !(builder.first_stage() is NeedsHatch),
        builder.comm is Some ==> !(builder.first_stage() is NeedsComm),
        builder.comm is Some ==> !(builder.first_stage().hatch_built(hatch) is NeedsComm),
        builder.hatch matches Some(h) ==> builder.first_stage() == Stage::with_hatch(
            h,
            builder.comm,
        ),
{
}

} // verus!
