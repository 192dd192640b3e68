//! The single-occupancy holder of the worker's handle.

use crate::error::SupervisorError;
use vstd::prelude::*;

verus! {

/// Holds at most one live worker handle.
///
/// A slot is free, reserved for a start that is spawning, or occupied.
/// Besides that the slot keeps three ghost counters: how many spawn outcomes
/// were recorded in it, how many handles a successful spawn has put into it,
/// and how many have been taken out again. The difference of the last two is
/// the number of handles the slot holds, and the slot's invariant
/// [`ProcessSlot::wf`] ties it to the occupancy, so it is 0 or 1 at every
/// point. Every slot that executable code can reach is well formed.
pub struct ProcessSlot<H> {
    occupant: Option<H>,
    starting: bool,
    attempts: Ghost<nat>,
    spawned: Ghost<nat>,
    released: Ghost<nat>,
}

impl<H> View for ProcessSlot<H> {
    type V = Option<H>;

    closed spec fn view(&self) -> Option<H> {
        self.occupant
    }
}

impl<H> ProcessSlot<H> {
    /// The slot's invariant: every handle that was put in and not taken out
    /// again is the one occupant, every handle put in came from a recorded
    /// spawn, and a reserved slot holds no handle.
    pub open spec fn wf(self) -> bool {
        &&& self.spawned() == self.released() + (if self@ is Some { 1nat } else { 0nat })
        &&& self.spawned() <= self.attempts()
        &&& self.starting() ==> self@ is None
    }

    /// Well-formedness, held as the invariant of the type.
    #[verifier::type_invariant]
    pub open spec fn inv(self) -> bool {
        self.wf()
    }

    /// Whether a start holds the slot reserved while it spawns.
    pub closed spec fn starting(self) -> bool {
        self.starting
    }

    /// How many spawn outcomes were recorded in this slot.
    pub closed spec fn attempts(self) -> nat {
        self.attempts@
    }

    /// How many workers a successful spawn has placed in this slot so far.
    /// While the slot is occupied this is also the occupant's ordinal.
    pub closed spec fn spawned(self) -> nat {
        self.spawned@
    }

    /// How many handles have been taken out of this slot so far.
    pub closed spec fn released(self) -> nat {
        self.released@
    }

    /// How many handles the slot holds.
    pub open spec fn held(self) -> int {
        self.spawned() - self.released()
    }

    /// Whether a start may have the slot: it is neither occupied nor reserved.
    pub open spec fn free(self) -> bool {
        self@ is None && !self.starting()
    }

    /// What taking the occupant out does: the slot holds no handle
    /// afterwards, the occupant counts as released, a reservation stays.
    pub open spec fn taken(pre: Self, post: Self) -> bool {
        &&& post@ is None
        &&& post.starting() == pre.starting()
        &&& post.attempts() == pre.attempts()
        &&& post.spawned() == pre.spawned()
        &&& post.released() == pre.released() + (if pre@ is Some { 1nat } else { 0nat })
    }

    /// What asking for the slot does: a free slot becomes reserved, any other
    /// slot answers `AlreadyRunning` and stays as it was.
    pub open spec fn reserved(pre: Self, post: Self, res: Result<(), SupervisorError>) -> bool {
        if pre.free() {
            &&& res is Ok
            &&& post.starting()
            &&& post@ is None
            &&& post.attempts() == pre.attempts()
            &&& post.spawned() == pre.spawned()
            &&& post.released() == pre.released()
        } else {
            &&& res == Err::<(), SupervisorError>(SupervisorError::AlreadyRunning)
            &&& post == pre
        }
    }

    /// What recording a spawn outcome does: the reservation ends; a new
    /// handle is stored in a slot that holds none, and its channel end handed
    /// out; a failed spawn leaves the slot's holdings as they were and
    /// reports the reason. A handle that finds the slot occupied is not
    /// stored, and the answer is `AlreadyRunning`.
    pub open spec fn settled<R>(
        pre: Self,
        outcome: Result<(H, R), String>,
        post: Self,
        res: Result<R, SupervisorError>,
    ) -> bool {
        &&& post.attempts() == pre.attempts() + 1
        &&& post.released() == pre.released()
        &&& !post.starting()
        &&& match outcome {
            Ok((handle, channel)) => {
                if pre@ is None {
                    &&& post@ == Some(handle)
                    &&& post.spawned() == pre.spawned() + 1
                    &&& res == Ok::<R, SupervisorError>(channel)
                } else {
                    &&& post@ == pre@
                    &&& post.spawned() == pre.spawned()
                    &&& res == Err::<R, SupervisorError>(SupervisorError::AlreadyRunning)
                }
            },
            Err(reason) => {
                &&& post@ == pre@
                &&& post.spawned() == pre.spawned()
                &&& res == Err::<R, SupervisorError>(SupervisorError::SpawnFailed(reason))
            },
        }
    }

    /// An empty slot.
    pub fn new() -> (slot: Self)
        ensures
            slot.wf(),
            slot.free(),
            slot.attempts() == 0,
            slot.spawned() == 0,
            slot.released() == 0,
    {
        ProcessSlot {
            occupant: None,
            starting: false,
            attempts: Ghost(0),
            spawned: Ghost(0),
            released: Ghost(0),
        }
    }

    /// Whether a worker handle is held.
    pub fn is_occupied(&self) -> (occupied: bool)
        ensures
            occupied == (self@ is Some),
    {
        self.occupant.is_some()
    }

    /// Removes and returns the occupant, if any.
    pub fn take(&mut self) -> (taken: Option<H>)
        ensures
            final(self).wf(),
            taken == old(self)@,
            Self::taken(*old(self), *final(self)),
            old(self)@ is None ==> *final(self) == *old(self),
    {
        proof {
            use_type_invariant(&*self);
        }
        let ghost left = if self.occupant is Some { 1nat } else { 0nat };
        let mut emptied = ProcessSlot {
            occupant: None,
            starting: self.starting,
            attempts: Ghost(self.attempts@),
            spawned: Ghost(self.spawned@),
            released: Ghost(self.released@ + left),
        };
        core::mem::swap(self, &mut emptied);
        emptied.occupant
    }

    /// Asks for the slot on behalf of a start that is about to spawn.
    pub fn reserve(&mut self) -> (res: Result<(), SupervisorError>)
        ensures
            final(self).wf(),
            Self::reserved(*old(self), *final(self), res),
    {
        proof {
            use_type_invariant(&*self);
        }
        if self.occupant.is_some() || self.starting {
            return Err(SupervisorError::AlreadyRunning);
        }
        *self = ProcessSlot {
            occupant: None,
            starting: true,
            attempts: Ghost(self.attempts@),
            spawned: Ghost(self.spawned@),
            released: Ghost(self.released@),
        };
        Ok(())
    }

    /// Records the outcome of a spawn and ends the reservation made for it.
    pub fn settle<R>(&mut self, outcome: Result<(H, R), String>) -> (res: Result<
        R,
        SupervisorError,
    >)
        ensures
            final(self).wf(),
            Self::settled(*old(self), outcome, *final(self), res),
    {
        proof {
            use_type_invariant(&*self);
        }
        let mut kept = ProcessSlot {
            occupant: None,
            starting: false,
            attempts: Ghost(self.attempts@ + 1),
            spawned: Ghost(self.released@),
            released: Ghost(self.released@),
        };
        core::mem::swap(self, &mut kept);
        let ghost counted = kept.spawned@;
        match outcome {
            Ok((handle, channel)) => {
                match kept.occupant {
                    None => {
                        *self = ProcessSlot {
                            occupant: Some(handle),
                            starting: false,
                            attempts: Ghost(self.attempts@),
                            spawned: Ghost(counted + 1),
                            released: Ghost(self.released@),
                        };
                        Ok(channel)
                    },
                    Some(earlier) => {
                        *self = ProcessSlot {
                            occupant: Some(earlier),
                            starting: false,
                            attempts: Ghost(self.attempts@),
                            spawned: Ghost(counted),
                            released: Ghost(self.released@),
                        };
                        Err(SupervisorError::AlreadyRunning)
                    },
                }
            },
            Err(reason) => {
                *self = ProcessSlot {
                    occupant: kept.occupant,
                    starting: false,
                    attempts: Ghost(self.attempts@),
                    spawned: Ghost(counted),
                    released: Ghost(self.released@),
                };
                Err(SupervisorError::SpawnFailed(reason))
            },
        }
    }

    /// Starts a worker unless one is held or being started already.
    ///
    /// A slot that is not free answers `AlreadyRunning` and is left as it
    /// was. On a free slot `spawn_fn` runs once, and its outcome is recorded
    /// as [`Self::settled`] says.
    pub fn try_start<R, F>(&mut self, spawn_fn: F) -> (res: Result<R, SupervisorError>) where
        F: FnOnce() -> Result<(H, R), String>,

        requires
            old(self).free() ==> call_requires(spawn_fn, ()),
        ensures
            final(self).wf(),
            !old(self).free() ==> *final(self) == *old(self) && res == Err::<R, SupervisorError>(
                SupervisorError::AlreadyRunning,
            ),
            old(self).free() ==> exists|outcome: Result<(H, R), String>|
                #[trigger] call_ensures(spawn_fn, (), outcome) && Self::settled(
                    *old(self),
                    outcome,
                    *final(self),
                    res,
                ),
    {
        match self.reserve() {
            Err(error) => Err(error),
            Ok(_) => {
                let outcome = spawn_fn();
                self.settle(outcome)
            },
        }
    }
}

impl<H> Default for ProcessSlot<H> {
    fn default() -> (slot: Self)
        ensures
            slot.wf(),
            slot.free(),
            slot.attempts() == 0,
            slot.spawned() == 0,
            slot.released() == 0,
    {
        ProcessSlot::new()
    }
}

/// The slot never holds more than one handle: the handles put in and not yet
/// taken out number one while the slot is occupied and none while it is empty.
pub proof fn single_occupancy<H>(slot: ProcessSlot<H>)
    requires
        slot.wf(),
    ensures
        slot.held() == (if slot@ is Some { 1int } else { 0int }),
        0 <= slot.held() <= 1,
{
}

} // verus!
