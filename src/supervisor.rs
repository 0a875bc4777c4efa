use vstd::prelude::*;

use crate::controller::ChildStatus;

verus! {

/// The ways in which playback control fails.
#[derive(Debug)]
pub enum PlayerError {
    /// The engine could not be started; `cause` says why.
    LaunchFailed { cause: String },
    /// The terminal could not be put into raw mode or back.
    TerminalModeFailed,
    /// Waiting for a key press failed.
    PollFailed,
}

/// Owner of the one playback child, if any.
///
/// The slot goes from empty to running by `start`, and back to empty by
/// `release`, which hands the child out to be terminated and reaped. A seek
/// replaces the child by `release`, then `start` with the new child, so that
/// the old child is gone before the new one is held.
pub struct Supervisor<C> {
    slot: Option<C>,
}

/// The slot after `start` with the outcome of a spawn.
pub open spec fn started<C>(spawned: Result<C, String>) -> Option<C> {
    match spawned {
        Ok(c) => Some(c),
        Err(_) => None,
    }
}

impl<C> Supervisor<C> {
    /// The child held, if any.
    pub closed spec fn held(&self) -> Option<C> {
        self.slot
    }

    /// How many children are held: never more than one.
    pub open spec fn running_count(&self) -> nat {
        if self.held() is Some {
            1
        } else {
            0
        }
    }

    /// A supervisor that holds no child.
    pub fn new() -> (s: Supervisor<C>)
        ensures
            s.held() is None,
    {
        Supervisor { slot: None }
    }

    /// Whether a child is held.
    pub fn is_running(&self) -> (r: bool)
        ensures
            r == self.held() is Some,
    {
        self.slot.is_some()
    }

    /// Takes the outcome of spawning a child into the empty slot: the child on
    /// success, else a launch failure with the spawn's cause.
    pub fn start(&mut self, spawned: Result<C, String>) -> (r: Result<(), PlayerError>)
        requires
            old(self).held() is None,
        ensures
            final(self).held() == started(spawned),
            r is Ok <==> spawned is Ok,
            spawned matches Err(cause) ==> r matches Err(PlayerError::LaunchFailed { cause: c })
                && c == cause,
    {
        match spawned {
            Ok(c) => {
                self.slot = Some(c);
                Ok(())
            },
            Err(cause) => Err(PlayerError::LaunchFailed { cause }),
        }
    }

    /// Hands out the child, if any, leaving the slot empty.
    pub fn release(&mut self) -> (r: Option<C>)
        ensures
            r == old(self).held(),
            final(self).held() is None,
    {
        self.slot.take()
    }

    /// Records what a look at the child found: a child that has exited is
    /// handed out and no longer held; a running one stays.
    pub fn observe(&mut self, status: ChildStatus) -> (r: Option<C>)
        ensures
            status == ChildStatus::Running ==> final(self).held() == old(self).held() && r is None,
            status is Exited ==> final(self).held() is None && r == old(self).held(),
    {
        match status {
            ChildStatus::Running => None,
            ChildStatus::Exited(_) => self.slot.take(),
        }
    }

    /// Lends the child, if any, to be looked at or signalled.
    pub fn child_mut(&mut self) -> (r: Option<&mut C>)
        ensures
            r is Some <==> old(self).held() is Some,
            r matches Some(c) ==> Some(*c) == old(self).held() && final(self).held() == Some(
                *final(c),
            ),
            r is None ==> final(self).held() is None,
    {
        self.slot.as_mut()
    }
}

/// Replacing the child, by handing the old one out and then taking the
/// outcome of a new spawn, leaves exactly one child held when the spawn
/// succeeded and none when it failed.
pub proof fn lemma_replace_leaves_one_or_none<C>(
    released: Supervisor<C>,
    after: Supervisor<C>,
    spawned: Result<C, String>,
)
    requires
        released.held() is None,
        after.held() == started(spawned),
    ensures
        spawned is Ok ==> after.running_count() == 1,
        spawned is Err ==> after.running_count() == 0,
{
}

} // verus!
