//! Whether the node is locked, unlocked or on the way from one to the other.

use vstd::prelude::*;

use crate::error::APIError;

verus! {

/// The state that every request looks at first.
#[derive(Clone, Copy, Debug, PartialEq, Eq, Structural)]
pub struct AppState {
    /// Whether the node is being locked, unlocked or stopped.
    pub changing_state: bool,
    /// Whether the node is unlocked.
    pub unlocked: bool,
    /// Whether the background services run.
    pub services_running: bool,
}

/// What a request gets that may run while the state does not change.
pub open spec fn change_check(s: AppState) -> Result<(), APIError> {
    if s.changing_state {
        Err(APIError::ChangingState)
    } else {
        Ok::<(), APIError>(())
    }
}

/// What a request gets that needs a locked node.
pub open spec fn locked_check(s: AppState) -> Result<(), APIError> {
    if s.changing_state {
        Err(APIError::ChangingState)
    } else if s.unlocked {
        Err(APIError::UnlockedNode)
    } else {
        Ok::<(), APIError>(())
    }
}

/// What a request gets that needs an unlocked node.
pub open spec fn unlocked_check(s: AppState) -> Result<(), APIError> {
    if s.changing_state {
        Err(APIError::ChangingState)
    } else if !s.unlocked {
        Err(APIError::LockedNode)
    } else {
        Ok::<(), APIError>(())
    }
}

impl AppState {
    /// A node that has just been started.
    pub fn new() -> (r: Self)
        ensures
            r == (AppState { changing_state: false, unlocked: false, services_running: false }),
    {
        AppState { changing_state: false, unlocked: false, services_running: false }
    }

    /// Refuses every request while the state changes.
    pub fn check_changing_state(&self) -> (r: Result<(), APIError>)
        ensures
            r == change_check(*self),
    {
        if self.changing_state {
            return Err(APIError::ChangingState);
        }
        Ok(())
    }

    /// Admits a request that needs a locked node.
    pub fn check_locked(&self) -> (r: Result<(), APIError>)
        ensures
            r == locked_check(*self),
    {
        self.check_changing_state()?;
        if self.unlocked {
            Err(APIError::UnlockedNode)
        } else {
            Ok(())
        }
    }

    /// Admits a request that needs an unlocked node.
    pub fn check_unlocked(&self) -> (r: Result<(), APIError>)
        ensures
            r == unlocked_check(*self),
    {
        self.check_changing_state()?;
        if !self.unlocked {
            Err(APIError::LockedNode)
        } else {
            Ok(())
        }
    }

    /// Starts or ends a change of state.
    pub fn update_changing_state(&mut self, updated: bool)
        ensures
            *final(self) == (AppState { changing_state: updated, ..*old(self) }),
    {
        self.changing_state = updated;
    }

    /// Records whether the background services run.
    pub fn update_ldk_background_services(&mut self, running: bool)
        ensures
            *final(self) == (AppState { services_running: running, ..*old(self) }),
    {
        self.services_running = running;
    }

    /// Records whether the node is unlocked.
    pub fn update_unlocked_app_state(&mut self, unlocked: bool)
        ensures
            *final(self) == (AppState { unlocked, ..*old(self) }),
    {
        self.unlocked = unlocked;
    }
}

/// Outside a change of state a request for a locked node and one for an unlocked node are never both
/// admitted, and never both refused; during a change both are refused.
pub proof fn law_locked_and_unlocked_exclude_each_other(s: AppState)
    ensures
        s.changing_state ==> !admits_locked(s) && !admits_unlocked(s),
        !s.changing_state ==> (admits_locked(s) <==> !admits_unlocked(s)),
{
}

/// Whether a request that needs a locked node is admitted.
pub open spec fn admits_locked(s: AppState) -> bool {
    !s.changing_state && !s.unlocked
}

/// Whether a request that needs an unlocked node is admitted.
pub open spec fn admits_unlocked(s: AppState) -> bool {
    !s.changing_state && s.unlocked
}

/// Every request is refused while the state changes, and says so; outside a change exactly one of a
/// request for a locked and one for an unlocked node is let through, and the other is told which state
/// the node is in.
pub proof fn law_requests_meet_the_state(s: AppState)
    ensures
        s.changing_state <==> change_check(s) is Err,
        s.changing_state ==> locked_check(s) == Err::<(), APIError>(APIError::ChangingState)
            && unlocked_check(s) == Err::<(), APIError>(APIError::ChangingState) && change_check(s)
            == Err::<(), APIError>(APIError::ChangingState),
        locked_check(s) is Ok <==> !s.changing_state && !s.unlocked,
        unlocked_check(s) is Ok <==> !s.changing_state && s.unlocked,
        !s.changing_state && s.unlocked ==> locked_check(s) == Err::<(), APIError>(
            APIError::UnlockedNode,
        ),
        !s.changing_state && !s.unlocked ==> unlocked_check(s) == Err::<(), APIError>(
            APIError::LockedNode,
        ),
        admits_locked(s) <==> locked_check(s) is Ok,
        admits_unlocked(s) <==> unlocked_check(s) is Ok,
{
}

} // verus!
