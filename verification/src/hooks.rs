//! The state that the handlers share, and the handlers themselves: what a
//! key press, a new client, a closed client or a refresh asks of the policy.
//!
//! All of it lives in one [`PolicyState`] that is handed to every handler.
//! Handlers run one at a time, on the thread of the event loop.
//!
//! The refresh hook may ask for a refresh, and a refresh runs the refresh
//! hook. To keep the two from calling each other for ever, the hook asks for
//! at most one refresh per event: while the refresh that it asked for is
//! running, the hook does nothing, whichever handler called it.

use crate::error::PolicyError;
use crate::registry::ScratchpadSet;
use crate::sticky::{reconcile, reconciled, toggled, StickySet};
use penrose::pure::StackSet;
use penrose::Xid;
use vstd::prelude::*;

verus! {

/// The scratchpads and, once it was added, the set of sticky clients.
#[derive(Debug)]
pub struct PolicyState {
    /// The set of sticky clients; `None` until it is added.
    pub sticky: Option<StickySet>,
    /// The scratchpads with their states.
    pub scratchpads: ScratchpadSet,
    /// Whether a refresh that the refresh hook asked for is running.
    pub refreshing: bool,
}

impl PolicyState {
    /// The sticky clients, if the sticky state was added.
    pub open spec fn pinned(self) -> Option<Set<u32>> {
        match self.sticky {
            Some(set) => Some(set@),
            None => None,
        }
    }

    /// The state of a window manager with the given scratchpads and without
    /// sticky state.
    pub fn new(scratchpads: ScratchpadSet) -> (state: PolicyState)
        ensures
            state.pinned() is None,
            state.scratchpads == scratchpads,
            !state.refreshing,
    {
        PolicyState { sticky: None, scratchpads, refreshing: false }
    }
}

/// Adds the sticky state, with no client pinned. Sticky state that was
/// there before is replaced.
pub fn add_sticky_client_state(state: PolicyState) -> (added: PolicyState)
    ensures
        added.pinned() == Some(Set::<u32>::empty()),
        added.scratchpads == state.scratchpads,
        added.refreshing == state.refreshing,
{
    PolicyState {
        sticky: Some(StickySet::new()),
        scratchpads: state.scratchpads,
        refreshing: state.refreshing,
    }
}

/// The key handler that pins or unpins the focused client. Without a
/// focused client nothing changes. The result says whether the caller has
/// to refresh the screen: it has whenever a client was focused.
///
/// Without sticky state the handler fails, whatever is focused.
pub fn toggle_sticky_client(state: &mut PolicyState, focused: Option<u32>) -> (refresh: Result<
    bool,
    PolicyError,
>)
    ensures
        final(state).scratchpads == old(state).scratchpads,
        final(state).refreshing == old(state).refreshing,
        match old(state).pinned() {
            None => refresh == Err::<bool, PolicyError>(PolicyError::MissingStickyState)
                && final(state).pinned() is None,
            Some(set) => match focused {
                Some(id) => refresh == Ok::<bool, PolicyError>(true) && final(state).pinned()
                    == Some(toggled(set, id)),
                None => refresh == Ok::<bool, PolicyError>(false) && final(state).pinned() == Some(
                    set,
                ),
            },
        },
{
    match state.sticky.take() {
        None => Err(PolicyError::MissingStickyState),
        Some(set) => match focused {
            Some(id) => {
                state.sticky = Some(set.toggle(id));
                Ok(true)
            },
            None => {
                state.sticky = Some(set);
                Ok(false)
            },
        },
    }
}

/// The refresh hook: reconciles the sticky clients with the collection, as
/// [`reconcile`] does, and says whether the caller has to refresh the
/// screen once more, which is so exactly when a client was moved. The
/// caller then refreshes, and calls [`refresh_done`] when that refresh has
/// returned.
///
/// While that refresh runs the hook does nothing and asks for nothing.
/// Without sticky state the hook fails and touches nothing.
pub fn refresh_hook(state: &mut PolicyState, cs: &mut StackSet<Xid>, active_tag: &str) -> (refresh:
    Result<bool, PolicyError>)
    ensures
        final(state).scratchpads == old(state).scratchpads,
        old(state).pinned() is None ==> refresh == Err::<bool, PolicyError>(
            PolicyError::MissingStickyState,
        ) && final(state).pinned() is None && *final(cs) == *old(cs) && final(state).refreshing
            == old(state).refreshing,
        old(state).pinned() is Some && old(state).refreshing ==> refresh == Ok::<
            bool,
            PolicyError,
        >(false) && final(state).pinned() == old(state).pinned() && *final(cs) == *old(cs)
            && final(state).refreshing,
        old(state).pinned() matches Some(pins) ==> !old(state).refreshing ==> {
            &&& refresh matches Ok(moved)
            &&& final(state).pinned() matches Some(kept)
            &&& reconciled(pins, *old(cs), active_tag@, kept, *final(cs), moved)
            &&& final(state).refreshing == moved
        },
{
    match state.sticky.take() {
        None => Err(PolicyError::MissingStickyState),
        Some(set) => {
            if state.refreshing {
                state.sticky = Some(set);
                return Ok(false);
            }
            let mut set = set;
            let moved = reconcile(&mut set, cs, active_tag);
            state.sticky = Some(set);
            state.refreshing = moved;
            Ok(moved)
        },
    }
}

/// Tells the policy that the refresh which the refresh hook asked for has
/// returned: the next call of the hook reconciles again.
pub fn refresh_done(state: &mut PolicyState)
    ensures
        !final(state).refreshing,
        final(state).pinned() == old(state).pinned(),
        final(state).scratchpads == old(state).scratchpads,
{
    state.refreshing = false;
}

} // verus!
