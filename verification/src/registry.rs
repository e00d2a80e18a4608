//! The scratchpads of one window manager, each with its state. No client is
//! ever owned by two scratchpads at once.

use crate::rules::ClientIdentity;
use crate::scratchpad::{Action, PadState, Scratchpad};
use vstd::prelude::*;

verus! {

/// Whether no client is owned by two of the states.
pub open spec fn slots_distinct(states: Seq<PadState>) -> bool {
    forall|i: int, j: int|
        0 <= i < j < states.len() && (#[trigger] states[i]).slot() is Some ==> states[i].slot() != (
        #[trigger] states[j]).slot()
}

/// Whether one of the states owns the client.
pub open spec fn is_held(states: Seq<PadState>, client: u32) -> bool {
    exists|i: int| 0 <= i < states.len() && (#[trigger] states[i]).slot() == Some(client)
}

/// Whether scratchpad `at` is the first with the given name.
pub open spec fn is_first_named(pads: Seq<Scratchpad>, name: Seq<char>, at: int) -> bool {
    &&& 0 <= at < pads.len()
    &&& pads[at].name() == name
    &&& forall|j: int| 0 <= j < at ==> (#[trigger] pads[j]).name() != name
}

/// The first scratchpad with the given name, if there is one.
pub open spec fn named(pads: Seq<Scratchpad>, name: Seq<char>) -> Option<int> {
    if exists|at: int| is_first_named(pads, name, at) {
        Some(choose|at: int| is_first_named(pads, name, at))
    } else {
        None
    }
}

/// Whether scratchpad `at` awaits a window and recognises the client.
pub open spec fn awaits(
    pads: Seq<Scratchpad>,
    states: Seq<PadState>,
    class: Seq<char>,
    title: Seq<char>,
    at: int,
) -> bool {
    states[at] == PadState::PendingSpawn && pads[at].predicate().holds(class, title)
}

/// Whether scratchpad `at` is the first that awaits a window and recognises
/// the client.
pub open spec fn is_first_awaiting(
    pads: Seq<Scratchpad>,
    states: Seq<PadState>,
    class: Seq<char>,
    title: Seq<char>,
    at: int,
) -> bool {
    &&& 0 <= at < pads.len()
    &&& awaits(pads, states, class, title, at)
    &&& forall|j: int| 0 <= j < at ==> !#[trigger] awaits(pads, states, class, title, j)
}

/// The scratchpad that claims a new client: none if the client is owned
/// already, else the first that awaits a window and recognises it.
pub open spec fn claimant(
    pads: Seq<Scratchpad>,
    states: Seq<PadState>,
    class: Seq<char>,
    title: Seq<char>,
    client: u32,
) -> Option<int> {
    if is_held(states, client) {
        None
    } else if exists|at: int| is_first_awaiting(pads, states, class, title, at) {
        Some(choose|at: int| is_first_awaiting(pads, states, class, title, at))
    } else {
        None
    }
}

/// The scratchpads in the order in which they were registered, each with its
/// state.
#[derive(Debug)]
pub struct ScratchpadSet {
    pads: Vec<Scratchpad>,
    states: Vec<PadState>,
}

impl ScratchpadSet {
    #[verifier::type_invariant]
    spec fn consistent(self) -> bool {
        self.pads@.len() == self.states@.len() && slots_distinct(self.states@)
    }

    /// The definitions, in the order of registration.
    pub closed spec fn pads(self) -> Seq<Scratchpad> {
        self.pads@
    }

    /// The state of each scratchpad, in the same order.
    pub closed spec fn states(self) -> Seq<PadState> {
        self.states@
    }

    /// A set without scratchpads.
    pub fn new() -> (set: ScratchpadSet)
        ensures
            set.pads().len() == 0,
            set.states().len() == 0,
    {
        ScratchpadSet { pads: Vec::new(), states: Vec::new() }
    }

    /// Adds a scratchpad, which starts empty.
    pub fn register(self, pad: Scratchpad) -> (grown: ScratchpadSet)
        ensures
            grown.pads() == self.pads().push(pad),
            grown.states() == self.states().push(PadState::Empty),
    {
        proof {
            use_type_invariant(&self);
        }
        let mut pads = self.pads;
        let mut states = self.states;
        pads.push(pad);
        states.push(PadState::Empty);
        ScratchpadSet { pads, states }
    }

    /// How many scratchpads are registered. Every scratchpad has a state,
    /// and no client is owned twice.
    pub fn len(&self) -> (n: usize)
        ensures
            n == self.pads().len(),
            n == self.states().len(),
            slots_distinct(self.states()),
    {
        proof {
            use_type_invariant(self);
        }
        self.pads.len()
    }

    /// The index of the first scratchpad with the given name.
    pub fn find(&self, name: &str) -> (at: Option<usize>)
        ensures
            at is Some == named(self.pads(), name@) is Some,
            at matches Some(k) ==> named(self.pads(), name@) == Some(k as int) && is_first_named(
                self.pads(),
                name@,
                k as int,
            ),
    {
        let wanted: String = name.to_owned();
        let mut i: usize = 0;
        while i < self.pads.len()
            invariant
                i <= self.pads.len(),
                wanted@ == name@,
                forall|j: int| 0 <= j < i ==> (#[trigger] self.pads@[j]).name() != name@,
            decreases self.pads.len() - i,
        {
            if self.pads[i].label().to_owned() == wanted {
                proof {
                    lemma_first_named_unique(self.pads@, name@, i as int);
                }
                return Some(i);
            }
            i += 1;
        }
        None
    }

    /// The definition and the state of the scratchpad at `index`.
    pub fn get(&self, index: usize) -> (entry: Option<(&Scratchpad, PadState)>)
        ensures
            entry is Some == (index < self.pads().len()),
            entry matches Some(e) ==> *e.0 == self.pads()[index as int] && e.1
                == self.states()[index as int],
    {
        proof {
            use_type_invariant(self);
        }
        if index < self.pads.len() {
            Some((&self.pads[index], self.states[index]))
        } else {
            None
        }
    }

    /// Toggles the first scratchpad with the given name and says what the
    /// caller has to do. `None` is returned, and nothing changes, when no
    /// scratchpad has that name.
    pub fn toggle(&mut self, name: &str) -> (action: Option<Action>)
        ensures
            final(self).pads() == old(self).pads(),
            final(self).states().len() == old(self).states().len(),
            match named(old(self).pads(), name@) {
                Some(k) => {
                    &&& action == Some(old(self).pads()[k].toggle_action(old(self).states()[k]))
                    &&& final(self).states() == old(self).states().update(
                        k,
                        old(self).states()[k].toggled(),
                    )
                },
                None => action is None && final(self).states() == old(self).states(),
            },
    {
        proof {
            use_type_invariant(&*self);
        }
        match self.find(name) {
            Some(k) => {
                let (next, action) = self.pads[k].toggle(self.states[k]);
                proof {
                    lemma_update_same_slot(self.states@, k as int, next);
                }
                self.states = replaced(&self.states, k, next);
                Some(action)
            },
            None => None,
        }
    }

    /// A new client appeared. If no scratchpad owns it yet, the first
    /// scratchpad that awaits a window and recognises the client claims it,
    /// and the action shows it. Otherwise nothing changes and nothing is
    /// asked: the client is left to ordinary window management.
    pub fn client_created(&mut self, identity: &ClientIdentity) -> (action: Action)
        ensures
            final(self).pads() == old(self).pads(),
            final(self).states().len() == old(self).states().len(),
            match claimant(
                old(self).pads(),
                old(self).states(),
                identity.class@,
                identity.title@,
                identity.id,
            ) {
                Some(k) => {
                    &&& action == old(self).pads()[k].show(identity.id)
                    &&& final(self).states() == old(self).states().update(
                        k,
                        PadState::Visible(identity.id),
                    )
                },
                None => action == Action::Nothing && final(self).states() == old(self).states(),
            },
    {
        proof {
            use_type_invariant(&*self);
        }
        if self.holder(identity.id).is_some() {
            return Action::Nothing;
        }
        let mut i: usize = 0;
        while i < self.pads.len()
            invariant
                i <= self.pads.len(),
                self.pads@.len() == self.states@.len(),
                slots_distinct(self.states@),
                !is_held(self.states@, identity.id),
                *self == *old(self),
                forall|j: int|
                    0 <= j < i ==> !#[trigger] awaits(
                        self.pads@,
                        self.states@,
                        identity.class@,
                        identity.title@,
                        j,
                    ),
            decreases self.pads.len() - i,
        {
            let state = self.states[i];
            let (next, action) = self.pads[i].client_created(state, identity);
            if next != state {
                proof {
                    lemma_first_awaiting_unique(
                        self.pads@,
                        self.states@,
                        identity.class@,
                        identity.title@,
                        i as int,
                    );
                    lemma_update_fresh_slot(self.states@, i as int, identity.id);
                    assert(is_first_awaiting(
                        self.pads@,
                        self.states@,
                        identity.class@,
                        identity.title@,
                        i as int,
                    ));
                }
                self.states = replaced(&self.states, i, next);
                return action;
            }
            i += 1;
        }
        Action::Nothing
    }

    /// A client went away. The scratchpad that owned it, if any, becomes
    /// empty; the result says whether one did.
    pub fn client_destroyed(&mut self, client: u32) -> (cleared: bool)
        ensures
            final(self).pads() == old(self).pads(),
            final(self).states().len() == old(self).states().len(),
            forall|i: int|
                0 <= i < old(self).states().len() ==> #[trigger] final(self).states()[i] == old(
                    self,
                ).states()[i].destroyed(client),
            cleared == is_held(old(self).states(), client),
            !is_held(final(self).states(), client),
    {
        proof {
            use_type_invariant(&*self);
        }
        match self.holder(client) {
            Some(k) => {
                let next = self.states[k].client_destroyed(client);
                proof {
                    lemma_update_cleared_slot(self.states@, k as int);
                }
                self.states = replaced(&self.states, k, next);
                true
            },
            None => false,
        }
    }

    /// The index of the scratchpad that owns the client.
    pub fn holder(&self, client: u32) -> (at: Option<usize>)
        ensures
            at is Some == is_held(self.states(), client),
            at matches Some(k) ==> k < self.states().len() && self.states()[k as int].slot()
                == Some(client),
            at matches Some(k) ==> forall|j: int|
                0 <= j < self.states().len() && j != k ==> (#[trigger] self.states()[j]).slot()
                    != Some(client),
    {
        proof {
            use_type_invariant(self);
        }
        let mut i: usize = 0;
        while i < self.states.len()
            invariant
                i <= self.states.len(),
                slots_distinct(self.states@),
                forall|j: int| 0 <= j < i ==> (#[trigger] self.states@[j]).slot() != Some(client),
            decreases self.states.len() - i,
        {
            if self.states[i].client() == Some(client) {
                return Some(i);
            }
            i += 1;
        }
        None
    }
}

/// A copy of `states` with the state at `at` replaced.
fn replaced(states: &Vec<PadState>, at: usize, next: PadState) -> (copy: Vec<PadState>)
    requires
        at < states.len(),
    ensures
        copy@ == states@.update(at as int, next),
{
    let mut copy: Vec<PadState> = Vec::new();
    let mut i: usize = 0;
    while i < states.len()
        invariant
            i <= states.len(),
            at < states.len(),
            copy@.len() == i,
            forall|j: int| 0 <= j < i ==> copy@[j] == states@.update(at as int, next)[j],
        decreases states.len() - i,
    {
        if i == at {
            copy.push(next);
        } else {
            copy.push(states[i]);
        }
        i += 1;
    }
    assert(copy@ =~= states@.update(at as int, next));
    copy
}

/// At most one scratchpad is the first with a name.
pub proof fn lemma_first_named_unique(pads: Seq<Scratchpad>, name: Seq<char>, at: int)
    requires
        is_first_named(pads, name, at),
    ensures
        named(pads, name) == Some(at),
{
    let other = choose|other: int| is_first_named(pads, name, other);
    if other < at {
        assert(pads[other].name() != name);
    } else if at < other {
        assert(pads[at].name() != name);
    }
}

/// At most one scratchpad is the first to await and recognise a client.
pub proof fn lemma_first_awaiting_unique(
    pads: Seq<Scratchpad>,
    states: Seq<PadState>,
    class: Seq<char>,
    title: Seq<char>,
    at: int,
)
    requires
        is_first_awaiting(pads, states, class, title, at),
    ensures
        (choose|other: int| is_first_awaiting(pads, states, class, title, other)) == at,
{
    let other = choose|other: int| is_first_awaiting(pads, states, class, title, other);
    if other < at {
        assert(!awaits(pads, states, class, title, other));
    } else if at < other {
        assert(!awaits(pads, states, class, title, at));
    }
}

proof fn lemma_update_same_slot(states: Seq<PadState>, at: int, next: PadState)
    requires
        slots_distinct(states),
        0 <= at < states.len(),
        next.slot() == states[at].slot(),
    ensures
        slots_distinct(states.update(at, next)),
{
    let after = states.update(at, next);
    assert forall|i: int, j: int|
        0 <= i < j < after.len() && (#[trigger] after[i]).slot() is Some implies after[i].slot()
        != (#[trigger] after[j]).slot() by {
        assert(states[i].slot() != states[j].slot());
    }
}

proof fn lemma_update_fresh_slot(states: Seq<PadState>, at: int, client: u32)
    requires
        slots_distinct(states),
        0 <= at < states.len(),
        !is_held(states, client),
    ensures
        slots_distinct(states.update(at, PadState::Visible(client))),
{
    let after = states.update(at, PadState::Visible(client));
    assert forall|i: int, j: int|
        0 <= i < j < after.len() && (#[trigger] after[i]).slot() is Some implies after[i].slot()
        != (#[trigger] after[j]).slot() by {
        if i != at && j != at {
            assert(states[i].slot() != states[j].slot());
        } else if i == at {
            assert(states[j].slot() != Some(client));
        } else {
            assert(states[i].slot() != Some(client));
        }
    }
}

proof fn lemma_update_cleared_slot(states: Seq<PadState>, at: int)
    requires
        slots_distinct(states),
        0 <= at < states.len(),
    ensures
        slots_distinct(states.update(at, PadState::Empty)),
{
    let after = states.update(at, PadState::Empty);
    assert forall|i: int, j: int|
        0 <= i < j < after.len() && (#[trigger] after[i]).slot() is Some implies after[i].slot()
        != (#[trigger] after[j]).slot() by {
        if i != at && j != at {
            assert(states[i].slot() != states[j].slot());
        }
    }
}

} // verus!
