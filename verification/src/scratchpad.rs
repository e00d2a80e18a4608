//! Named scratchpads: auxiliary programs that are spawned once and then
//! toggled between a hidden state and a floating placement on screen.
//!
//! The controller decides; it performs nothing. Each event gives the next
//! state and an [`Action`] for the caller to carry out.

use crate::geometry::Ratio;
use crate::rules::{ClientIdentity, Predicate};
use vstd::prelude::*;

verus! {

/// Where a scratchpad stands in its life.
#[derive(Clone, Copy, Debug, PartialEq, Eq, Structural)]
pub enum PadState {
    /// No client is tracked and none is awaited.
    Empty,
    /// The program was spawned and its window has not appeared yet.
    PendingSpawn,
    /// The client is tracked and out of view.
    Hidden(u32),
    /// The client is tracked and on screen.
    Visible(u32),
}

/// What the caller has to do after an event.
#[derive(Clone, Copy, Debug, PartialEq, Eq, Structural)]
pub enum Action {
    /// Nothing: the event changed nothing that shows.
    Nothing,
    /// Launch the scratchpad's command, without waiting for it.
    Spawn,
    /// Float the client at the given fractions of the screen, centred, and
    /// give it the input focus if `focus` is set.
    Show { client: u32, width: Ratio, height: Ratio, focus: bool },
    /// Take the client out of view, keeping it alive.
    Hide { client: u32 },
}

impl PadState {
    /// The client that the scratchpad owns, if it owns one.
    pub open spec fn slot(self) -> Option<u32> {
        match self {
            PadState::Empty => None,
            PadState::PendingSpawn => None,
            PadState::Hidden(client) => Some(client),
            PadState::Visible(client) => Some(client),
        }
    }

    /// The state after a toggle. A toggle while the window is awaited
    /// changes nothing.
    pub open spec fn toggled(self) -> PadState {
        match self {
            PadState::Empty => PadState::PendingSpawn,
            PadState::PendingSpawn => PadState::PendingSpawn,
            PadState::Hidden(client) => PadState::Visible(client),
            PadState::Visible(client) => PadState::Hidden(client),
        }
    }

    /// The state after a new client appeared, where `matched` says whether
    /// the scratchpad's predicate holds of it. Only an awaited window that
    /// matches is claimed.
    pub open spec fn created(self, matched: bool, client: u32) -> PadState {
        if self == PadState::PendingSpawn && matched {
            PadState::Visible(client)
        } else {
            self
        }
    }

    /// The state after a client went away. The slot is cleared when it held
    /// that client.
    pub open spec fn destroyed(self, client: u32) -> PadState {
        if self.slot() == Some(client) {
            PadState::Empty
        } else {
            self
        }
    }

    /// The client that the scratchpad owns, if it owns one.
    pub fn client(&self) -> (owned: Option<u32>)
        ensures
            owned == self.slot(),
    {
        match self {
            PadState::Empty => None,
            PadState::PendingSpawn => None,
            PadState::Hidden(client) => Some(*client),
            PadState::Visible(client) => Some(*client),
        }
    }

    /// Clears the slot if it holds `client`.
    pub fn client_destroyed(self, client: u32) -> (next: PadState)
        ensures
            next == self.destroyed(client),
    {
        match self {
            PadState::Hidden(held) if held == client => PadState::Empty,
            PadState::Visible(held) if held == client => PadState::Empty,
            _ => self,
        }
    }
}

/// The definition of one scratchpad. It does not change once built.
#[derive(Debug)]
pub struct Scratchpad {
    name: String,
    command: String,
    predicate: Predicate,
    width: Ratio,
    height: Ratio,
    focus_on_show: bool,
}

impl Scratchpad {
    /// The name by which the scratchpad is toggled.
    pub closed spec fn name(self) -> Seq<char> {
        self.name@
    }

    /// The command that launches the program.
    pub closed spec fn command(self) -> Seq<char> {
        self.command@
    }

    /// The test that tells the program's window from all others.
    pub closed spec fn predicate(self) -> Predicate {
        self.predicate
    }

    /// The fraction of the screen's width that the window gets.
    pub closed spec fn width(self) -> Ratio {
        self.width
    }

    /// The fraction of the screen's height that the window gets.
    pub closed spec fn height(self) -> Ratio {
        self.height
    }

    /// Whether the window gets the input focus whenever it is shown.
    pub closed spec fn focus_on_show(self) -> bool {
        self.focus_on_show
    }

    /// The action that shows `client` as this scratchpad places it.
    pub open spec fn show(self, client: u32) -> Action {
        Action::Show {
            client,
            width: self.width(),
            height: self.height(),
            focus: self.focus_on_show(),
        }
    }

    /// What a toggle asks of the caller in the given state: a spawn when
    /// nothing is tracked, nothing while the window is awaited, and else
    /// the showing or hiding of the tracked client.
    pub open spec fn toggle_action(self, state: PadState) -> Action {
        match state {
            PadState::Empty => Action::Spawn,
            PadState::PendingSpawn => Action::Nothing,
            PadState::Hidden(client) => self.show(client),
            PadState::Visible(client) => Action::Hide { client },
        }
    }

    /// What the appearance of a client asks of the caller: to show it where
    /// the scratchpad claims it, nothing otherwise.
    pub open spec fn created_action(self, state: PadState, matched: bool, client: u32) -> Action {
        if state == PadState::PendingSpawn && matched {
            self.show(client)
        } else {
            Action::Nothing
        }
    }

    /// A scratchpad from parts that were each checked when they were built.
    pub fn new(
        name: &str,
        command: &str,
        predicate: Predicate,
        width: Ratio,
        height: Ratio,
        focus_on_show: bool,
    ) -> (pad: Scratchpad)
        ensures
            pad.name() == name@,
            pad.command() == command@,
            pad.predicate() == predicate,
            pad.width() == width,
            pad.height() == height,
            pad.focus_on_show() == focus_on_show,
    {
        Scratchpad {
            name: name.to_owned(),
            command: command.to_owned(),
            predicate,
            width,
            height,
            focus_on_show,
        }
    }

    /// The name by which the scratchpad is toggled.
    pub fn label(&self) -> (text: &str)
        ensures
            text@ == self.name(),
    {
        self.name.as_str()
    }

    /// The command that launches the program.
    pub fn program(&self) -> (text: &str)
        ensures
            text@ == self.command(),
    {
        self.command.as_str()
    }

    /// Whether the scratchpad's predicate holds of the client.
    pub fn recognises(&self, identity: &ClientIdentity) -> (hit: bool)
        ensures
            hit == self.predicate().holds(identity.class@, identity.title@),
    {
        self.predicate.matches(identity)
    }

    /// One toggle: the next state and what the caller has to do.
    pub fn toggle(&self, state: PadState) -> (step: (PadState, Action))
        ensures
            step.0 == state.toggled(),
            step.1 == self.toggle_action(state),
    {
        match state {
            PadState::Empty => (PadState::PendingSpawn, Action::Spawn),
            PadState::PendingSpawn => (PadState::PendingSpawn, Action::Nothing),
            PadState::Hidden(client) => (PadState::Visible(client), self.place(client)),
            PadState::Visible(client) => (PadState::Hidden(client), Action::Hide { client }),
        }
    }

    /// A new client appeared: the next state and what the caller has to do.
    /// The client is claimed, and shown, only while a window is awaited
    /// and the predicate holds of it.
    pub fn client_created(&self, state: PadState, identity: &ClientIdentity) -> (step: (
        PadState,
        Action,
    ))
        ensures
            step.0 == state.created(
                self.predicate().holds(identity.class@, identity.title@),
                identity.id,
            ),
            step.1 == self.created_action(
                state,
                self.predicate().holds(identity.class@, identity.title@),
                identity.id,
            ),
    {
        match state {
            PadState::PendingSpawn => {
                if self.recognises(identity) {
                    (PadState::Visible(identity.id), self.place(identity.id))
                } else {
                    (state, Action::Nothing)
                }
            },
            _ => (state, Action::Nothing),
        }
    }

    /// The action that shows `client` as this scratchpad places it.
    fn place(&self, client: u32) -> (action: Action)
        ensures
            action == self.show(client),
    {
        Action::Show {
            client,
            width: self.width,
            height: self.height,
            focus: self.focus_on_show,
        }
    }
}

/// From nothing to a window on screen, out of view and back: the client
/// that was claimed is the one that is shown again, at the same placement.
pub proof fn lemma_client_kept_across_toggles(pad: Scratchpad, client: u32)
    ensures
        ({
            let pending = PadState::Empty.toggled();
            let visible = pending.created(true, client);
            let hidden = visible.toggled();
            let back = hidden.toggled();
            &&& pending == PadState::PendingSpawn
            &&& visible == PadState::Visible(client)
            &&& hidden == PadState::Hidden(client)
            &&& back == PadState::Visible(client)
            &&& pad.created_action(pending, true, client) == pad.show(client)
            &&& pad.toggle_action(visible) == (Action::Hide { client })
            &&& pad.toggle_action(hidden) == pad.show(client)
        }),
{
}

/// Two toggles in a row from the empty state ask for one spawn, not two:
/// the second finds the window awaited and asks for nothing.
pub proof fn lemma_one_spawn(pad: Scratchpad)
    ensures
        pad.toggle_action(PadState::Empty) == Action::Spawn,
        pad.toggle_action(PadState::Empty.toggled()) == Action::Nothing,
        PadState::Empty.toggled().toggled() == PadState::PendingSpawn,
{
}

/// No toggle changes which client a scratchpad owns.
pub proof fn lemma_toggle_keeps_slot(state: PadState)
    ensures
        state.toggled().slot() == state.slot(),
{
}

} // verus!
