use wm_policy::geometry::{floating_placement, Ratio, Rect};
use wm_policy::registry::ScratchpadSet;
use wm_policy::rules::{ClientIdentity, Predicate};
use wm_policy::scratchpad::{Action, PadState, Scratchpad};

fn eighty() -> Ratio {
    Ratio::new(8, 10).expect("ratio lies in (0, 1]")
}

fn terminal() -> Scratchpad {
    Scratchpad::new(
        "terminal",
        "st -c StScratchpad",
        Predicate::class_name("StScratchpad").expect("pattern is not empty"),
        eighty(),
        eighty(),
        true,
    )
}

fn console() -> Scratchpad {
    Scratchpad::new(
        "qt-console",
        "jupyter-qtconsole",
        Predicate::class_name("jupyter-qtconsole").expect("pattern is not empty"),
        eighty(),
        Ratio::new(6, 10).expect("ratio lies in (0, 1]"),
        false,
    )
}

fn show(client: u32) -> Action {
    Action::Show {
        client,
        width: eighty(),
        height: eighty(),
        focus: true,
    }
}

#[test]
fn toggle_sequence_keeps_the_client() {
    let pad = terminal();
    let window = ClientIdentity::new(42, "StScratchpad", "st");

    let (state, action) = pad.toggle(PadState::Empty);
    assert_eq!(state, PadState::PendingSpawn);
    assert_eq!(action, Action::Spawn);

    let (state, action) = pad.client_created(state, &window);
    assert_eq!(state, PadState::Visible(42));
    assert_eq!(action, show(42));
    assert_eq!(state.client(), Some(42));

    let (state, action) = pad.toggle(state);
    assert_eq!(state, PadState::Hidden(42));
    assert_eq!(action, Action::Hide { client: 42 });
    assert_eq!(state.client(), Some(42));

    let (state, action) = pad.toggle(state);
    assert_eq!(state, PadState::Visible(42));
    assert_eq!(action, show(42));
    assert_eq!(state.client(), Some(42));
}

#[test]
fn toggling_twice_while_pending_spawns_once() {
    let pad = terminal();
    let (state, first) = pad.toggle(PadState::Empty);
    let (state, second) = pad.toggle(state);
    let (state, third) = pad.toggle(state);
    assert_eq!(first, Action::Spawn);
    assert_eq!(second, Action::Nothing);
    assert_eq!(third, Action::Nothing);
    assert_eq!(state, PadState::PendingSpawn);
}

#[test]
fn terminal_scratchpad_scenario() {
    let screen = Rect::new(0, 0, 1920, 1080);
    let mut set = ScratchpadSet::new().register(terminal());

    assert_eq!(set.toggle("terminal"), Some(Action::Spawn));
    let (pad, state) = set.get(0).expect("one scratchpad is registered");
    assert_eq!(pad.program(), "st -c StScratchpad");
    assert_eq!(state, PadState::PendingSpawn);

    let created = set.client_created(&ClientIdentity::new(77, "StScratchpad", "st"));
    assert_eq!(created, show(77));
    assert_eq!(set.get(0).map(|e| e.1), Some(PadState::Visible(77)));
    let placed = match created {
        Action::Show { width, height, focus, .. } => {
            assert!(focus);
            floating_placement(screen, width, height)
        }
        other => panic!("expected the client to be shown, got {other:?}"),
    };
    assert_eq!(placed, Some(Rect::new(192, 108, 1536, 864)));

    assert_eq!(set.toggle("terminal"), Some(Action::Hide { client: 77 }));
    assert_eq!(set.get(0).map(|e| e.1), Some(PadState::Hidden(77)));

    let again = set.toggle("terminal");
    assert_eq!(again, Some(show(77)));
    assert_eq!(set.get(0).map(|e| e.1), Some(PadState::Visible(77)));
    let placed_again = match again {
        Some(Action::Show { width, height, .. }) => floating_placement(screen, width, height),
        other => panic!("expected the client to be shown, got {other:?}"),
    };
    assert_eq!(placed_again, placed);
}

#[test]
fn client_that_does_not_match_is_not_claimed() {
    let pad = terminal();
    let other = ClientIdentity::new(5, "firefox", "StScratchpad");
    let (state, action) = pad.client_created(PadState::PendingSpawn, &other);
    assert_eq!(state, PadState::PendingSpawn);
    assert_eq!(action, Action::Nothing);
}

#[test]
fn client_that_arrives_unawaited_is_not_claimed() {
    let pad = terminal();
    let window = ClientIdentity::new(5, "StScratchpad", "st");
    for state in [PadState::Empty, PadState::Hidden(1), PadState::Visible(1)] {
        let (next, action) = pad.client_created(state, &window);
        assert_eq!(next, state);
        assert_eq!(action, Action::Nothing);
    }
}

#[test]
fn destroyed_client_empties_the_slot() {
    assert_eq!(PadState::Visible(9).client_destroyed(9), PadState::Empty);
    assert_eq!(PadState::Hidden(9).client_destroyed(9), PadState::Empty);
    assert_eq!(PadState::Visible(9).client_destroyed(8), PadState::Visible(9));
    assert_eq!(PadState::Hidden(9).client_destroyed(8), PadState::Hidden(9));
    assert_eq!(PadState::PendingSpawn.client_destroyed(9), PadState::PendingSpawn);
    assert_eq!(PadState::Empty.client_destroyed(9), PadState::Empty);
}

#[test]
fn toggle_after_the_client_closed_spawns_again() {
    let mut set = ScratchpadSet::new().register(terminal());
    assert_eq!(set.toggle("terminal"), Some(Action::Spawn));
    assert_eq!(
        set.client_created(&ClientIdentity::new(3, "StScratchpad", "st")),
        show(3)
    );
    assert!(set.client_destroyed(3));
    assert_eq!(set.get(0).map(|e| e.1), Some(PadState::Empty));
    assert_eq!(set.toggle("terminal"), Some(Action::Spawn));
}

#[test]
fn show_without_focus_flag_does_not_focus() {
    let pad = console();
    let window = ClientIdentity::new(8, "jupyter-qtconsole", "console");
    let (_, action) = pad.client_created(PadState::PendingSpawn, &window);
    assert_eq!(
        action,
        Action::Show {
            client: 8,
            width: eighty(),
            height: Ratio::new(6, 10).expect("ratio lies in (0, 1]"),
            focus: false,
        }
    );
}

#[test]
fn scratchpad_reports_its_definition() {
    let pad = terminal();
    assert_eq!(pad.label(), "terminal");
    assert_eq!(pad.program(), "st -c StScratchpad");
    assert!(pad.recognises(&ClientIdentity::new(1, "StScratchpad", "")));
    assert!(!pad.recognises(&ClientIdentity::new(1, "st", "StScratchpad")));
}

#[test]
fn unknown_scratchpad_is_not_toggled() {
    let mut set = ScratchpadSet::new().register(terminal());
    assert_eq!(set.toggle("editor"), None);
    assert_eq!(set.get(0).map(|e| e.1), Some(PadState::Empty));
    assert_eq!(set.find("editor"), None);
    assert_eq!(set.find("terminal"), Some(0));
    assert!(set.get(1).is_none());
}

#[test]
fn each_scratchpad_has_its_own_state() {
    let mut set = ScratchpadSet::new().register(terminal()).register(console());
    assert_eq!(set.len(), 2);
    assert_eq!(set.toggle("qt-console"), Some(Action::Spawn));
    assert_eq!(set.get(0).map(|e| e.1), Some(PadState::Empty));
    assert_eq!(set.get(1).map(|e| e.1), Some(PadState::PendingSpawn));

    let stray = set.client_created(&ClientIdentity::new(1, "StScratchpad", "st"));
    assert_eq!(stray, Action::Nothing);
    assert_eq!(set.get(0).map(|e| e.1), Some(PadState::Empty));

    let claimed = set.client_created(&ClientIdentity::new(2, "jupyter-qtconsole", "c"));
    assert!(matches!(claimed, Action::Show { client: 2, focus: false, .. }));
    assert_eq!(set.get(1).map(|e| e.1), Some(PadState::Visible(2)));
    assert_eq!(set.holder(2), Some(1));
    assert_eq!(set.holder(1), None);
}

#[test]
fn first_awaiting_scratchpad_claims_the_client() {
    let mut set = ScratchpadSet::new().register(terminal()).register(terminal());
    let second = Scratchpad::new(
        "second",
        "st -c StScratchpad",
        Predicate::class_name("StScratchpad").expect("pattern is not empty"),
        eighty(),
        eighty(),
        true,
    );
    set = set.register(second);
    assert_eq!(set.toggle("second"), Some(Action::Spawn));
    assert_eq!(set.toggle("terminal"), Some(Action::Spawn));
    assert_eq!(
        set.client_created(&ClientIdentity::new(11, "StScratchpad", "st")),
        show(11)
    );
    assert_eq!(set.get(0).map(|e| e.1), Some(PadState::Visible(11)));
    assert_eq!(set.get(1).map(|e| e.1), Some(PadState::Empty));
    assert_eq!(set.get(2).map(|e| e.1), Some(PadState::PendingSpawn));
}

#[test]
fn client_is_never_owned_twice() {
    let second = Scratchpad::new(
        "second",
        "st -c StScratchpad",
        Predicate::class_name("StScratchpad").expect("pattern is not empty"),
        eighty(),
        eighty(),
        true,
    );
    let mut set = ScratchpadSet::new().register(terminal()).register(second);
    let window = ClientIdentity::new(11, "StScratchpad", "st");
    assert_eq!(set.toggle("terminal"), Some(Action::Spawn));
    assert_eq!(set.client_created(&window), show(11));
    assert_eq!(set.toggle("second"), Some(Action::Spawn));
    assert_eq!(set.client_created(&window), Action::Nothing);
    assert_eq!(set.get(0).map(|e| e.1), Some(PadState::Visible(11)));
    assert_eq!(set.get(1).map(|e| e.1), Some(PadState::PendingSpawn));
    assert_eq!(set.holder(11), Some(0));
}

#[test]
fn destroying_an_unknown_client_changes_nothing() {
    let mut set = ScratchpadSet::new().register(terminal());
    assert_eq!(set.toggle("terminal"), Some(Action::Spawn));
    assert!(!set.client_destroyed(5));
    assert_eq!(set.get(0).map(|e| e.1), Some(PadState::PendingSpawn));
    assert_eq!(
        set.client_created(&ClientIdentity::new(5, "StScratchpad", "st")),
        show(5)
    );
    assert!(!set.client_destroyed(6));
    assert_eq!(set.get(0).map(|e| e.1), Some(PadState::Visible(5)));
}
