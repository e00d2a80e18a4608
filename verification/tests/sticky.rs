use penrose::pure::geometry::Rect;
use penrose::pure::StackSet;
use penrose::Xid;
use wm_policy::error::PolicyError;
use wm_policy::hooks::{
    add_sticky_client_state, refresh_done, refresh_hook, toggle_sticky_client, PolicyState,
};
use wm_policy::registry::ScratchpadSet;
use wm_policy::sticky::{reconcile, toggle_sticky, StickySet};

fn client_set(clients: &[u32]) -> StackSet<Xid> {
    let mut cs: StackSet<Xid> = StackSet::try_new(
        Default::default(),
        vec!["1", "2", "3"],
        vec![Rect::new(0, 0, 1920, 1080)],
    )
    .expect("three tags cover one screen");
    for id in clients {
        cs.insert(Xid::from(*id));
    }
    cs
}

fn tag_of(cs: &StackSet<Xid>, id: u32) -> Option<String> {
    cs.tag_for_client(&Xid::from(id)).map(|t| t.to_string())
}

#[test]
fn new_sticky_set_is_empty() {
    let set = StickySet::new();
    assert_eq!(set.len(), 0);
    assert!(!set.contains(7));
}

#[test]
fn toggle_sticky_adds_an_absent_client() {
    let set = toggle_sticky(7, StickySet::new());
    assert!(set.contains(7));
    assert_eq!(set.len(), 1);
}

#[test]
fn toggle_sticky_removes_a_present_client() {
    let set = toggle_sticky(7, toggle_sticky(9, toggle_sticky(7, StickySet::new())));
    assert!(!set.contains(7));
    assert!(set.contains(9));
    assert_eq!(set.len(), 1);
}

#[test]
fn toggle_sticky_twice_restores_the_set() {
    let start = toggle_sticky(2, toggle_sticky(1, StickySet::new()));
    let absent_twice = toggle_sticky(5, toggle_sticky(5, start));
    assert_eq!(absent_twice.len(), 2);
    assert!(absent_twice.contains(1) && absent_twice.contains(2) && !absent_twice.contains(5));
    let present_twice = toggle_sticky(1, toggle_sticky(1, absent_twice));
    assert_eq!(present_twice.len(), 2);
    assert!(present_twice.contains(1) && present_twice.contains(2));
}

#[test]
fn reconcile_moves_a_pinned_client_to_the_active_tag() {
    let mut cs = client_set(&[10, 11]);
    let mut set = toggle_sticky(10, StickySet::new());
    assert_eq!(tag_of(&cs, 10).as_deref(), Some("1"));

    cs.focus_tag("2");
    let active = cs.current_tag().to_string();
    assert_eq!(active, "2");

    assert!(reconcile(&mut set, &mut cs, &active));
    assert_eq!(tag_of(&cs, 10).as_deref(), Some("2"));
    assert_eq!(tag_of(&cs, 11).as_deref(), Some("1"));

    assert!(!reconcile(&mut set, &mut cs, &active));
    assert_eq!(tag_of(&cs, 10).as_deref(), Some("2"));
    assert!(set.contains(10));
}

#[test]
fn reconcile_without_off_tag_clients_changes_nothing() {
    let mut cs = client_set(&[10, 11, 12]);
    let mut set = toggle_sticky(11, toggle_sticky(10, StickySet::new()));
    let before: Vec<Xid> = cs.clients().copied().collect();

    assert!(!reconcile(&mut set, &mut cs, "1"));

    let after: Vec<Xid> = cs.clients().copied().collect();
    assert_eq!(before, after);
    assert_eq!(tag_of(&cs, 10).as_deref(), Some("1"));
    assert_eq!(tag_of(&cs, 11).as_deref(), Some("1"));
    assert_eq!(tag_of(&cs, 12).as_deref(), Some("1"));
    assert_eq!(set.len(), 2);
}

#[test]
fn reconcile_leaves_unpinned_clients_where_they_are() {
    let mut cs = client_set(&[10, 11, 12]);
    cs.move_client_to_tag(&Xid::from(12), "3");
    let mut set = toggle_sticky(10, StickySet::new());

    assert!(reconcile(&mut set, &mut cs, "2"));

    assert_eq!(tag_of(&cs, 10).as_deref(), Some("2"));
    assert_eq!(tag_of(&cs, 11).as_deref(), Some("1"));
    assert_eq!(tag_of(&cs, 12).as_deref(), Some("3"));
}

#[test]
fn reconcile_prunes_clients_that_are_gone() {
    let mut cs = client_set(&[10, 11]);
    let mut set = toggle_sticky(11, toggle_sticky(10, StickySet::new()));
    cs.remove_client(&Xid::from(10));

    assert!(!reconcile(&mut set, &mut cs, "1"));

    assert!(!set.contains(10));
    assert!(set.contains(11));
    assert_eq!(set.len(), 1);
}

#[test]
fn reconcile_to_an_unknown_tag_moves_nothing() {
    let mut cs = client_set(&[10]);
    let mut set = toggle_sticky(10, StickySet::new());

    assert!(!reconcile(&mut set, &mut cs, "no such tag"));

    assert_eq!(tag_of(&cs, 10).as_deref(), Some("1"));
    assert!(set.contains(10));
}

#[test]
fn reconcile_moves_every_pinned_client_that_is_off_tag() {
    let mut cs = client_set(&[10, 11, 12]);
    cs.move_client_to_tag(&Xid::from(11), "3");
    let mut set = toggle_sticky(12, toggle_sticky(11, toggle_sticky(10, StickySet::new())));

    assert!(reconcile(&mut set, &mut cs, "3"));

    assert_eq!(tag_of(&cs, 10).as_deref(), Some("3"));
    assert_eq!(tag_of(&cs, 11).as_deref(), Some("3"));
    assert_eq!(tag_of(&cs, 12).as_deref(), Some("3"));
    assert!(!reconcile(&mut set, &mut cs, "3"));
}

#[test]
fn sticky_toggle_without_state_is_an_error() {
    let mut state = PolicyState::new(ScratchpadSet::new());
    assert_eq!(
        toggle_sticky_client(&mut state, Some(4)),
        Err(PolicyError::MissingStickyState)
    );
    assert_eq!(
        toggle_sticky_client(&mut state, None),
        Err(PolicyError::MissingStickyState)
    );
    assert!(state.sticky.is_none());
}

#[test]
fn sticky_toggle_flips_the_focused_client() {
    let mut state = add_sticky_client_state(PolicyState::new(ScratchpadSet::new()));
    assert_eq!(toggle_sticky_client(&mut state, Some(4)), Ok(true));
    assert!(state.sticky.as_ref().expect("state was added").contains(4));
    assert_eq!(toggle_sticky_client(&mut state, Some(4)), Ok(true));
    assert!(!state.sticky.as_ref().expect("state was added").contains(4));
}

#[test]
fn sticky_toggle_without_focus_changes_nothing() {
    let mut state = add_sticky_client_state(PolicyState::new(ScratchpadSet::new()));
    assert_eq!(toggle_sticky_client(&mut state, Some(4)), Ok(true));
    assert_eq!(toggle_sticky_client(&mut state, None), Ok(false));
    let set = state.sticky.as_ref().expect("state was added");
    assert!(set.contains(4));
    assert_eq!(set.len(), 1);
}

#[test]
fn refresh_hook_without_state_is_an_error() {
    let mut cs = client_set(&[10]);
    let mut state = PolicyState::new(ScratchpadSet::new());
    assert_eq!(
        refresh_hook(&mut state, &mut cs, "2"),
        Err(PolicyError::MissingStickyState)
    );
    assert_eq!(tag_of(&cs, 10).as_deref(), Some("1"));
}

#[test]
fn refresh_hook_asks_for_one_refresh_per_move() {
    let mut cs = client_set(&[10, 11]);
    let mut state = add_sticky_client_state(PolicyState::new(ScratchpadSet::new()));
    assert_eq!(toggle_sticky_client(&mut state, Some(11)), Ok(true));

    assert_eq!(refresh_hook(&mut state, &mut cs, "1"), Ok(false));
    assert!(!state.refreshing);
    cs.focus_tag("3");
    assert_eq!(refresh_hook(&mut state, &mut cs, "3"), Ok(true));
    assert!(state.refreshing);
    assert_eq!(tag_of(&cs, 11).as_deref(), Some("3"));
    refresh_done(&mut state);
    assert!(!state.refreshing);
    assert_eq!(refresh_hook(&mut state, &mut cs, "3"), Ok(false));
    assert!(!state.refreshing);
}

#[test]
fn refresh_hook_does_nothing_inside_its_own_refresh() {
    let mut cs = client_set(&[10, 11]);
    let mut state = add_sticky_client_state(PolicyState::new(ScratchpadSet::new()));
    assert_eq!(toggle_sticky_client(&mut state, Some(10)), Ok(true));
    assert_eq!(toggle_sticky_client(&mut state, Some(11)), Ok(true));

    assert_eq!(refresh_hook(&mut state, &mut cs, "2"), Ok(true));
    cs.move_client_to_tag(&Xid::from(11), "3");
    cs.remove_client(&Xid::from(10));

    assert_eq!(refresh_hook(&mut state, &mut cs, "2"), Ok(false));
    assert_eq!(tag_of(&cs, 11).as_deref(), Some("3"));
    let set = state.sticky.as_ref().expect("state was added");
    assert!(set.contains(10) && set.contains(11));

    refresh_done(&mut state);
    assert_eq!(refresh_hook(&mut state, &mut cs, "2"), Ok(true));
    assert_eq!(tag_of(&cs, 11).as_deref(), Some("2"));
    let set = state.sticky.as_ref().expect("state was added");
    assert!(!set.contains(10) && set.contains(11));
}

#[test]
fn policy_error_has_a_message() {
    assert_eq!(
        PolicyError::MissingStickyState.message(),
        "sticky client state was not added to the window manager"
    );
}
