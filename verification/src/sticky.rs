//! Sticky clients: windows pinned so that they follow the active workspace.

use crate::client_set::{
    client_tags, each_client_once, has_tag, known_tags, move_client, tag_of_client,
};
use penrose::pure::StackSet;
use penrose::Xid;
use vstd::prelude::*;

verus! {

/// The set of pinned client ids. It starts empty and changes only by
/// [`StickySet::toggle`] and by the pruning that [`reconcile`] does.
#[derive(Debug)]
pub struct StickySet {
    ids: Vec<u32>,
}

impl View for StickySet {
    type V = Set<u32>;

    /// The pinned ids, as a set.
    closed spec fn view(&self) -> Set<u32> {
        Set::new(|id: u32| self.ids@.contains(id))
    }
}

impl StickySet {
    #[verifier::type_invariant]
    spec fn no_repeats(self) -> bool {
        self.ids@.no_duplicates()
    }

    /// The empty set.
    pub fn new() -> (set: StickySet)
        ensures
            set@ == Set::<u32>::empty(),
    {
        let set = StickySet { ids: Vec::new() };
        assert(set@ =~= Set::<u32>::empty());
        set
    }

    /// Whether the client is pinned.
    pub fn contains(&self, id: u32) -> (found: bool)
        ensures
            found == self@.contains(id),
    {
        position_of(&self.ids, id).is_some()
    }

    /// How many clients are pinned.
    pub fn len(&self) -> (n: usize)
        ensures
            n == self@.len(),
            self@.finite(),
    {
        proof {
            use_type_invariant(self);
            self.ids@.unique_seq_to_set();
            assert(self@ =~= self.ids@.to_set());
        }
        self.ids.len()
    }

    /// Flips the membership of `id`: pins the client if it was not pinned,
    /// unpins it if it was.
    pub fn toggle(self, id: u32) -> (flipped: StickySet)
        ensures
            flipped@ == toggled(self@, id),
    {
        proof {
            use_type_invariant(&self);
        }
        let mut ids = self.ids;
        let ghost before = ids@;
        match position_of(&ids, id) {
            Some(at) => {
                ids.remove(at);
                proof {
                    lemma_remove_at(before, at as int);
                }
            },
            None => {
                ids.push(id);
                proof {
                    lemma_push_absent(before, id);
                }
            },
        }
        let flipped = StickySet { ids };
        assert(flipped@ =~= toggled(self@, id));
        flipped
    }
}

/// The set `set` with the membership of `id` flipped.
pub open spec fn toggled(set: Set<u32>, id: u32) -> Set<u32> {
    if set.contains(id) {
        set.remove(id)
    } else {
        set.insert(id)
    }
}

/// Flips the membership of `id` in `set`.
pub fn toggle_sticky(id: u32, set: StickySet) -> (flipped: StickySet)
    ensures
        flipped@ == toggled(set@, id),
{
    set.toggle(id)
}

/// Flipping the membership of the same client twice gives the set back.
pub proof fn lemma_toggle_twice(set: Set<u32>, id: u32)
    ensures
        toggled(toggled(set, id), id) == set,
{
    assert(toggled(toggled(set, id), id) =~= set);
}

/// Whether reconciling must move client `id`: it is pinned, the collection
/// holds it, and it is found under another tag than `active`.
pub open spec fn off_tag(
    set: Set<u32>,
    tags: Map<u32, Seq<char>>,
    active: Seq<char>,
    id: u32,
) -> bool {
    set.contains(id) && tags.dom().contains(id) && tags[id] != active
}

/// What reconciling the pinned clients `pins` with the collection `before`
/// leaves behind: the pinned clients `kept`, the collection `after`, and the
/// report `moved`.
///
/// Pinned ids that the collection does not hold are dropped. A move is
/// reported exactly when the collection has a workspace tagged `active` and
/// some pinned client is found under another tag. Without a move the
/// collection is as it was. With or without, the collection holds the same
/// clients and has the same tags as before, and every client that did not
/// have to move is found where it was. Where the collection held every
/// client once and has a workspace tagged `active`, every pinned client that
/// is left is found under `active`.
pub open spec fn reconciled(
    pins: Set<u32>,
    before: StackSet<Xid>,
    active: Seq<char>,
    kept: Set<u32>,
    after: StackSet<Xid>,
    moved: bool,
) -> bool {
    let tags = client_tags(before);
    &&& kept == pins.intersect(tags.dom())
    &&& moved == (known_tags(before).contains(active) && exists|id: u32|
        off_tag(pins, tags, active, id))
    &&& !moved ==> after == before
    &&& known_tags(after) == known_tags(before)
    &&& each_client_once(before) ==> each_client_once(after)
    &&& client_tags(after).dom() == tags.dom()
    &&& forall|id: u32|
        tags.dom().contains(id) && !off_tag(pins, tags, active, id) ==> #[trigger] client_tags(
            after,
        )[id] == tags[id]
    &&& each_client_once(before) && known_tags(before).contains(active) ==> forall|id: u32|
        kept.contains(id) ==> #[trigger] client_tags(after)[id] == active
}

/// Re-homes the pinned clients to the workspace tagged `active_tag`, and
/// reports whether any client was moved.
///
/// Pinned ids that the collection no longer holds are dropped from the set.
/// Every pinned client that the collection holds under another tag is moved
/// to `active_tag`; nothing else changes workspace. Where the collection has
/// no workspace with that tag nothing can be moved, and the collection is
/// left as it was. The caller refreshes the screen only when a move is
/// reported, and must not reconcile again from within that refresh.
pub fn reconcile(set: &mut StickySet, cs: &mut StackSet<Xid>, active_tag: &str) -> (moved: bool)
    ensures
        reconciled(old(set)@, *old(cs), active_tag@, final(set)@, *final(cs), moved),
{
    proof {
        use_type_invariant(&*set);
    }
    let ghost pinned = set.ids@;
    let ghost before = *cs;
    let ghost tags = client_tags(before);
    let ghost active = active_tag@;
    let tag_known = has_tag(cs, active_tag);
    let target: String = active_tag.to_owned();
    let mut kept: Vec<u32> = Vec::new();
    let mut moved = false;
    let mut i: usize = 0;
    while i < set.ids.len()
        invariant
            i <= set.ids.len(),
            set.ids@ == pinned,
            pinned.no_duplicates(),
            target@ == active,
            active == active_tag@,
            tags == client_tags(before),
            tag_known == known_tags(before).contains(active),
            known_tags(*cs) == known_tags(before),
            each_client_once(before) ==> each_client_once(*cs),
            client_tags(*cs).dom() == tags.dom(),
            !moved ==> *cs == before,
            moved == (tag_known && exists|id: u32|
                visited(pinned, i as int, id) && #[trigger] off_tag(
                    pinned.to_set(),
                    tags,
                    active,
                    id,
                )),
            forall|id: u32|
                tags.dom().contains(id) && !(visited(pinned, i as int, id) && tags[id] != active)
                    ==> #[trigger] client_tags(*cs)[id] == tags[id],
            each_client_once(before) && tag_known ==> forall|id: u32|
                visited(pinned, i as int, id) && tags.dom().contains(id) ==> #[trigger] client_tags(
                    *cs,
                )[id] == active,
            kept@.no_duplicates(),
            forall|id: u32|
                kept@.contains(id) <==> visited(pinned, i as int, id) && tags.dom().contains(id),
        decreases set.ids.len() - i,
    {
        let id = set.ids[i];
        proof {
            lemma_visit_next(pinned, i as int);
        }
        match tag_of_client(cs, id) {
            Some(tag) => {
                if tag_known && tag != target {
                    move_client(cs, id, active_tag);
                    moved = true;
                    assert(off_tag(pinned.to_set(), tags, active, id));
                }
                proof {
                    lemma_push_absent(kept@, id);
                }
                kept.push(id);
            },
            None => {},
        }
        i += 1;
    }
    set.ids = kept;
    proof {
        lemma_visited_all(pinned);
        assert(old(set)@ =~= pinned.to_set());
        assert(final(set)@ =~= old(set)@.intersect(tags.dom()));
    }
    moved
}

/// Where no pinned client is off the active tag, reconciling reports no
/// move and leaves the collection as it was.
pub proof fn lemma_nothing_off_tag_nothing_moved(
    pins: Set<u32>,
    before: StackSet<Xid>,
    active: Seq<char>,
    kept: Set<u32>,
    after: StackSet<Xid>,
    moved: bool,
)
    requires
        reconciled(pins, before, active, kept, after, moved),
        forall|id: u32| !off_tag(pins, client_tags(before), active, id),
    ensures
        !moved,
        after == before,
{
}

/// Reconciling a second time, with the same active tag, moves nothing:
/// after the first time no pinned client is off that tag, provided that the
/// collection held every client once and has a workspace with that tag.
pub proof fn lemma_reconciled_stays(
    pins: Set<u32>,
    before: StackSet<Xid>,
    active: Seq<char>,
    kept: Set<u32>,
    after: StackSet<Xid>,
    moved: bool,
    kept_again: Set<u32>,
    after_again: StackSet<Xid>,
    moved_again: bool,
)
    requires
        reconciled(pins, before, active, kept, after, moved),
        reconciled(kept, after, active, kept_again, after_again, moved_again),
        each_client_once(before),
        known_tags(before).contains(active),
    ensures
        !moved_again,
        after_again == after,
        kept_again == kept,
{
    assert forall|id: u32| !off_tag(kept, client_tags(after), active, id) by {
        if kept.contains(id) {
            assert(client_tags(after)[id] == active);
        }
    }
    assert(kept_again =~= kept);
}

/// Whether `id` is among the first `upto` items of `ids`.
spec fn visited(ids: Seq<u32>, upto: int, id: u32) -> bool {
    exists|j: int| 0 <= j < upto && ids[j] == id
}

/// One more item is visited with every step, and in a sequence without
/// repeats it is one that was not visited before.
proof fn lemma_visit_next(ids: Seq<u32>, at: int)
    requires
        ids.no_duplicates(),
        0 <= at < ids.len(),
    ensures
        !visited(ids, at, ids[at]),
        forall|id: u32| #[trigger]
            visited(ids, at + 1, id) <==> visited(ids, at, id) || id == ids[at],
{
    assert forall|id: u32| #[trigger]
        visited(ids, at + 1, id) <==> visited(ids, at, id) || id == ids[at] by {
        if visited(ids, at + 1, id) {
            let j = choose|j: int| 0 <= j < at + 1 && ids[j] == id;
            if j < at {
                assert(visited(ids, at, id));
            }
        }
        if visited(ids, at, id) {
            let j = choose|j: int| 0 <= j < at && ids[j] == id;
            assert(0 <= j < at + 1 && ids[j] == id);
        }
        if id == ids[at] {
            assert(0 <= at < at + 1 && ids[at] == id);
        }
    }
}

/// Once every item is visited, the visited items are the items.
proof fn lemma_visited_all(ids: Seq<u32>)
    ensures
        forall|id: u32| #[trigger]
            visited(ids, ids.len() as int, id) <==> ids.to_set().contains(id),
{
    assert forall|id: u32| #[trigger]
        visited(ids, ids.len() as int, id) <==> ids.to_set().contains(id) by {
        if visited(ids, ids.len() as int, id) {
            let j = choose|j: int| 0 <= j < ids.len() && ids[j] == id;
            assert(ids.contains(id));
        }
        if ids.contains(id) {
            let j = choose|j: int| 0 <= j < ids.len() && ids[j] == id;
            assert(0 <= j < ids.len() && ids[j] == id);
        }
    }
}

/// The index of `id` in `ids`, if it occurs.
fn position_of(ids: &Vec<u32>, id: u32) -> (at: Option<usize>)
    ensures
        at is Some == ids@.contains(id),
        at matches Some(i) ==> i < ids.len() && ids[i as int] == id,
{
    let mut i: usize = 0;
    while i < ids.len()
        invariant
            i <= ids.len(),
            forall|j: int| 0 <= j < i ==> ids[j] != id,
        decreases ids.len() - i,
    {
        if ids[i] == id {
            return Some(i);
        }
        i += 1;
    }
    None
}

proof fn lemma_remove_at(s: Seq<u32>, at: int)
    requires
        s.no_duplicates(),
        0 <= at < s.len(),
    ensures
        s.remove(at).no_duplicates(),
        forall|id: u32| s.remove(at).contains(id) <==> (s.contains(id) && id != s[at]),
{
    let r = s.remove(at);
    assert forall|id: u32| r.contains(id) <==> (s.contains(id) && id != s[at]) by {
        if r.contains(id) {
            let j = choose|j: int| 0 <= j < r.len() && r[j] == id;
            if j < at {
                assert(s[j] == id);
            } else {
                assert(s[j + 1] == id);
            }
        }
        if s.contains(id) && id != s[at] {
            let j = choose|j: int| 0 <= j < s.len() && s[j] == id;
            if j < at {
                assert(r[j] == id);
            } else {
                assert(r[j - 1] == id);
            }
        }
    }
}

proof fn lemma_push_absent(s: Seq<u32>, id: u32)
    requires
        s.no_duplicates(),
        !s.contains(id),
    ensures
        s.push(id).no_duplicates(),
        forall|other: u32| s.push(id).contains(other) <==> (s.contains(other) || other == id),
{
    let p = s.push(id);
    assert forall|other: u32| p.contains(other) <==> (s.contains(other) || other == id) by {
        if p.contains(other) {
            let j = choose|j: int| 0 <= j < p.len() && p[j] == other;
            if j < s.len() {
                assert(s[j] == other);
            }
        }
        if s.contains(other) {
            let j = choose|j: int| 0 <= j < s.len() && s[j] == other;
            assert(p[j] == other);
        }
        if other == id {
            assert(p[s.len() as int] == id);
        }
    }
    assert forall|i: int, j: int| 0 <= i < p.len() && 0 <= j < p.len() && i != j implies p[i]
        != p[j] by {
        if i < s.len() && j < s.len() {
        } else if i < s.len() {
            assert(s[i] == p[i]);
        } else {
            assert(s[j] == p[j]);
        }
    }
}

} // verus!
