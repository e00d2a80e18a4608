//! The window manager's client collection, as the policy code sees it.
//!
//! The collection itself is `penrose::pure::StackSet`. Nothing here looks
//! inside it: the functions below call its methods, and their contracts are
//! taken on trust from the methods' source. They describe the collection by
//! three facts only: which workspace tag each client is found under, which
//! tags exist, and whether every client is held once.

use vstd::prelude::*;

verus! {

#[verifier::external_type_specification]
#[verifier::external_body]
#[verifier::reject_recursive_types(C)]
pub struct ExStackSet<C: Clone + PartialEq + Eq + std::hash::Hash>(penrose::pure::StackSet<C>);

#[verifier::external_type_specification]
#[verifier::external_body]
pub struct ExXid(penrose::Xid);

/// For each client in the collection, the tag that `StackSet::tag_for_client`
/// reports for it: the tag of the first workspace that holds the client.
pub uninterp spec fn client_tags(cs: penrose::pure::StackSet<penrose::Xid>) -> Map<u32, Seq<char>>;

/// The tags of the workspaces in the collection.
pub uninterp spec fn known_tags(cs: penrose::pure::StackSet<penrose::Xid>) -> Set<Seq<char>>;

/// Whether no client is held more than once. `StackSet::insert` keeps this
/// true; replacing a whole stack through `StackSet::modify` can break it.
pub uninterp spec fn each_client_once(cs: penrose::pure::StackSet<penrose::Xid>) -> bool;

/// Calls `StackSet::tag_for_client`: the tag of the first workspace that
/// holds the client, or `None` when no workspace does.
#[verifier::external_body]
pub(crate) fn tag_of_client(cs: &penrose::pure::StackSet<penrose::Xid>, id: u32) -> (tag: Option<
    String,
>)
    ensures
        tag is Some == client_tags(*cs).dom().contains(id),
        tag matches Some(t) ==> t@ == client_tags(*cs)[id],
{
    cs.tag_for_client(&penrose::Xid::from(id)).map(|t| t.to_string())
}

/// Calls `StackSet::contains_tag`: whether some workspace carries the tag.
#[verifier::external_body]
pub(crate) fn has_tag(cs: &penrose::pure::StackSet<penrose::Xid>, tag: &str) -> (found: bool)
    ensures
        found == known_tags(*cs).contains(tag@),
{
    cs.contains_tag(tag)
}

/// Calls `StackSet::move_client_to_tag`. The method leaves the collection
/// as it was when no workspace carries the tag or none holds the client.
/// Otherwise it takes the client out of the first workspace that holds it
/// and inserts it into the first workspace with the given tag; no other
/// client changes workspace, and no workspace is added, removed or renamed.
/// Where every client was held once, every client still is, and the client
/// is afterwards found under the given tag.
#[verifier::external_body]
pub(crate) fn move_client(cs: &mut penrose::pure::StackSet<penrose::Xid>, id: u32, tag: &str)
    ensures
        !known_tags(*old(cs)).contains(tag@) || !client_tags(*old(cs)).dom().contains(id)
            ==> *final(cs) == *old(cs),
        known_tags(*final(cs)) == known_tags(*old(cs)),
        each_client_once(*old(cs)) ==> each_client_once(*final(cs)),
        client_tags(*final(cs)).dom() == client_tags(*old(cs)).dom(),
        forall|other: u32|
            other != id && client_tags(*old(cs)).dom().contains(other) ==> #[trigger] client_tags(
                *final(cs),
            )[other] == client_tags(*old(cs))[other],
        each_client_once(*old(cs)) && known_tags(*old(cs)).contains(tag@) && client_tags(
            *old(cs),
        ).dom().contains(id) ==> client_tags(*final(cs))[id] == tag@,
{
    cs.move_client_to_tag(&penrose::Xid::from(id), tag)
}

} // verus!
