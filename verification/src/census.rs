//! The cluster census, as the updater reads it.
//!
//! The gossip layer produces a read-only view of each service group: its
//! members with the package identity each one advertises, plus four
//! distinguished slots — the local member, the group's work leader, the
//! elected update leader, and the member immediately preceding the local
//! one in the group's deterministic ordering. The updater only reads this
//! view; it is handed in fresh on every tick.

use crate::ident::{opt_ident_view, IdentView, PackageIdent};
use vstd::prelude::*;

verus! {

/// The mathematical value of one census member.
#[verifier::ext_equal]
pub ghost struct MemberView {
    pub member_id: Seq<char>,
    pub pkg: Option<IdentView>,
}

/// One member of a census group: its cluster-wide identifier and the
/// package identity it advertises, if its rumor carried a readable one.
#[derive(Debug)]
pub struct CensusMember {
    pub member_id: String,
    pub pkg: Option<PackageIdent>,
}

impl View for CensusMember {
    type V = MemberView;

    open spec fn view(&self) -> MemberView {
        MemberView { member_id: self.member_id@, pkg: opt_ident_view(self.pkg) }
    }
}

/// The mathematical value of a census group.
#[verifier::ext_equal]
pub ghost struct GroupView {
    pub me: Option<MemberView>,
    pub leader: Option<MemberView>,
    pub update_leader: Option<MemberView>,
    pub previous_peer: Option<MemberView>,
    pub members: Seq<MemberView>,
}

/// The census view of one service group.
#[derive(Debug)]
pub struct CensusGroup {
    /// The local member.
    pub me: Option<CensusMember>,
    /// The group's work leader, where the topology elects one.
    pub leader: Option<CensusMember>,
    /// The member elected to coordinate a rolling upgrade.
    pub update_leader: Option<CensusMember>,
    /// The member immediately preceding `me` in the group's deterministic
    /// ordering.
    pub previous_peer: Option<CensusMember>,
    /// Every member of the group.
    pub members: Vec<CensusMember>,
}

/// View of an optional member.
pub open spec fn opt_member_view(m: Option<CensusMember>) -> Option<MemberView> {
    match m {
        Some(member) => Some(member@),
        None => None,
    }
}

impl View for CensusGroup {
    type V = GroupView;

    open spec fn view(&self) -> GroupView {
        GroupView {
            me: opt_member_view(self.me),
            leader: opt_member_view(self.leader),
            update_leader: opt_member_view(self.update_leader),
            previous_peer: opt_member_view(self.previous_peer),
            members: self.members@.map_values(|m: CensusMember| m@),
        }
    }
}

/// View of the census slot for one group: `None` while the gossip layer
/// has not yet produced a view for it.
pub open spec fn opt_group_view(g: Option<&CensusGroup>) -> Option<GroupView> {
    match g {
        Some(group) => Some(group@),
        None => None,
    }
}

} // verus!
