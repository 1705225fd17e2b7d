//! What the chat platform knows of a community at one moment: its roles and
//! its channels, as plain values.

use vstd::prelude::*;

verus! {

/// A membership tag of a community.
#[derive(Clone, PartialEq, Eq, Debug)]
pub struct Role {
    pub id: u64,
    pub name: String,
}

/// [`Role`] as contracts see it.
pub struct RoleView {
    pub id: u64,
    pub name: Seq<char>,
}

impl View for Role {
    type V = RoleView;

    open spec fn view(&self) -> RoleView {
        RoleView { id: self.id, name: self.name@ }
    }
}

/// A community with the roles and the channels it has.
#[derive(Clone, PartialEq, Eq, Debug)]
pub struct Community {
    pub id: u64,
    pub roles: Vec<Role>,
    pub channel_ids: Vec<u64>,
}

/// [`Community`] as contracts see it.
pub struct CommunityView {
    pub id: u64,
    pub roles: Seq<RoleView>,
    pub channel_ids: Seq<u64>,
}

impl View for Community {
    type V = CommunityView;

    open spec fn view(&self) -> CommunityView {
        CommunityView {
            id: self.id,
            roles: self.roles@.map_values(|r: Role| r@),
            channel_ids: self.channel_ids@,
        }
    }
}

/// The views of a list of communities, in the same order.
pub open spec fn community_views(communities: Seq<Community>) -> Seq<CommunityView> {
    communities.map_values(|c: Community| c@)
}

/// The id of the first role called `name`, if there is one.
pub open spec fn role_named(roles: Seq<RoleView>, name: Seq<char>) -> Option<u64>
    decreases roles.len(),
{
    if roles.len() == 0 {
        None
    } else if roles[0].name == name {
        Some(roles[0].id)
    } else {
        role_named(roles.drop_first(), name)
    }
}

/// The position of the first community that has the channel `channel_id`,
/// if one has it.
pub open spec fn community_with_channel(communities: Seq<CommunityView>, channel_id: u64) -> Option<
    int,
>
    decreases communities.len(),
{
    if communities.len() == 0 {
        None
    } else if communities[0].channel_ids.contains(channel_id) {
        Some(0)
    } else {
        match community_with_channel(communities.drop_first(), channel_id) {
            Some(i) => Some(i + 1),
            None => None,
        }
    }
}

/// A role is found by name exactly when some role carries that name.
pub proof fn lemma_role_named_iff_present(roles: Seq<RoleView>, name: Seq<char>)
    ensures
        role_named(roles, name) is Some <==> exists|i: int|
            0 <= i < roles.len() && roles[i].name == name,
    decreases roles.len(),
{
    if roles.len() > 0 && roles[0].name != name {
        let rest = roles.drop_first();
        lemma_role_named_iff_present(rest, name);
        if role_named(rest, name) is Some {
            let i = choose|i: int| 0 <= i < rest.len() && rest[i].name == name;
            assert(roles[i + 1].name == name);
        }
        if exists|i: int| 0 <= i < roles.len() && roles[i].name == name {
            let i = choose|i: int| 0 <= i < roles.len() && roles[i].name == name;
            assert(rest[i - 1].name == name);
        }
    }
}

/// Where a community is found, it is one of the list and has the channel,
/// and none before it has.
pub proof fn lemma_community_with_channel(communities: Seq<CommunityView>, channel_id: u64)
    ensures
        match community_with_channel(communities, channel_id) {
            Some(i) => 0 <= i < communities.len() && communities[i].channel_ids.contains(
                channel_id,
            ) && forall|j: int| 0 <= j < i ==> !communities[j].channel_ids.contains(channel_id),
            None => forall|j: int|
                0 <= j < communities.len() ==> !communities[j].channel_ids.contains(channel_id),
        },
    decreases communities.len(),
{
    if communities.len() > 0 && !communities[0].channel_ids.contains(channel_id) {
        let rest = communities.drop_first();
        lemma_community_with_channel(rest, channel_id);
        match community_with_channel(rest, channel_id) {
            Some(i) => {
                assert forall|j: int| 0 <= j < i + 1 implies !communities[j].channel_ids.contains(
                    channel_id,
                ) by {
                    if j > 0 {
                        assert(communities[j] == rest[j - 1]);
                    }
                }
            },
            None => {
                assert forall|j: int|
                    0 <= j < communities.len() implies !communities[j].channel_ids.contains(
                    channel_id,
                ) by {
                    if j > 0 {
                        assert(communities[j] == rest[j - 1]);
                    }
                }
            },
        }
    }
}

/// Where a community is found depends on the channels alone: two lists whose
/// communities have the same channels, one by one, give the same place.
pub proof fn lemma_location_ignores_roles(
    a: Seq<CommunityView>,
    b: Seq<CommunityView>,
    channel_id: u64,
)
    requires
        a.len() == b.len(),
        forall|i: int| 0 <= i < a.len() ==> a[i].channel_ids == b[i].channel_ids,
    ensures
        community_with_channel(a, channel_id) == community_with_channel(b, channel_id),
    decreases a.len(),
{
    if a.len() > 0 {
        assert(a[0].channel_ids == b[0].channel_ids);
        assert forall|i: int| 0 <= i < a.drop_first().len() implies a.drop_first()[i].channel_ids
            == b.drop_first()[i].channel_ids by {
            assert(a.drop_first()[i] == a[i + 1]);
            assert(b.drop_first()[i] == b[i + 1]);
        }
        lemma_location_ignores_roles(a.drop_first(), b.drop_first(), channel_id);
    }
}

impl Community {
    /// Looks a role up by its name.
    pub fn role_named(&self, name: &String) -> (found: Option<u64>)
        ensures
            found == role_named(self@.roles, name@),
    {
        let ghost roles = self@.roles;
        let mut i: usize = 0;
        assert(roles.skip(0) =~= roles);
        while i < self.roles.len()
            invariant
                i <= self.roles.len(),
                roles == self@.roles,
                role_named(roles, name@) == role_named(roles.skip(i as int), name@),
            decreases self.roles.len() - i,
        {
            assert(roles.skip(i as int)[0] == self.roles[i as int]@);
            if self.roles[i].name == *name {
                return Some(self.roles[i].id);
            }
            assert(roles.skip(i as int).drop_first() =~= roles.skip(i + 1));
            i = i + 1;
        }
        None
    }

    /// Whether the community has the channel `channel_id`.
    pub fn has_channel(&self, channel_id: u64) -> (found: bool)
        ensures
            found == self@.channel_ids.contains(channel_id),
    {
        let mut i: usize = 0;
        while i < self.channel_ids.len()
            invariant
                i <= self.channel_ids.len(),
                forall|j: int| 0 <= j < i ==> self.channel_ids[j] != channel_id,
            decreases self.channel_ids.len() - i,
        {
            if self.channel_ids[i] == channel_id {
                return true;
            }
            i = i + 1;
        }
        false
    }
}

/// Finds the community that a channel belongs to.
pub fn locate_community(communities: &Vec<Community>, channel_id: u64) -> (found: Option<usize>)
    ensures
        match found {
            Some(i) => community_with_channel(community_views(communities@), channel_id) == Some(
                i as int,
            ) && i < communities.len(),
            None => community_with_channel(community_views(communities@), channel_id) is None,
        },
{
    let ghost views = community_views(communities@);
    let mut i: usize = 0;
    assert(views.skip(0) =~= views);
    while i < communities.len()
        invariant
            i <= communities.len(),
            views == community_views(communities@),
            community_with_channel(views, channel_id) == match community_with_channel(
                views.skip(i as int),
                channel_id,
            ) {
                Some(k) => Some(k + i),
                None => None,
            },
        decreases communities.len() - i,
    {
        assert(views.skip(i as int)[0] == communities[i as int]@);
        if communities[i].has_channel(channel_id) {
            return Some(i);
        }
        assert(views.skip(i as int).drop_first() =~= views.skip(i + 1));
        i = i + 1;
    }
    None
}

} // verus!
