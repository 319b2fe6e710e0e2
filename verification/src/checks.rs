//! Who may run which command, and who owns the bot.

use vstd::prelude::*;

verus! {

/// Where a member of the application's team stands.
#[derive(Debug, Clone, Copy, PartialEq, Eq, Structural)]
pub enum Membership {
    Invited,
    Accepted,
    Unknown,
}

/// A member of the team that owns the application.
#[derive(Debug, Clone, Copy, PartialEq, Eq, Structural)]
pub struct TeamMember {
    pub user_id: u64,
    pub membership: Membership,
}

/// The ids of the members that accepted, in team order.
pub open spec fn accepted_ids(members: Seq<TeamMember>) -> Seq<u64>
    decreases members.len(),
{
    if members.len() == 0 {
        Seq::empty()
    } else {
        let rest = accepted_ids(members.drop_last());
        if members.last().membership == Membership::Accepted {
            rest.push(members.last().user_id)
        } else {
            rest
        }
    }
}

/// The bot's owners: the team members that accepted where the application
/// belongs to a team, else its single owner.
pub open spec fn owners_of(team: Option<Seq<TeamMember>>, owner: u64) -> Seq<u64> {
    match team {
        Some(members) => accepted_ids(members),
        None => seq![owner],
    }
}

/// The ids of the bot's owners.
pub fn owner_ids(team: Option<Vec<TeamMember>>, owner: u64) -> (ids: Vec<u64>)
    ensures
        ids@ == owners_of(
            match team {
                Some(m) => Some(m@),
                None => None,
            },
            owner,
        ),
        team is None ==> ids@ == seq![owner],
        team matches Some(m) ==> forall|i: int| 0 <= i < m@.len() && (#[trigger] m@[i]).membership == Membership::Accepted
            ==> ids@.contains(m@[i].user_id),
        team matches Some(m) ==> forall|id: u64| (#[trigger] ids@.contains(id)) ==> exists|i: int| 0 <= i < m@.len()
            && (#[trigger] m@[i]).user_id == id && m@[i].membership == Membership::Accepted,
{
    match team {
        Some(members) => {
            let mut ids: Vec<u64> = Vec::new();
            let n = members.len();
            let mut i: usize = 0;
            while i < n
                invariant
                    n == members@.len(),
                    i <= n,
                    ids@ == accepted_ids(members@.take(i as int)),
                decreases n - i,
            {
                let m = members[i];
                proof {
                    assert(members@.take(i + 1).drop_last() == members@.take(i as int));
                    assert(members@.take(i + 1).last() == m);
                }
                if m.membership == Membership::Accepted {
                    ids.push(m.user_id);
                }
                i = i + 1;
            }
            assert(members@.take(n as int) == members@);
            proof {
                lemma_team_owners_are_accepted_members(members@);
            }
            ids
        },
        None => {
            let mut ids: Vec<u64> = Vec::new();
            ids.push(owner);
            ids
        },
    }
}

/// Every owner id of a team belongs to a member who accepted.
pub proof fn lemma_owners_accepted(members: Seq<TeamMember>, id: u64)
    requires
        accepted_ids(members).contains(id),
    ensures
        exists|i: int| 0 <= i < members.len() && #[trigger] members[i].user_id == id
            && members[i].membership == Membership::Accepted,
    decreases members.len(),
{
    let rest = accepted_ids(members.drop_last());
    let last = members.last();
    if last.membership == Membership::Accepted && id == last.user_id {
        assert(members[members.len() - 1].user_id == id);
    } else {
        if last.membership == Membership::Accepted {
            let k = choose|k: int| 0 <= k < rest.push(last.user_id).len() && rest.push(last.user_id)[k] == id;
            assert(k < rest.len());
            assert(rest[k] == id);
        }
        assert(rest.contains(id));
        lemma_owners_accepted(members.drop_last(), id);
        let i = choose|i: int| 0 <= i < members.drop_last().len() && #[trigger] members.drop_last()[i].user_id == id
            && members.drop_last()[i].membership == Membership::Accepted;
        assert(members[i] == members.drop_last()[i]);
    }
}

/// Every member who accepted is an owner.
pub proof fn lemma_accepted_members_are_owners(members: Seq<TeamMember>, i: int)
    requires
        0 <= i < members.len(),
        members[i].membership == Membership::Accepted,
    ensures
        accepted_ids(members).contains(members[i].user_id),
    decreases members.len(),
{
    let rest = accepted_ids(members.drop_last());
    if i == members.len() - 1 {
        assert(accepted_ids(members) == rest.push(members[i].user_id));
        assert(rest.push(members[i].user_id)[rest.len() as int] == members[i].user_id);
    } else {
        lemma_accepted_members_are_owners(members.drop_last(), i);
        assert(members.drop_last()[i] == members[i]);
        let k = choose|k: int| 0 <= k < rest.len() && rest[k] == members[i].user_id;
        if members.last().membership == Membership::Accepted {
            assert(rest.push(members.last().user_id)[k] == members[i].user_id);
        }
    }
}

/// A team's owners are exactly the ids of its members who accepted.
pub proof fn lemma_team_owners_are_accepted_members(members: Seq<TeamMember>)
    ensures
        forall|i: int| 0 <= i < members.len() && (#[trigger] members[i]).membership == Membership::Accepted
            ==> accepted_ids(members).contains(members[i].user_id),
        forall|id: u64| (#[trigger] accepted_ids(members).contains(id)) ==> exists|i: int| 0 <= i < members.len()
            && (#[trigger] members[i]).user_id == id && members[i].membership == Membership::Accepted,
{
    assert forall|i: int| 0 <= i < members.len() && (#[trigger] members[i]).membership == Membership::Accepted
        implies accepted_ids(members).contains(members[i].user_id) by {
        lemma_accepted_members_are_owners(members, i);
    }
    assert forall|id: u64| (#[trigger] accepted_ids(members).contains(id)) implies exists|i: int| 0 <= i < members.len()
        && (#[trigger] members[i]).user_id == id && members[i].membership == Membership::Accepted by {
        lemma_owners_accepted(members, id);
    }
}

/// Whether the author of a command is one of the bot's owners.
pub fn is_owner(owner_ids: &Vec<u64>, author: u64) -> (r: bool)
    ensures
        r == owner_ids@.contains(author),
{
    let n = owner_ids.len();
    let mut i: usize = 0;
    while i < n
        invariant
            n == owner_ids@.len(),
            i <= n,
            forall|j: int| 0 <= j < i ==> owner_ids@[j] != author,
        decreases n - i,
    {
        if owner_ids[i] == author {
            return true;
        }
        i = i + 1;
    }
    false
}

/// Whether a command was sent in a guild (it then has a guild id).
pub fn is_guild(guild_id: Option<u64>) -> (r: bool)
    ensures
        r == guild_id is Some,
{
    guild_id.is_some()
}

} // verus!
