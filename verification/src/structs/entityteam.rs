use vstd::prelude::*;

verus! {

/// The team an entity plays for.
#[derive(Clone, Copy, PartialEq, Eq, Structural, Debug)]
pub enum EntityTeam {
    CT,
    T,
    SPECTATOR,
    NONE,
}

/// The game's number for a team: CT 3, T 2, spectator 1, none 0.
pub open spec fn team_number(team: EntityTeam) -> i32 {
    match team {
        EntityTeam::CT => 3,
        EntityTeam::T => 2,
        EntityTeam::SPECTATOR => 1,
        EntityTeam::NONE => 0,
    }
}

impl EntityTeam {
    /// The game's number for the team (`m_iTeamNum`).
    pub fn raw(self) -> (n: i32)
        ensures
            n == team_number(self),
    {
        match self {
            EntityTeam::CT => 3,
            EntityTeam::T => 2,
            EntityTeam::SPECTATOR => 1,
            EntityTeam::NONE => 0,
        }
    }

    /// The team with the game's number `n`, if there is one.
    pub fn from_raw(n: i32) -> (team: Option<EntityTeam>)
        ensures
            match team {
                Some(t) => team_number(t) == n,
                None => 0 > n || n > 3,
            },
    {
        if n == 3 {
            Some(EntityTeam::CT)
        } else if n == 2 {
            Some(EntityTeam::T)
        } else if n == 1 {
            Some(EntityTeam::SPECTATOR)
        } else if n == 0 {
            Some(EntityTeam::NONE)
        } else {
            None
        }
    }
}

/// A team's number reads back as the same team.
pub proof fn lemma_team_number_round_trip(team: EntityTeam)
    ensures
        0 <= team_number(team) <= 3,
        forall|other: EntityTeam| team_number(other) == team_number(team) ==> other == team,
{
}

} // verus!
