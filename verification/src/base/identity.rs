//! Who a player is, and which players the detectors follow.

use vstd::prelude::*;
use crate::base::state::{
    find_player, CheatAnalyserState, Player, PlayerState, PlayerView, StateView,
};
use crate::util::steamid::{parse_steam3, steam3_id64};
use crate::util::text::same_text;

verus! {

/// The persistent identity under which the detectors follow a player, or
/// `None` for a player that they leave alone.
///
/// A player is followed while it is visible to the recording client and
/// alive, and if its identity record names a person: the placeholder `BOT`,
/// and a text that denotes no identity, name none.
pub open spec fn tracked_identity(p: PlayerView) -> Option<u64> {
    if p.in_pvs && p.state == PlayerState::Alive {
        match p.info {
            Some(info) => if info.steam_id == "BOT"@ {
                None
            } else {
                steam3_id64(info.steam_id)
            },
            None => None,
        }
    } else {
        None
    }
}

/// Whether the detectors get to see a player: it is visible to the recording
/// client, alive, and its identity record is there and is not the placeholder
/// `BOT`.
pub open spec fn is_visible(p: PlayerView) -> bool {
    p.in_pvs && p.state == PlayerState::Alive && match p.info {
        Some(info) => info.steam_id != "BOT"@,
        None => false,
    }
}

/// Those of the first `n` players that the detectors get to see, in their
/// order.
pub open spec fn visible_players(players: Seq<PlayerView>, n: int) -> Seq<PlayerView>
    decreases n,
{
    if n <= 0 {
        Seq::empty()
    } else if is_visible(players[n - 1]) {
        visible_players(players, n - 1).push(players[n - 1])
    } else {
        visible_players(players, n - 1)
    }
}

/// The state as the detectors get to see it at a tick boundary: the state
/// itself, with the players limited to the visible ones.
pub open spec fn detector_view(s: StateView) -> StateView {
    StateView { players: visible_players(s.players, s.players.len() as int), ..s }
}

/// Every player that a detector follows is among the players that the
/// detectors get to see.
pub proof fn lemma_followed_is_visible(p: PlayerView)
    requires
        tracked_identity(p) is Some,
    ensures
        is_visible(p),
{
}

/// The position of the first of the first `n` players whose identity record
/// carries the given user id.
pub open spec fn user_slot(players: Seq<PlayerView>, user_id: u16, n: int) -> Option<int>
    decreases n,
{
    if n <= 0 {
        None
    } else {
        match user_slot(players, user_id, n - 1) {
            Some(i) => Some(i),
            None => if has_user_id(players[n - 1], user_id) {
                Some(n - 1)
            } else {
                None
            },
        }
    }
}

/// Whether a player's identity record carries the given user id.
pub open spec fn has_user_id(p: PlayerView, user_id: u16) -> bool {
    match p.info {
        Some(info) => info.user_id == user_id,
        None => false,
    }
}

/// The identity that a player's record denotes, whether or not the player is
/// followed.
pub open spec fn recorded_identity(p: PlayerView) -> Option<u64> {
    match p.info {
        Some(info) => steam3_id64(info.steam_id),
        None => None,
    }
}

/// The identity of the first player that carries the given user id.
pub open spec fn identity_of_user(players: Seq<PlayerView>, user_id: u16) -> Option<u64> {
    match user_slot(players, user_id, players.len() as int) {
        Some(i) => recorded_identity(players[i]),
        None => None,
    }
}

/// The identity behind an entity handle: that of the user whose id the
/// entity's player carries.
pub open spec fn identity_of_entity(players: Seq<PlayerView>, entity: u32) -> Option<u64> {
    match find_player(players, entity) {
        Some(i) => match players[i].info {
            Some(info) => identity_of_user(players, info.user_id),
            None => None,
        },
        None => None,
    }
}

proof fn lemma_user_slot_stays(players: Seq<PlayerView>, user_id: u16, n: int, m: int)
    requires
        0 <= n <= m,
        user_slot(players, user_id, n) is Some,
    ensures
        user_slot(players, user_id, m) == user_slot(players, user_id, n),
    decreases m - n,
{
    if n < m {
        lemma_user_slot_stays(players, user_id, n, m - 1);
    }
}

impl Player {
    /// The identity under which the detectors follow this player, if they do.
    pub fn tracked_identity(&self) -> (id: Option<u64>)
        ensures
            id == tracked_identity(self@),
    {
        if !self.in_pvs {
            return None;
        }
        match self.state {
            PlayerState::Alive => {},
            _ => {
                return None;
            },
        }
        match &self.info {
            Some(info) => {
                if same_text(info.steam_id.as_str(), "BOT") {
                    None
                } else {
                    parse_steam3(info.steam_id.as_str())
                }
            },
            None => None,
        }
    }

    /// The identity that this player's record denotes.
    pub fn recorded_identity(&self) -> (id: Option<u64>)
        ensures
            id == recorded_identity(self@),
    {
        match &self.info {
            Some(info) => parse_steam3(info.steam_id.as_str()),
            None => None,
        }
    }
}

impl CheatAnalyserState {
    /// The identity of the user with the given id, if a player carries it.
    pub fn get_id64_from_userid(&self, user_id: u16) -> (id: Option<u64>)
        ensures
            id == identity_of_user(self@.players, user_id),
    {
        let mut i: usize = 0;
        while i < self.players.len()
            invariant
                i <= self.players.len(),
                user_slot(self@.players, user_id, i as int) is None,
            decreases self.players.len() - i,
        {
            let carries = match &self.players[i].info {
                Some(info) => info.user_id == user_id,
                None => false,
            };
            if carries {
                proof {
                    lemma_user_slot_stays(
                        self@.players,
                        user_id,
                        i as int + 1,
                        self.players@.len() as int,
                    );
                }
                return self.players[i].recorded_identity();
            }
            i += 1;
        }
        None
    }

    /// The identity behind an entity handle.
    pub fn get_id64_from_entity(&self, entity_id: u32) -> (id: Option<u64>)
        ensures
            id == identity_of_entity(self@.players, entity_id),
    {
        match self.player_index(entity_id) {
            Some(i) => match &self.players[i].info {
                Some(info) => self.get_id64_from_userid(info.user_id),
                None => None,
            },
            None => None,
        }
    }
}

} // verus!
