//! The session records: one `Game` per session, one `Action` per accepted
//! turn, and the typed errors the state machine reports.

use vstd::prelude::*;
use vstd::string::StringExecFns;

verus! {

/// Why a session operation was refused.
#[derive(Clone, Copy, PartialEq, Eq, Debug)]
pub enum GameError {
    /// The referenced session id does not exist.
    NotFound,
    /// The session has already been ended.
    NotActive,
    /// The session has already been started.
    AlreadyStarted,
    /// A start was requested with fewer than two players.
    InsufficientPlayers,
    /// A join was requested against a session at the player ceiling.
    Full,
    /// The actor is not the player whose turn it is.
    WrongTurn,
}

/// One turn-based session.
pub struct Game {
    /// Unique, sequentially assigned, never reused.
    pub id: u64,
    /// Participants in join order; the order defines the turn rotation.
    pub players: Vec<String>,
    /// True from creation until the session is ended; false is terminal.
    pub is_active: bool,
    /// Index into `players` of the player whose turn it is.
    pub current_player_index: usize,
    /// The latest chained fingerprint of the session's history.
    pub state_hash: String,
    /// Logical time of the most recent accepted mutation.
    pub last_action_timestamp: u64,
    /// Number of accepted actions.
    pub turn_count: u64,
    /// Rotation direction; kept for future reversal support, never consulted.
    pub direction_clockwise: bool,
    /// False until a start succeeds; once true, never reverts.
    pub is_started: bool,
}

/// One accepted turn.
pub struct Action {
    /// The player who submitted it.
    pub player: String,
    /// The caller-supplied opaque fingerprint of the action's content.
    pub action_hash: String,
    /// Logical time of acceptance.
    pub timestamp: u64,
}

/// The mathematical value of a `Game`.
#[verifier::ext_equal]
pub ghost struct GameView {
    pub id: u64,
    pub players: Seq<Seq<char>>,
    pub is_active: bool,
    pub current_player_index: usize,
    pub state_hash: Seq<char>,
    pub last_action_timestamp: u64,
    pub turn_count: u64,
    pub direction_clockwise: bool,
    pub is_started: bool,
}

/// The mathematical value of an `Action`.
#[verifier::ext_equal]
pub ghost struct ActionView {
    pub player: Seq<char>,
    pub action_hash: Seq<char>,
    pub timestamp: u64,
}

/// The names held by a sequence of strings.
pub open spec fn names_of(s: Seq<String>) -> Seq<Seq<char>> {
    s.map_values(|p: String| p@)
}

/// The values held by a sequence of action records.
pub open spec fn actions_view(s: Seq<Action>) -> Seq<ActionView> {
    s.map_values(|a: Action| a@)
}

impl View for Game {
    type V = GameView;

    open spec fn view(&self) -> GameView {
        GameView {
            id: self.id,
            players: names_of(self.players@),
            is_active: self.is_active,
            current_player_index: self.current_player_index,
            state_hash: self.state_hash@,
            last_action_timestamp: self.last_action_timestamp,
            turn_count: self.turn_count,
            direction_clockwise: self.direction_clockwise,
            is_started: self.is_started,
        }
    }
}

impl View for Action {
    type V = ActionView;

    open spec fn view(&self) -> ActionView {
        ActionView {
            player: self.player@,
            action_hash: self.action_hash@,
            timestamp: self.timestamp,
        }
    }
}

impl GameView {
    /// A well-formed session: one to ten players, and the turn pointer in
    /// range.
    pub open spec fn wf(self) -> bool {
        &&& 1 <= self.players.len() <= 10
        &&& (self.current_player_index as int) < self.players.len()
    }
}

impl Clone for Action {
    /// An action record clones to an equal record.
    fn clone(&self) -> (r: Self)
        ensures
            r == *self,
    {
        Action {
            player: self.player.clone(),
            action_hash: self.action_hash.clone(),
            timestamp: self.timestamp,
        }
    }
}

impl Clone for Game {
    /// A session record clones to one with the same value.
    fn clone(&self) -> (r: Self)
        ensures
            r@ == self@,
    {
        let players = self.players.clone();
        proof {
            assert(forall|i: int|
                0 <= i < self.players@.len() ==> players@[i] == self.players@[i]);
            assert(players@ =~= self.players@);
        }
        Game {
            id: self.id,
            players,
            is_active: self.is_active,
            current_player_index: self.current_player_index,
            state_hash: self.state_hash.clone(),
            last_action_timestamp: self.last_action_timestamp,
            turn_count: self.turn_count,
            direction_clockwise: self.direction_clockwise,
            is_started: self.is_started,
        }
    }
}

/// The players joined into one text, in order, separated by commas.
pub open spec fn spec_joined_names(names: Seq<Seq<char>>) -> Seq<char>
    decreases names.len(),
{
    if names.len() == 0 {
        Seq::empty()
    } else if names.len() == 1 {
        names[0]
    } else {
        spec_joined_names(names.drop_last()) + seq![','] + names.last()
    }
}

/// Joins the given names into one comma-separated string.
pub fn joined_names(names: &Vec<String>) -> (r: String)
    ensures
        r@ == spec_joined_names(names_of(names@)),
{
    let mut r = String::new();
    let mut i: usize = 0;
    while i < names.len()
        invariant
            i <= names.len(),
            r@ == spec_joined_names(names_of(names@).take(i as int)),
        decreases names.len() - i,
    {
        let ghost gi = i as int;
        if i > 0 {
            r.append(",");
        }
        r.append(names[i].as_str());
        proof {
            reveal_strlit(",");
            let nv = names_of(names@);
            assert(nv.take(gi + 1).drop_last() =~= nv.take(gi));
            assert(nv.take(gi + 1).last() == nv[gi]);
            assert(r@ =~= spec_joined_names(nv.take(gi + 1)));
        }
        i = i + 1;
    }
    proof {
        let nv = names_of(names@);
        assert(nv.take(names@.len() as int) =~= nv);
    }
    r
}

} // verus!
