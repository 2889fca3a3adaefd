//! The session store and state machine: a keyed collection of sessions and
//! their action histories, a monotonic id counter, and the transition
//! functions that drive them.

use std::collections::HashMap;

use vstd::prelude::*;

use crate::session::Action;
use crate::session::ActionView;
use crate::session::Game;
use crate::session::GameError;
use crate::session::GameView;
use crate::session::actions_view;
use crate::session::joined_names;
use crate::session::names_of;
use crate::session::spec_joined_names;
use crate::fingerprint::chain_fingerprint;
use crate::fingerprint::seed_fingerprint;
use crate::fingerprint::spec_chain_fingerprint;
use crate::fingerprint::spec_seed_fingerprint;

verus! {

broadcast use vstd::std_specs::hash::group_hash_axioms;

/// The whole store: the sessions, their action histories, and the id counter.
pub struct Contract {
    games: HashMap<u64, Game>,
    game_actions: HashMap<u64, Vec<Action>>,
    game_counter: u64,
}

/// The mathematical value of the store.
#[verifier::ext_equal]
pub ghost struct ContractView {
    pub games: Map<u64, GameView>,
    pub actions: Map<u64, Seq<ActionView>>,
    pub counter: u64,
}

/// The session values held by a map of session records.
pub open spec fn games_view(m: Map<u64, Game>) -> Map<u64, GameView> {
    m.map_values(|g: Game| g@)
}

/// The action values held by a map of action histories.
pub open spec fn actions_map_view(m: Map<u64, Vec<Action>>) -> Map<u64, Seq<ActionView>> {
    m.map_values(|v: Vec<Action>| actions_view(v@))
}

impl View for Contract {
    type V = ContractView;

    closed spec fn view(&self) -> ContractView {
        ContractView {
            games: games_view(self.games@),
            actions: actions_map_view(self.game_actions@),
            counter: self.game_counter,
        }
    }
}

impl ContractView {
    /// The recorded history of a session: empty when none was stored.
    pub open spec fn actions_of(self, id: u64) -> Seq<ActionView> {
        if self.actions.contains_key(id) {
            self.actions[id]
        } else {
            Seq::empty()
        }
    }

    /// The store invariant: every session is well formed, is stored under
    /// its own id, has an id the counter has reached, and counts exactly the
    /// actions of its recorded history; histories belong to stored sessions.
    pub open spec fn wf(self) -> bool {
        &&& forall|id: u64| #[trigger] self.games.contains_key(id) ==> {
            &&& self.games[id].wf()
            &&& self.games[id].id == id
            &&& 1 <= id <= self.counter
            &&& self.games[id].turn_count == self.actions_of(id).len()
        }
        &&& forall|id: u64| #[trigger] self.actions.contains_key(id) ==> self.games.contains_key(
            id,
        )
    }
}

/// Creating a session: the next sequential id, the creator as sole player,
/// and a fingerprint seeded from the id and the creator.
pub open spec fn spec_create_game(c: ContractView, creator: Seq<char>, ts: u64) -> (ContractView,
    u64) {
    let id = (c.counter + 1) as u64;
    let g = GameView {
        id,
        players: seq![creator],
        is_active: true,
        current_player_index: 0,
        state_hash: spec_seed_fingerprint(id, creator),
        last_action_timestamp: ts,
        turn_count: 0,
        direction_clockwise: true,
        is_started: false,
    };
    (ContractView { games: c.games.insert(id, g), counter: id, ..c }, id)
}

/// Starting a session: allowed once, only while the session is active, and
/// only with at least two players; on success the fingerprint is re-seeded
/// from the comma-joined player list.
pub open spec fn spec_start_game(c: ContractView, id: u64, ts: u64) -> (ContractView, Result<
    (),
    GameError,
>) {
    if !c.games.contains_key(id) {
        (c, Err(GameError::NotFound))
    } else {
        let g = c.games[id];
        if !g.is_active {
            (c, Err(GameError::NotActive))
        } else if g.is_started {
            (c, Err(GameError::AlreadyStarted))
        } else if g.players.len() < 2 {
            (c, Err(GameError::InsufficientPlayers))
        } else {
            let g2 = GameView {
                is_started: true,
                state_hash: spec_seed_fingerprint(id, spec_joined_names(g.players)),
                last_action_timestamp: ts,
                ..g
            };
            (ContractView { games: c.games.insert(id, g2), ..c }, Ok(()))
        }
    }
}

/// Joining a session: allowed while the session is active and below ten
/// players; the joinee is appended at the end of the rotation.
pub open spec fn spec_join_game(c: ContractView, id: u64, joinee: Seq<char>) -> (ContractView,
    Result<(), GameError>) {
    if !c.games.contains_key(id) {
        (c, Err(GameError::NotFound))
    } else {
        let g = c.games[id];
        if !g.is_active {
            (c, Err(GameError::NotActive))
        } else if g.players.len() >= 10 {
            (c, Err(GameError::Full))
        } else {
            let g2 = GameView { players: g.players.push(joinee), ..g };
            (ContractView { games: c.games.insert(id, g2), ..c }, Ok(()))
        }
    }
}

/// Submitting an action: allowed while the session is active, and only for
/// the player whose turn it is; on success the fingerprint is chained with
/// the submitted hash, the action is appended to the history, the turn
/// pointer advances by one modulo the player count, and the turn count
/// increments by one.
pub open spec fn spec_submit_action(
    c: ContractView,
    id: u64,
    hash: Seq<char>,
    actor: Seq<char>,
    ts: u64,
) -> (ContractView, Result<(), GameError>) {
    if !c.games.contains_key(id) {
        (c, Err(GameError::NotFound))
    } else {
        let g = c.games[id];
        if !g.is_active {
            (c, Err(GameError::NotActive))
        } else if g.players[g.current_player_index as int] != actor {
            (c, Err(GameError::WrongTurn))
        } else {
            let g2 = GameView {
                state_hash: spec_chain_fingerprint(g.state_hash, hash),
                turn_count: (g.turn_count + 1) as u64,
                current_player_index: (((g.current_player_index + 1) as int) % (
                g.players.len() as int)) as usize,
                last_action_timestamp: ts,
                ..g
            };
            let act = ActionView { player: actor, action_hash: hash, timestamp: ts };
            (
                ContractView {
                    games: c.games.insert(id, g2),
                    actions: c.actions.insert(id, c.actions_of(id).push(act)),
                    ..c
                },
                Ok(()),
            )
        }
    }
}

/// Ending a session: allowed while the session is active, and only for the
/// player whose turn it is; on success the session becomes inactive, which
/// is terminal.
pub open spec fn spec_end_game(c: ContractView, id: u64, actor: Seq<char>) -> (ContractView, Result<
    (),
    GameError,
>) {
    if !c.games.contains_key(id) {
        (c, Err(GameError::NotFound))
    } else {
        let g = c.games[id];
        if !g.is_active {
            (c, Err(GameError::NotActive))
        } else if g.players[g.current_player_index as int] != actor {
            (c, Err(GameError::WrongTurn))
        } else {
            let g2 = GameView { is_active: false, ..g };
            (ContractView { games: c.games.insert(id, g2), ..c }, Ok(()))
        }
    }
}

/// Sessions that were started stay started from `before` to `after`.
pub open spec fn started_stays(before: ContractView, after: ContractView) -> bool {
    forall|id: u64|
        before.games.contains_key(id) && (#[trigger] before.games[id]).is_started
            ==> after.games.contains_key(id) && after.games[id].is_started
}

impl Default for Contract {
    /// The empty store: no sessions, no histories, and the counter at zero.
    fn default() -> (r: Self)
        ensures
            r@.wf(),
            r@.games == Map::<u64, GameView>::empty(),
            r@.actions == Map::<u64, Seq<ActionView>>::empty(),
            r@.counter == 0,
    {
        let r = Contract { games: HashMap::new(), game_actions: HashMap::new(), game_counter: 0 };
        proof {
            assert(games_view(r.games@) =~= Map::<u64, GameView>::empty());
            assert(actions_map_view(r.game_actions@) =~= Map::<u64, Seq<ActionView>>::empty());
        }
        r
    }
}

/// Mapping the session values of a map commutes with inserting one record.
proof fn lemma_games_view_insert(m: Map<u64, Game>, k: u64, v: Game)
    ensures
        games_view(m.insert(k, v)) == games_view(m).insert(k, v@),
{
    assert(games_view(m.insert(k, v)) =~= games_view(m).insert(k, v@));
}

/// Relies on `near_sdk::env::block_timestamp`: the host environment's clock
/// for the current block.  Nothing is assumed of the value it reports.
#[verifier::external_body]
fn block_timestamp() -> u64 {
    near_sdk::env::block_timestamp()
}

impl Contract {
    /// Creates a session at the given logical time: allocates the next
    /// sequential id, seeds the fingerprint from the id and the creator, and
    /// stores the new session with the creator as its sole player.
    pub fn create_game_at(&mut self, creator: String, timestamp: u64) -> (r: u64)
        requires
            old(self)@.wf(),
            old(self)@.counter < u64::MAX,
        ensures
            final(self)@.wf(),
            (final(self)@, r) == spec_create_game(old(self)@, creator@, timestamp),
            r == old(self)@.counter + 1,
            started_stays(old(self)@, final(self)@),
    {
        self.game_counter = self.game_counter + 1;
        let new_game_id = self.game_counter;
        let initial_state_hash = seed_fingerprint(new_game_id, creator.as_str());
        let ghost creator_name = creator@;
        let mut players: Vec<String> = Vec::new();
        players.push(creator);
        let game = Game {
            id: new_game_id,
            players,
            is_active: true,
            current_player_index: 0,
            state_hash: initial_state_hash,
            last_action_timestamp: timestamp,
            turn_count: 0,
            direction_clockwise: true,
            is_started: false,
        };
        proof {
            assert(names_of(game.players@) =~= seq![creator_name]);
        }
        self.games.insert(new_game_id, game);
        proof {
            lemma_games_view_insert(old(self).games@, new_game_id, game);
            assert(self@ =~~= spec_create_game(old(self)@, creator_name, timestamp).0);
        }
        new_game_id
    }

    /// Creates a session stamped with the host clock.  The new state is that
    /// of `create_game_at` at the time the host reported.
    pub fn create_game(&mut self, creator: String) -> (r: u64)
        requires
            old(self)@.wf(),
            old(self)@.counter < u64::MAX,
        ensures
            final(self)@.wf(),
            r == old(self)@.counter + 1,
            exists|ts: u64|
                (final(self)@, r) == #[trigger] spec_create_game(old(self)@, creator@, ts),
            started_stays(old(self)@, final(self)@),
    {
        let ghost creator_name = creator@;
        let timestamp = block_timestamp();
        let r = self.create_game_at(creator, timestamp);
        proof {
            assert((self@, r) == spec_create_game(old(self)@, creator_name, timestamp));
        }
        r
    }

    /// Starts a session at the given logical time.  Succeeds if and only if
    /// the session exists, is still active, was not yet started, and has at
    /// least two players; on success the session is marked started and its
    /// fingerprint is re-seeded from the comma-joined player list.
    pub fn start_game_at(&mut self, game_id: u64, timestamp: u64) -> (r: Result<(), GameError>)
        requires
            old(self)@.wf(),
        ensures
            final(self)@.wf(),
            (final(self)@, r) == spec_start_game(old(self)@, game_id, timestamp),
            r is Ok <==> old(self)@.games.contains_key(game_id) && old(
                self,
            )@.games[game_id].is_active && !old(self)@.games[game_id].is_started && old(
                self,
            )@.games[game_id].players.len() >= 2,
            r is Ok ==> final(self)@.games[game_id].is_started,
            started_stays(old(self)@, final(self)@),
    {
        match self.games.get(&game_id) {
            None => Err(GameError::NotFound),
            Some(game_ref) => {
                if !game_ref.is_active {
                    Err(GameError::NotActive)
                } else if game_ref.is_started {
                    Err(GameError::AlreadyStarted)
                } else if game_ref.players.len() < 2 {
                    Err(GameError::InsufficientPlayers)
                } else {
                    let mut game = game_ref.clone();
                    game.is_started = true;
                    let joined = joined_names(&game.players);
                    game.state_hash = seed_fingerprint(game_id, joined.as_str());
                    game.last_action_timestamp = timestamp;
                    self.games.insert(game_id, game);
                    proof {
                        lemma_games_view_insert(old(self).games@, game_id, game);
                        assert(self@ =~~= spec_start_game(old(self)@, game_id, timestamp).0);
                    }
                    Ok(())
                }
            },
        }
    }

    /// Starts a session stamped with the host clock.  Whether the start is
    /// accepted does not depend on the reported time; the new state is that
    /// of `start_game_at` at the time the host reported.
    pub fn start_game(&mut self, game_id: u64) -> (r: Result<(), GameError>)
        requires
            old(self)@.wf(),
        ensures
            final(self)@.wf(),
            exists|ts: u64|
                (final(self)@, r) == #[trigger] spec_start_game(old(self)@, game_id, ts),
            r is Ok <==> old(self)@.games.contains_key(game_id) && old(
                self,
            )@.games[game_id].is_active && !old(self)@.games[game_id].is_started && old(
                self,
            )@.games[game_id].players.len() >= 2,
            r is Ok ==> final(self)@.games[game_id].is_started,
            started_stays(old(self)@, final(self)@),
    {
        let timestamp = block_timestamp();
        let r = self.start_game_at(game_id, timestamp);
        proof {
            assert((self@, r) == spec_start_game(old(self)@, game_id, timestamp));
        }
        r
    }

    /// Joins a player to a session.  Succeeds if and only if the session
    /// exists, is still active, and has fewer than ten players; on success
    /// the joinee is appended at the end of the rotation.  Neither the
    /// fingerprint nor the timestamp changes, duplicate identities are
    /// permitted, and joining is not closed by a start.
    pub fn join_game(&mut self, game_id: u64, joinee: String) -> (r: Result<(), GameError>)
        requires
            old(self)@.wf(),
        ensures
            final(self)@.wf(),
            (final(self)@, r) == spec_join_game(old(self)@, game_id, joinee@),
            r is Ok <==> old(self)@.games.contains_key(game_id) && old(
                self,
            )@.games[game_id].is_active && old(self)@.games[game_id].players.len() < 10,
            started_stays(old(self)@, final(self)@),
    {
        let ghost joinee_name = joinee@;
        match self.games.get(&game_id) {
            None => Err(GameError::NotFound),
            Some(game_ref) => {
                if !game_ref.is_active {
                    Err(GameError::NotActive)
                } else if game_ref.players.len() >= 10 {
                    Err(GameError::Full)
                } else {
                    let mut game = game_ref.clone();
                    game.players.push(joinee);
                    proof {
                        assert(names_of(game.players@) =~= old(
                            self,
                        )@.games[game_id].players.push(joinee_name));
                    }
                    self.games.insert(game_id, game);
                    proof {
                        lemma_games_view_insert(old(self).games@, game_id, game);
                        assert(self@ =~~= spec_join_game(old(self)@, game_id, joinee_name).0);
                    }
                    Ok(())
                }
            },
        }
    }

    /// Whether `player` is the one whose turn it is in `game`.
    fn is_player_turn(&self, game: &Game, player: &String) -> (r: bool)
        requires
            (game@.current_player_index as int) < game@.players.len(),
        ensures
            r == (game@.players[game@.current_player_index as int] == player@),
    {
        let current = &game.players[game.current_player_index];
        let r = current.eq(player);
        proof {
            assert(names_of(game.players@)[game@.current_player_index as int] == game.players@[game@.current_player_index as int]@);
        }
        r
    }

    /// Advances a session after an accepted action: one more turn, the next
    /// player in the rotation, and a fresh timestamp.
    fn update_game_state(&self, game: &mut Game, timestamp: u64)
        requires
            old(game)@.wf(),
            old(game)@.turn_count < u64::MAX,
        ensures
            final(game)@ == (GameView {
                turn_count: (old(game)@.turn_count + 1) as u64,
                current_player_index: (((old(game)@.current_player_index + 1) as int) % (old(
                    game,
                )@.players.len() as int)) as usize,
                last_action_timestamp: timestamp,
                ..old(game)@
            }),
    {
        game.turn_count = game.turn_count + 1;
        game.current_player_index = (game.current_player_index + 1) % game.players.len();
        game.last_action_timestamp = timestamp;
    }

    /// Submits an action at the given logical time.  Succeeds if and only
    /// if the session exists, is still active, and the actor is the player
    /// whose turn it is; on success the fingerprint is chained with the
    /// submitted hash, the action is recorded, the turn count increments by
    /// exactly one, and the turn pointer advances by exactly one modulo the
    /// player count.
    pub fn submit_action_at(
        &mut self,
        game_id: u64,
        action_hash: String,
        actor: String,
        timestamp: u64,
    ) -> (r: Result<(), GameError>)
        requires
            old(self)@.wf(),
            old(self)@.games.contains_key(game_id) ==> old(self)@.games[game_id].turn_count
                < u64::MAX,
        ensures
            final(self)@.wf(),
            (final(self)@, r) == spec_submit_action(
                old(self)@,
                game_id,
                action_hash@,
                actor@,
                timestamp,
            ),
            r is Ok <==> old(self)@.games.contains_key(game_id) && old(
                self,
            )@.games[game_id].is_active && old(self)@.games[game_id].players[old(
                self,
            )@.games[game_id].current_player_index as int] == actor@,
            r is Ok ==> final(self)@.games[game_id].turn_count == old(
                self,
            )@.games[game_id].turn_count + 1,
            r is Ok ==> final(self)@.games[game_id].current_player_index as int == (old(
                self,
            )@.games[game_id].current_player_index + 1) as int % old(
                self,
            )@.games[game_id].players.len() as int,
            started_stays(old(self)@, final(self)@),
    {
        let ghost hash_name = action_hash@;
        let ghost actor_name = actor@;
        match self.games.get(&game_id) {
            None => Err(GameError::NotFound),
            Some(game_ref) => {
                proof {
                    assert(self@.games.contains_key(game_id));
                    assert(self@.games[game_id] == game_ref@);
                }
                if !game_ref.is_active {
                    Err(GameError::NotActive)
                } else if !self.is_player_turn(game_ref, &actor) {
                    Err(GameError::WrongTurn)
                } else {
                    let mut game = game_ref.clone();
                    game.state_hash = chain_fingerprint(
                        game.state_hash.as_str(),
                        action_hash.as_str(),
                    );
                    let action = Action { player: actor, action_hash, timestamp };
                    let mut history = match self.game_actions.remove(&game_id) {
                        Some(h) => h,
                        None => Vec::new(),
                    };
                    history.push(action);
                    self.game_actions.insert(game_id, history);
                    self.update_game_state(&mut game, timestamp);
                    self.games.insert(game_id, game);
                    proof {
                        lemma_games_view_insert(old(self).games@, game_id, game);
                        assert(actions_view(history@) =~= old(self)@.actions_of(game_id).push(
                            action@,
                        ));
                        assert(actions_map_view(self.game_actions@) =~= old(self)@.actions.insert(
                            game_id,
                            actions_view(history@),
                        ));
                        assert(self@ =~~= spec_submit_action(
                            old(self)@,
                            game_id,
                            hash_name,
                            actor_name,
                            timestamp,
                        ).0);
                    }
                    Ok(())
                }
            },
        }
    }

    /// Submits an action stamped with the host clock.  Whether the action
    /// is accepted does not depend on the reported time; the new state is
    /// that of `submit_action_at` at the time the host reported.
    pub fn submit_action(&mut self, game_id: u64, action_hash: String, actor: String) -> (r: Result<
        (),
        GameError,
    >)
        requires
            old(self)@.wf(),
            old(self)@.games.contains_key(game_id) ==> old(self)@.games[game_id].turn_count
                < u64::MAX,
        ensures
            final(self)@.wf(),
            exists|ts: u64|
                (final(self)@, r) == #[trigger] spec_submit_action(
                    old(self)@,
                    game_id,
                    action_hash@,
                    actor@,
                    ts,
                ),
            r is Ok <==> old(self)@.games.contains_key(game_id) && old(
                self,
            )@.games[game_id].is_active && old(self)@.games[game_id].players[old(
                self,
            )@.games[game_id].current_player_index as int] == actor@,
            r is Ok ==> final(self)@.games[game_id].turn_count == old(
                self,
            )@.games[game_id].turn_count + 1,
            started_stays(old(self)@, final(self)@),
    {
        let ghost hash_name = action_hash@;
        let ghost actor_name = actor@;
        let timestamp = block_timestamp();
        let r = self.submit_action_at(game_id, action_hash, actor, timestamp);
        proof {
            assert((self@, r) == spec_submit_action(
                old(self)@,
                game_id,
                hash_name,
                actor_name,
                timestamp,
            ));
        }
        r
    }

    /// Ends a session.  Succeeds if and only if the session exists, is
    /// still active, and the actor is the player whose turn it is; on
    /// success the session becomes inactive, which is terminal: every later
    /// mutating call on the session is refused with `NotActive`.
    pub fn end_game(&mut self, game_id: u64, actor: String) -> (r: Result<(), GameError>)
        requires
            old(self)@.wf(),
        ensures
            final(self)@.wf(),
            (final(self)@, r) == spec_end_game(old(self)@, game_id, actor@),
            r is Ok <==> old(self)@.games.contains_key(game_id) && old(
                self,
            )@.games[game_id].is_active && old(self)@.games[game_id].players[old(
                self,
            )@.games[game_id].current_player_index as int] == actor@,
            r is Ok ==> !final(self)@.games[game_id].is_active,
            started_stays(old(self)@, final(self)@),
    {
        let ghost actor_name = actor@;
        match self.games.get(&game_id) {
            None => Err(GameError::NotFound),
            Some(game_ref) => {
                proof {
                    assert(self@.games.contains_key(game_id));
                    assert(self@.games[game_id] == game_ref@);
                }
                if !game_ref.is_active {
                    Err(GameError::NotActive)
                } else if !self.is_player_turn(game_ref, &actor) {
                    Err(GameError::WrongTurn)
                } else {
                    let mut game = game_ref.clone();
                    game.is_active = false;
                    self.games.insert(game_id, game);
                    proof {
                        lemma_games_view_insert(old(self).games@, game_id, game);
                        assert(self@ =~~= spec_end_game(old(self)@, game_id, actor_name).0);
                    }
                    Ok(())
                }
            },
        }
    }

    /// Returns a copy of the session's current state, or nothing when the id
    /// is unknown.
    pub fn get_game_state(&self, game_id: u64) -> (r: Option<Game>)
        ensures
            r is Some <==> self@.games.contains_key(game_id),
            r is Some ==> r->Some_0@ == self@.games[game_id],
    {
        match self.games.get(&game_id) {
            Some(g) => Some(g.clone()),
            None => None,
        }
    }

    /// Returns the session's full action history in submission order, empty
    /// when none was recorded.
    pub fn get_game_actions(&self, game_id: u64) -> (r: Vec<Action>)
        ensures
            actions_view(r@) == self@.actions_of(game_id),
    {
        match self.game_actions.get(&game_id) {
            Some(v) => {
                let r = v.clone();
                proof {
                    assert(forall|i: int| 0 <= i < v@.len() ==> r@[i] == v@[i]);
                    assert(r@ =~= v@);
                }
                r
            },
            None => {
                let r: Vec<Action> = Vec::new();
                proof {
                    assert(actions_view(r@) =~= self@.actions_of(game_id));
                }
                r
            },
        }
    }
}

/// An ended session is terminal: once `is_active` is false, every mutating
/// operation aimed at it — starting, joining, submitting an action, and
/// ending — leaves the store unchanged and reports `NotActive`, whatever
/// its other arguments.
pub proof fn lemma_ended_session_is_terminal(
    c: ContractView,
    id: u64,
    joinee: Seq<char>,
    hash: Seq<char>,
    actor: Seq<char>,
    ts: u64,
)
    requires
        c.games.contains_key(id),
        !c.games[id].is_active,
    ensures
        spec_start_game(c, id, ts) == (c, Result::<(), GameError>::Err(GameError::NotActive)),
        spec_join_game(c, id, joinee) == (c, Result::<(), GameError>::Err(GameError::NotActive)),
        spec_submit_action(c, id, hash, actor, ts) == (
            c,
            Result::<(), GameError>::Err(GameError::NotActive),
        ),
        spec_end_game(c, id, actor) == (c, Result::<(), GameError>::Err(GameError::NotActive)),
{
}

/// Accepting a submission, and the fingerprint it chains to, depend only on
/// the session's own players, turn pointer, liveness and current
/// fingerprint: two sessions that agree on those accept the same submission
/// identically and chain to the same next fingerprint, whatever their ids,
/// histories, timestamps, or the rest of either store.  Replaying an
/// identical input sequence therefore reproduces an identical fingerprint
/// trace.
pub proof fn lemma_replay_deterministic(
    c1: ContractView,
    c2: ContractView,
    id1: u64,
    id2: u64,
    hash: Seq<char>,
    actor: Seq<char>,
    ts1: u64,
    ts2: u64,
)
    requires
        c1.games.contains_key(id1),
        c2.games.contains_key(id2),
        c1.games[id1].players == c2.games[id2].players,
        c1.games[id1].current_player_index == c2.games[id2].current_player_index,
        c1.games[id1].is_active == c2.games[id2].is_active,
        c1.games[id1].state_hash == c2.games[id2].state_hash,
    ensures
        spec_submit_action(c1, id1, hash, actor, ts1).1 == spec_submit_action(
            c2,
            id2,
            hash,
            actor,
            ts2,
        ).1,
        spec_submit_action(c1, id1, hash, actor, ts1).1 is Ok ==> spec_submit_action(
            c1,
            id1,
            hash,
            actor,
            ts1,
        ).0.games[id1].state_hash == spec_submit_action(
            c2,
            id2,
            hash,
            actor,
            ts2,
        ).0.games[id2].state_hash,
{
}

} // verus!
