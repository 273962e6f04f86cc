//! The engine façade: owns one game state and the action handler, exposes
//! the action entry point and read-only queries, and adds no behaviour
//! beyond delegation.

use vstd::prelude::*;

verus! {

use crate::actions::GameAction;
use crate::actions::GameActionHandler;
use crate::actions::GameActionResult;
use crate::actions::GameError;
use crate::actions::handle_post;
use crate::domain::Board;
use crate::domain::Clue;
use crate::domain::Team;
use crate::domain::clue_at;
use crate::domain::spec_available_clues;
use crate::domain::valid_clue_pos;
use crate::events::is_initial_event_state;
use crate::scoring::has_team;
use crate::scoring::team_index;
use crate::state::GameState;
use crate::state::PlayPhase;
use crate::state::spec_clue_available;

/// One running game and its handler; the presentation layer never mutates
/// state outside the action protocol (save for the raw state accessors kept
/// for the host's tooling).
#[derive(Debug)]
pub struct GameEngine {
    pub state: GameState,
    pub action_handler: GameActionHandler,
}

impl GameEngine {
    /// A fresh engine over `board`, in the lobby with no teams.
    pub fn new(board: Board) -> (e: Self)
        ensures
            e.state.board == board,
            e.state.teams@ == Seq::<Team>::empty(),
            e.state.phase is Lobby,
            e.state.active_team == 0,
            e.state.surprise.pending is None,
            e.state.surprise.expires_after_clues == 0,
            is_initial_event_state(e.state.event_state),
    {
        GameEngine { state: GameState::new(board), action_handler: GameActionHandler::new() }
    }

    /// Submits one action; the state either fully transitions or is left
    /// untouched with a typed error.
    pub fn handle_action(&mut self, action: GameAction) -> (r: Result<GameActionResult, GameError>)
        ensures
            handle_post(old(self).state, action, final(self).state, r),
    {
        self.action_handler.handle(&mut self.state, action)
    }

    /// The current phase.
    pub fn get_phase(&self) -> (r: &PlayPhase)
        ensures
            r == &self.state.phase,
    {
        &self.state.phase
    }

    /// The whole game state, read-only.
    pub fn get_state(&self) -> (r: &GameState)
        ensures
            r == &self.state,
    {
        &self.state
    }

    /// Raw mutable access to the state, for the host's tooling.
    pub fn get_state_mut(&mut self) -> (r: &mut GameState)
        ensures
            *r == old(self).state,
            final(self).state == *final(r),
    {
        &mut self.state
    }

    /// How many teams exist.
    pub fn team_count(&self) -> (r: usize)
        ensures
            r == self.state.teams@.len(),
    {
        self.state.teams.len()
    }

    /// The score of the team with id `team_id`, if one exists.
    pub fn get_team_score(&self, team_id: u32) -> (r: Option<i32>)
        ensures
            match r {
                Some(s) => has_team(self.state.teams@, team_id) && s == self.state.teams@[
                    team_index(self.state.teams@, team_id)
                ].score,
                None => !has_team(self.state.teams@, team_id),
            },
    {
        let scoring = crate::scoring::ScoringEngine::new();
        scoring.get_team_score(self.state.teams.as_slice(), team_id)
    }

    /// The team currently holding the rotation pivot, if it exists.
    pub fn get_active_team(&self) -> (r: Option<&Team>)
        ensures
            match r {
                Some(t) => has_team(self.state.teams@, self.state.active_team) && *t
                    == self.state.teams@[team_index(self.state.teams@, self.state.active_team)],
                None => !has_team(self.state.teams@, self.state.active_team),
            },
    {
        self.state.get_team_by_id(self.state.active_team)
    }

    /// Whether `clue` names an existing, unsolved clue.
    pub fn is_clue_available(&self, clue: (usize, usize)) -> (r: bool)
        ensures
            r == spec_clue_available(self.state, clue),
    {
        self.state.is_clue_available(clue)
    }

    /// Every unsolved position of the board, in category-major order.
    pub fn get_available_clues(&self) -> (r: Vec<(usize, usize)>)
        ensures
            r@ == spec_available_clues(self.state.board),
    {
        self.state.get_available_clues()
    }

    /// The clue at `clue`, if the coordinates name an existing cell.
    pub fn get_clue(&self, clue: (usize, usize)) -> (r: Option<&Clue>)
        ensures
            match r {
                Some(c) => valid_clue_pos(self.state.board, clue) && *c == clue_at(
                    self.state.board,
                    clue,
                ),
                None => !valid_clue_pos(self.state.board, clue),
            },
    {
        self.state.get_clue(clue)
    }
}

} // verus!
