//! The game state proper: the closed set of play phases, the state record
//! that owns board, teams, phase and event state, and its read-only queries.

use std::collections::VecDeque;
use vstd::prelude::*;

verus! {

use crate::domain::Board;
use crate::domain::Clue;
use crate::domain::SurpriseState;
use crate::domain::Team;
use crate::domain::UiMapping;
use crate::domain::avail_from_category;
use crate::domain::avail_in_category;
use crate::domain::board_updated;
use crate::domain::clue_at;
use crate::domain::spec_available_clues;
use crate::domain::valid_clue_pos;
use crate::events::EventState;
use crate::events::ReverseQuestionEvent;
use crate::events::is_initial_event_state;
use crate::scoring::ScoringEngine;
use crate::scoring::has_team;
use crate::scoring::next_team_id;
use crate::scoring::spec_rotate;
use crate::scoring::team_index;

/// Exactly one phase is active at a time; the handler matches exhaustively,
/// so adding a phase forces every branch to be reconsidered.
#[derive(Debug)]
pub enum PlayPhase {
    /// Accepts team creation and game start only.
    Lobby,
    /// The named team may pick a clue.
    Selecting { team_id: u32 },
    /// Clue text visible; the owner may answer, with a bounded attempt count.
    Showing { clue: (usize, usize), owner_team_id: u32, attempt_count: u32, max_attempts: u32 },
    /// The steal contention sub-protocol: `queue` holds the contenders still
    /// waiting behind `current`.
    Steal { clue: (usize, usize), queue: VecDeque<u32>, current: u32, owner_team_id: u32 },
    /// Outcome displayed, awaiting acknowledgment to continue.
    Resolved { clue: (usize, usize), next_team_id: u32 },
    Intermission,
    /// Terminal; reached only via the explicit return-to-setup action.
    Finished,
}

/// One running game: board, ordered team list, current phase, the rotation
/// pivot, legacy modifier bookkeeping, the visual mapping and event state.
#[derive(Debug)]
pub struct GameState {
    pub board: Board,
    pub teams: Vec<Team>,
    pub phase: PlayPhase,
    /// The rotation pivot: the team whose turn it conceptually is to select
    /// next.  Distinct from whichever id the current phase payload names.
    pub active_team: u32,
    pub surprise: SurpriseState,
    pub ui_map: UiMapping,
    pub event_state: EventState,
}

/// Whether `pos` names an existing, unsolved clue of `s`'s board.
pub open spec fn spec_clue_available(s: GameState, pos: (usize, usize)) -> bool {
    valid_clue_pos(s.board, pos) && !clue_at(s.board, pos).solved
}

impl GameState {
    /// A fresh game over `board`: no teams, lobby phase, zero rotation pivot,
    /// default modifier state, the identity visual mapping and an initial
    /// event state.
    pub fn new(board: Board) -> (s: Self)
        ensures
            s.board == board,
            s.teams@ == Seq::<Team>::empty(),
            s.phase is Lobby,
            s.active_team == 0,
            s.surprise.pending is None,
            s.surprise.expires_after_clues == 0,
            UiMapping::is_identity_map(
                s.ui_map,
                board.categories@.len() as int,
                (if board.categories@.len() > 0 {
                    board.categories@[0].clues@.len() as int
                } else {
                    0
                }),
            ),
            is_initial_event_state(s.event_state),
    {
        let num_categories = board.categories.len();
        let num_rows = if num_categories > 0 {
            board.categories[0].clues.len()
        } else {
            0
        };
        GameState {
            board,
            teams: Vec::new(),
            phase: PlayPhase::Lobby,
            active_team: 0,
            surprise: SurpriseState { pending: None, expires_after_clues: 0 },
            ui_map: UiMapping::identity(num_categories, num_rows),
            event_state: EventState::new(),
        }
    }

    /// Appends a new team named `name` with a zero score and the next id; if
    /// the game is still in the lobby and no pivot was set yet, the new team
    /// becomes the rotation pivot.
    pub fn add_team(&mut self, name: String)
        ensures
            final(self).teams@ == old(self).teams@.push(
                Team { id: next_team_id(old(self).teams@), name: name, score: 0 },
            ),
            final(self).active_team == (if old(self).phase is Lobby && old(self).active_team == 0 {
                next_team_id(old(self).teams@)
            } else {
                old(self).active_team
            }),
            final(self).board == old(self).board,
            final(self).phase == old(self).phase,
            final(self).surprise == old(self).surprise,
            final(self).ui_map == old(self).ui_map,
            final(self).event_state == old(self).event_state,
    {
        let scoring = ScoringEngine::new();
        let next_id = scoring.add_team(&mut self.teams, name);
        if matches!(self.phase, PlayPhase::Lobby) && self.active_team == 0 {
            self.active_team = next_id;
        }
    }

    /// Moves the rotation pivot one seat forward in team-list order.
    pub fn rotate_to_next_active_team(&mut self)
        ensures
            final(self).active_team == spec_rotate(old(self).teams@, old(self).active_team),
            final(self).board == old(self).board,
            final(self).teams == old(self).teams,
            final(self).phase == old(self).phase,
            final(self).surprise == old(self).surprise,
            final(self).ui_map == old(self).ui_map,
            final(self).event_state == old(self).event_state,
    {
        let scoring = ScoringEngine::new();
        let next = scoring.rotate_active_team(self.teams.as_slice(), self.active_team);
        self.active_team = next;
    }

    /// The team carrying id `id`, if any.
    pub fn get_team_by_id(&self, id: u32) -> (r: Option<&Team>)
        ensures
            match r {
                Some(t) => has_team(self.teams@, id) && *t == self.teams@[team_index(
                    self.teams@,
                    id,
                )],
                None => !has_team(self.teams@, id),
            },
    {
        match crate::scoring::find_team_index(self.teams.as_slice(), id) {
            Some(i) => Some(&self.teams[i]),
            None => None,
        }
    }

    /// Every unsolved position of the board, in category-major order.
    pub fn get_available_clues(&self) -> (r: Vec<(usize, usize)>)
        ensures
            r@ == spec_available_clues(self.board),
    {
        let cats = &self.board.categories;
        let ncats = cats.len();
        let mut avail: Vec<(usize, usize)> = Vec::new();
        let mut c: usize = 0;
        while c < ncats
            invariant
                c <= ncats,
                ncats == cats@.len(),
                cats == self.board.categories,
                avail@ + avail_from_category(cats@, c as int) == spec_available_clues(self.board),
            decreases ncats - c,
        {
            let clues = &cats[c].clues;
            let nrows = clues.len();
            let mut r: usize = 0;
            proof {
                assert(avail@ + (avail_in_category(cats@[c as int].clues@, c as int, 0)
                    + avail_from_category(cats@, c as int + 1)) =~= (avail@ + avail_in_category(
                    cats@[c as int].clues@,
                    c as int,
                    0,
                )) + avail_from_category(cats@, c as int + 1));
            }
            while r < nrows
                invariant
                    c < ncats,
                    r <= nrows,
                    ncats == cats@.len(),
                    nrows == clues@.len(),
                    cats == self.board.categories,
                    clues@ == cats@[c as int].clues@,
                    avail@ + avail_in_category(clues@, c as int, r as int) + avail_from_category(
                        cats@,
                        c as int + 1,
                    ) == spec_available_clues(self.board),
                decreases nrows - r,
            {
                let ghost before = avail@;
                if !clues[r].solved {
                    avail.push((c, r));
                }
                proof {
                    if !clues@[r as int].solved {
                        assert(avail@ =~= before + seq![((c, r))]);
                        assert(avail@ + avail_in_category(clues@, c as int, r as int + 1)
                            =~= before + avail_in_category(clues@, c as int, r as int));
                    }
                    assert(avail@ + avail_in_category(clues@, c as int, r + 1)
                        + avail_from_category(cats@, c as int + 1) =~= (avail@ + avail_in_category(
                        clues@,
                        c as int,
                        r + 1,
                    )) + avail_from_category(cats@, c as int + 1));
                    assert((before + avail_in_category(clues@, c as int, r as int))
                        + avail_from_category(cats@, c as int + 1) =~= before + avail_in_category(
                        clues@,
                        c as int,
                        r as int,
                    ) + avail_from_category(cats@, c as int + 1));
                }
                r = r + 1;
            }
            proof {
                assert(avail_in_category(clues@, c as int, nrows as int) =~= Seq::empty());
                assert(avail@ + Seq::empty() + avail_from_category(cats@, c as int + 1) =~= avail@
                    + avail_from_category(cats@, c as int + 1));
            }
            c = c + 1;
        }
        proof {
            assert(avail_from_category(cats@, ncats as int) =~= Seq::empty());
            assert(avail@ + Seq::empty() =~= avail@);
        }
        avail
    }

    /// The clue at `clue`, if the coordinates name an existing cell.
    pub fn get_clue(&self, clue: (usize, usize)) -> (r: Option<&Clue>)
        ensures
            match r {
                Some(c) => valid_clue_pos(self.board, clue) && *c == clue_at(self.board, clue),
                None => !valid_clue_pos(self.board, clue),
            },
    {
        if clue.0 < self.board.categories.len() {
            let cat = &self.board.categories[clue.0];
            if clue.1 < cat.clues.len() {
                return Some(&cat.clues[clue.1]);
            }
        }
        None
    }

    /// Whether `clue` names an existing, unsolved clue.
    pub fn is_clue_available(&self, clue: (usize, usize)) -> (r: bool)
        ensures
            r == spec_clue_available(*self, clue),
    {
        match self.get_clue(clue) {
            Some(c) => !c.solved,
            None => false,
        }
    }
}

/// What the persistence collaborator stores: a board plus, for a game in
/// progress, the running state.
#[derive(Debug)]
pub struct Snapshot {
    pub board: Board,
    pub game: Option<GameState>,
}

/// Marks the clue at `pos` solved — revealing it when `reveal` holds, and
/// swapping its question and answer texts back when `swap` holds — leaving
/// everything else in place.
pub(crate) fn finish_clue_at(board: &mut Board, pos: (usize, usize), reveal: bool, swap: bool)
    requires
        valid_clue_pos(*old(board), pos),
    ensures
        board_updated(
            *old(board),
            *final(board),
            pos,
            Clue {
                id: clue_at(*old(board), pos).id,
                points: clue_at(*old(board), pos).points,
                question: (if swap {
                    clue_at(*old(board), pos).answer
                } else {
                    clue_at(*old(board), pos).question
                }),
                answer: (if swap {
                    clue_at(*old(board), pos).question
                } else {
                    clue_at(*old(board), pos).answer
                }),
                revealed: reveal || clue_at(*old(board), pos).revealed,
                solved: true,
            },
        ),
{
    let mut cat = board.categories.remove(pos.0);
    let mut clue = cat.clues.remove(pos.1);
    if swap {
        ReverseQuestionEvent::apply_to_clue(&mut clue);
    }
    if reveal {
        clue.revealed = true;
    }
    clue.solved = true;
    cat.clues.insert(pos.1, clue);
    board.categories.insert(pos.0, cat);
    proof {
        assert(final(board).categories@ =~= old(board).categories@.update(
            pos.0 as int,
            final(board).categories@[pos.0 as int],
        ));
        assert(final(board).categories@[pos.0 as int].clues@ =~= old(board).categories@[pos.0 as int].clues@.update(
            pos.1 as int,
            final(board).categories@[pos.0 as int].clues@[pos.1 as int],
        ));
    }
}

/// Swaps the question and answer texts of the clue at `pos`.
pub(crate) fn swap_clue_text(board: &mut Board, pos: (usize, usize))
    requires
        valid_clue_pos(*old(board), pos),
    ensures
        board_updated(
            *old(board),
            *final(board),
            pos,
            Clue {
                id: clue_at(*old(board), pos).id,
                points: clue_at(*old(board), pos).points,
                question: clue_at(*old(board), pos).answer,
                answer: clue_at(*old(board), pos).question,
                revealed: clue_at(*old(board), pos).revealed,
                solved: clue_at(*old(board), pos).solved,
            },
        ),
{
    let mut cat = board.categories.remove(pos.0);
    let mut clue = cat.clues.remove(pos.1);
    ReverseQuestionEvent::apply_to_clue(&mut clue);
    cat.clues.insert(pos.1, clue);
    board.categories.insert(pos.0, cat);
    proof {
        assert(final(board).categories@ =~= old(board).categories@.update(
            pos.0 as int,
            final(board).categories@[pos.0 as int],
        ));
        assert(final(board).categories@[pos.0 as int].clues@ =~= old(board).categories@[pos.0 as int].clues@.update(
            pos.1 as int,
            final(board).categories@[pos.0 as int].clues@[pos.1 as int],
        ));
    }
}

} // verus!
