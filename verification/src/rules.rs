//! Pure legality checks: which action is allowed in which phase, and for
//! which actor, plus the construction of the steal contention queue.

use std::collections::VecDeque;
use vstd::prelude::*;

verus! {

use crate::actions::GameAction;
use crate::domain::Team;
use crate::rng;
use crate::scoring::has_team;
use crate::state::GameState;
use crate::state::PlayPhase;
use crate::state::spec_clue_available;

/// Teams may be added only while the game is in the lobby.
pub open spec fn spec_can_add_team(s: GameState) -> bool {
    s.phase is Lobby
}

/// The game starts only from the lobby, and only with at least one team.
pub open spec fn spec_can_start_game(s: GameState) -> bool {
    s.phase is Lobby && s.teams@.len() > 0
}

/// A clue may be selected only in the selecting phase, and only if its
/// coordinates name an existing, unsolved clue.
pub open spec fn spec_can_select_clue(s: GameState, clue: (usize, usize)) -> bool {
    s.phase is Selecting && spec_clue_available(s, clue)
}

/// Every clue of the board is solved.
pub open spec fn spec_game_finished(s: GameState) -> bool {
    forall|c: int, r: int|
        0 <= c < s.board.categories@.len() && 0 <= r < s.board.categories@[c].clues@.len()
            ==> (#[trigger] s.board.categories@[c].clues@[r]).solved
}

/// Whether `action` is legal in phase terms alone: selecting needs the acting
/// team to hold the selecting turn, answering needs the owner, stealing needs
/// the current contender, closing needs the resolved phase; team creation,
/// game start and return-to-setup are phase checks only, and the event
/// actions and the score override carry no phase restriction here.
pub open spec fn spec_is_action_valid(s: GameState, action: GameAction) -> bool {
    match action {
        GameAction::AddTeam { .. } => spec_can_add_team(s),
        GameAction::StartGame => spec_can_start_game(s),
        GameAction::SelectClue { clue, team_id } => (s.phase matches PlayPhase::Selecting {
            team_id: active,
        } && team_id == active && spec_can_select_clue(s, clue)),
        GameAction::AnswerCorrect { team_id, .. } => (s.phase matches PlayPhase::Showing {
            owner_team_id,
            ..
        } && team_id == owner_team_id),
        GameAction::AnswerIncorrect { team_id, .. } => (s.phase matches PlayPhase::Showing {
            owner_team_id,
            ..
        } && team_id == owner_team_id),
        GameAction::StealAttempt { team_id, .. } => (s.phase matches PlayPhase::Steal {
            current,
            ..
        } && team_id == current),
        GameAction::CloseClue { .. } => s.phase is Resolved,
        GameAction::ReturnToConfig => true,
        GameAction::QueueEvent { .. } => true,
        GameAction::PlayEventAnimation { .. } => true,
        GameAction::TriggerEvent { .. } => true,
        GameAction::AcknowledgeEvent => true,
        GameAction::ResolveEvent => true,
        GameAction::ManualPointsAdjustment { .. } => true,
    }
}

/// [`spec_is_action_valid`] plus the demand that the acting team exists.
pub open spec fn spec_validate_team_action(s: GameState, team_id: u32, action: GameAction) -> bool {
    has_team(s.teams@, team_id) && spec_is_action_valid(s, action)
}

/// The ids of every team but `excl`, in team-list order.
pub open spec fn other_team_ids(teams: Seq<Team>, excl: u32) -> Seq<u32>
    decreases teams.len(),
{
    if teams.len() == 0 {
        Seq::empty()
    } else {
        let rest = other_team_ids(teams.drop_last(), excl);
        if teams.last().id != excl {
            rest.push(teams.last().id)
        } else {
            rest
        }
    }
}

/// The contention queue depends only on the teams' ids: two lists with the
/// same ids in the same order yield the same queue source.
pub proof fn lemma_other_ids_depend_on_ids_only(a: Seq<Team>, b: Seq<Team>, excl: u32)
    requires
        a.len() == b.len(),
        forall|i: int| 0 <= i < a.len() ==> (#[trigger] a[i]).id == b[i].id,
    ensures
        other_team_ids(a, excl) == other_team_ids(b, excl),
    decreases a.len(),
{
    if a.len() > 0 {
        assert(forall|i: int|
            0 <= i < a.len() - 1 ==> (#[trigger] a.drop_last()[i]).id == b.drop_last()[i].id);
        lemma_other_ids_depend_on_ids_only(a.drop_last(), b.drop_last(), excl);
        assert(a[a.len() - 1].id == b[b.len() - 1].id);
    }
}

/// The rule predicates: pure, state-reading legality checks.
#[derive(Debug)]
pub struct GameRules;

impl GameRules {
    pub fn new() -> (r: Self) {
        GameRules
    }

    /// Whether `clue` may be selected now: selecting phase, existing and
    /// unsolved clue.
    pub fn can_select_clue(&self, state: &GameState, clue: (usize, usize)) -> (r: bool)
        ensures
            r == spec_can_select_clue(*state, clue),
    {
        if !matches!(state.phase, PlayPhase::Selecting { .. }) {
            return false;
        }
        state.is_clue_available(clue)
    }

    /// Whether the game can be started: lobby phase with at least one team.
    pub fn can_start_game(&self, state: &GameState) -> (r: bool)
        ensures
            r == spec_can_start_game(*state),
    {
        if !matches!(state.phase, PlayPhase::Lobby) {
            return false;
        }
        state.teams.len() > 0
    }

    /// Whether a team may be added: lobby phase only.
    pub fn can_add_team(&self, state: &GameState) -> (r: bool)
        ensures
            r == spec_can_add_team(*state),
    {
        matches!(state.phase, PlayPhase::Lobby)
    }

    /// The steal contention queue for a clue owned by `excluding_team`: every
    /// other team's id exactly once per occurrence, in uniformly random order
    /// (steal order is independent of turn-rotation order).
    pub fn get_steal_queue(&self, state: &GameState, excluding_team: u32) -> (r: VecDeque<u32>)
        ensures
            r@.len() == other_team_ids(state.teams@, excluding_team).len(),
            r@.to_multiset() == other_team_ids(state.teams@, excluding_team).to_multiset(),
    {
        let teams = &state.teams;
        let n = teams.len();
        let mut others: Vec<u32> = Vec::new();
        let mut i: usize = 0;
        while i < n
            invariant
                i <= n,
                n == teams@.len(),
                others@ == other_team_ids(teams@.take(i as int), excluding_team),
            decreases n - i,
        {
            proof {
                assert(teams@.take(i + 1).drop_last() =~= teams@.take(i as int));
                assert(teams@.take(i + 1).last() == teams@[i as int]);
            }
            if teams[i].id != excluding_team {
                others.push(teams[i].id);
            }
            i = i + 1;
        }
        proof {
            assert(teams@.take(n as int) =~= teams@);
        }
        rng::shuffle_ids(&mut others);
        let m = others.len();
        let mut queue: VecDeque<u32> = VecDeque::new();
        let mut j: usize = 0;
        while j < m
            invariant
                j <= m,
                m == others@.len(),
                queue@ == others@.take(j as int),
            decreases m - j,
        {
            queue.push_back(others[j]);
            proof {
                assert(others@.take(j + 1) =~= others@.take(j as int).push(others@[j as int]));
            }
            j = j + 1;
        }
        proof {
            assert(queue@ =~= others@);
        }
        queue
    }

    /// The actions available in the current phase: in the lobby, adding a
    /// default-named team and (with a team present) starting; while
    /// selecting, one selection per available clue; nothing in the other
    /// phases.
    pub fn get_available_actions(&self, state: &GameState) -> (r: Vec<GameAction>)
        ensures
            (state.phase is Lobby && !spec_can_start_game(*state)) ==> r@.len() == 1,
            state.phase is Lobby && spec_can_start_game(*state) ==> (r@.len() == 2 && r@[1]
                is StartGame),
            state.phase is Lobby ==> (r@[0] matches GameAction::AddTeam { name } && name@
                == "New Team"@),
            state.phase matches PlayPhase::Selecting { team_id } ==> (r@.len()
                == crate::domain::spec_available_clues(state.board).len() && (forall|i: int|
                0 <= i < r@.len() ==> ((#[trigger] r@[i]) matches GameAction::SelectClue {
                    clue,
                    team_id: t,
                } && clue == crate::domain::spec_available_clues(state.board)[i] && t
                    == team_id))),
            !(state.phase is Lobby) && !(state.phase is Selecting) ==> r@.len() == 0,
    {
        let mut actions: Vec<GameAction> = Vec::new();
        match &state.phase {
            PlayPhase::Lobby => {
                actions.push(GameAction::AddTeam { name: "New Team".to_owned() });
                if self.can_start_game(state) {
                    actions.push(GameAction::StartGame);
                }
            },
            PlayPhase::Selecting { team_id } => {
                let team_id = *team_id;
                let avail = state.get_available_clues();
                let n = avail.len();
                let mut i: usize = 0;
                while i < n
                    invariant
                        i <= n,
                        n == avail@.len(),
                        avail@ == crate::domain::spec_available_clues(state.board),
                        actions@.len() == i,
                        forall|j: int|
                            0 <= j < i ==> ((#[trigger] actions@[j]) matches GameAction::SelectClue {
                                clue,
                                team_id: t,
                            } && clue == avail@[j] && t == team_id),
                    decreases n - i,
                {
                    actions.push(GameAction::SelectClue { clue: avail[i], team_id });
                    i = i + 1;
                }
            },
            _ => {},
        }
        actions
    }

    /// Whether every clue of the board is solved.
    pub fn is_game_finished(&self, state: &GameState) -> (r: bool)
        ensures
            r == spec_game_finished(*state),
    {
        let cats = &state.board.categories;
        let ncats = cats.len();
        let mut c: usize = 0;
        while c < ncats
            invariant
                c <= ncats,
                ncats == cats@.len(),
                cats == state.board.categories,
                forall|ci: int, ri: int|
                    0 <= ci < c && 0 <= ri < cats@[ci].clues@.len()
                        ==> (#[trigger] cats@[ci].clues@[ri]).solved,
            decreases ncats - c,
        {
            let clues = &cats[c].clues;
            let nrows = clues.len();
            let mut r: usize = 0;
            while r < nrows
                invariant
                    c < ncats,
                    r <= nrows,
                    ncats == cats@.len(),
                    nrows == clues@.len(),
                    cats == state.board.categories,
                    clues@ == cats@[c as int].clues@,
                    forall|ri: int| 0 <= ri < r ==> (#[trigger] clues@[ri]).solved,
                decreases nrows - r,
            {
                if !clues[r].solved {
                    return false;
                }
                r = r + 1;
            }
            c = c + 1;
        }
        true
    }

    /// Whether the acting team exists and `action` is legal for it now.
    pub fn validate_team_action(&self, state: &GameState, team_id: u32, action: &GameAction) -> (r:
        bool)
        ensures
            r == spec_validate_team_action(*state, team_id, *action),
    {
        let scoring = crate::scoring::ScoringEngine::new();
        if !scoring.team_exists(state.teams.as_slice(), team_id) {
            return false;
        }
        self.is_action_valid(state, action)
    }

    /// Whether `action` is legal in the current state, in phase terms alone.
    pub fn is_action_valid(&self, state: &GameState, action: &GameAction) -> (r: bool)
        ensures
            r == spec_is_action_valid(*state, *action),
    {
        match action {
            GameAction::AddTeam { .. } => self.can_add_team(state),
            GameAction::StartGame => self.can_start_game(state),
            GameAction::SelectClue { clue, team_id } => {
                match &state.phase {
                    PlayPhase::Selecting { team_id: active_team } => {
                        *team_id == *active_team && self.can_select_clue(state, *clue)
                    },
                    _ => false,
                }
            },
            GameAction::AnswerCorrect { team_id, .. } => {
                match &state.phase {
                    PlayPhase::Showing { owner_team_id, .. } => *team_id == *owner_team_id,
                    _ => false,
                }
            },
            GameAction::AnswerIncorrect { team_id, .. } => {
                match &state.phase {
                    PlayPhase::Showing { owner_team_id, .. } => *team_id == *owner_team_id,
                    _ => false,
                }
            },
            GameAction::StealAttempt { team_id, .. } => {
                match &state.phase {
                    PlayPhase::Steal { current, .. } => *team_id == *current,
                    _ => false,
                }
            },
            GameAction::CloseClue { .. } => matches!(state.phase, PlayPhase::Resolved { .. }),
            GameAction::ReturnToConfig => true,
            GameAction::QueueEvent { .. } => true,
            GameAction::PlayEventAnimation { .. } => true,
            GameAction::TriggerEvent { .. } => true,
            GameAction::AcknowledgeEvent => true,
            GameAction::ResolveEvent => true,
            GameAction::ManualPointsAdjustment { .. } => true,
        }
    }
}

} // verus!
