//! The action handler: the single phase-transition entry point.  Every branch
//! first delegates legality to the rule predicates; only then does it mutate
//! teams, board and event state, and it reports what it did as a list of
//! effect descriptors the presentation layer can react to.

use std::collections::VecDeque;
use vstd::prelude::*;
use vstd::string::StringExecFns;

verus! {

use crate::domain::Board;
use crate::domain::Clue;
use crate::domain::Team;
use crate::domain::clue_at;
use crate::domain::valid_clue_pos;
use crate::events::EventAnimationType;
use crate::events::EventError;
use crate::events::EventState;
use crate::events::GameEvent;
use crate::events::StealEventContext;
use crate::events::spec_event_active;
use crate::rules::GameRules;
use crate::scoring::ScoringEngine;
use crate::scoring::clamp_i32;
use crate::scoring::has_team;
use crate::scoring::next_team_id;
use crate::scoring::spec_rotate;
use crate::scoring::team_index;
use crate::state::GameState;
use crate::state::PlayPhase;
use crate::text::spec_decimal;

/// The points value of the clue at `clue`, or 0 when the coordinates name no
/// existing clue.
pub open spec fn spec_question_points(s: GameState, clue: (usize, usize)) -> u32 {
    if valid_clue_pos(s.board, clue) {
        clue_at(s.board, clue).points
    } else {
        0
    }
}

pub fn get_question_points(state: &GameState, clue: (usize, usize)) -> (r: u32)
    ensures
        r == spec_question_points(*state, clue),
{
    match state.get_clue(clue) {
        Some(c) => c.points,
        None => 0,
    }
}

/// The attempt allowance per points value: two attempts strictly above 500
/// points, one otherwise.
pub open spec fn spec_max_attempts(points: u32) -> u32 {
    if points > 500 {
        2
    } else {
        1
    }
}

pub fn calculate_max_attempts(points: u32) -> (r: u32)
    ensures
        r == spec_max_attempts(points),
{
    if points > 500 {
        2
    } else {
        1
    }
}

/// Everything the presentation layer can submit to the engine.
#[derive(Debug)]
pub enum GameAction {
    AddTeam { name: String },
    StartGame,
    SelectClue { clue: (usize, usize), team_id: u32 },
    AnswerCorrect { clue: (usize, usize), team_id: u32 },
    AnswerIncorrect { clue: (usize, usize), team_id: u32 },
    StealAttempt { clue: (usize, usize), team_id: u32, correct: bool },
    CloseClue { clue: (usize, usize), next_team_id: u32 },
    QueueEvent { event: GameEvent },
    PlayEventAnimation { event: GameEvent },
    TriggerEvent { event: GameEvent },
    AcknowledgeEvent,
    ResolveEvent,
    ReturnToConfig,
    ManualPointsAdjustment { team_id: u32, new_points: i32 },
}

/// A successful transition: the new phase, with effect descriptors when the
/// action did more than move between phases.
#[derive(Debug)]
pub enum GameActionResult {
    Success { new_phase: PlayPhase },
    StateChanged { new_phase: PlayPhase, effects: Vec<GameEffect> },
}

/// What an action did, for the presentation layer to react to without
/// diffing state itself.
#[derive(Debug)]
pub enum GameEffect {
    ScoreChanged { team_id: u32, delta: i32 },
    ClueRevealed { clue: (usize, usize) },
    ClueSolved { clue: (usize, usize) },
    FlashEffect { effect_type: FlashType },
    EventTriggered { event: GameEvent },
    EventQueued { event: GameEvent },
    EventAnimation { animation_type: EventAnimationType },
    ScoreReset,
    DoublePointsActivated,
    ReverseQuestionActivated,
    ScoreStealApplied { context: StealEventContext },
    ManualScoreAdjustment { team_id: u32, old_score: i32, new_score: i32 },
}

#[derive(Debug, Clone, Copy, PartialEq, Eq, Structural)]
pub enum FlashType {
    Correct,
    Incorrect,
}

/// The typed, recoverable errors of the action entry point.
#[derive(Debug)]
pub enum GameError {
    /// A rule predicate refused the action: carries the action name and a
    /// human-readable reason.
    InvalidAction { action: String, reason: String },
    /// A manual event trigger collided with an already-active event.
    EventError(EventError),
}

/// Phases are equal up to the contention queue's contents.
pub open spec fn phase_eq(a: PlayPhase, b: PlayPhase) -> bool {
    match (a, b) {
        (PlayPhase::Lobby, PlayPhase::Lobby) => true,
        (PlayPhase::Selecting { team_id: t1 }, PlayPhase::Selecting { team_id: t2 }) => t1 == t2,
        (
            PlayPhase::Showing { clue: c1, owner_team_id: o1, attempt_count: a1, max_attempts: m1 },
            PlayPhase::Showing { clue: c2, owner_team_id: o2, attempt_count: a2, max_attempts: m2 },
        ) => c1 == c2 && o1 == o2 && a1 == a2 && m1 == m2,
        (
            PlayPhase::Steal { clue: c1, queue: q1, current: cu1, owner_team_id: o1 },
            PlayPhase::Steal { clue: c2, queue: q2, current: cu2, owner_team_id: o2 },
        ) => c1 == c2 && q1@ == q2@ && cu1 == cu2 && o1 == o2,
        (
            PlayPhase::Resolved { clue: c1, next_team_id: n1 },
            PlayPhase::Resolved { clue: c2, next_team_id: n2 },
        ) => c1 == c2 && n1 == n2,
        (PlayPhase::Intermission, PlayPhase::Intermission) => true,
        (PlayPhase::Finished, PlayPhase::Finished) => true,
        _ => false,
    }
}

/// `r` reports success without effects, into a phase equal to `phase`.
pub open spec fn is_success(r: Result<GameActionResult, GameError>, phase: PlayPhase) -> bool {
    r matches Ok(GameActionResult::Success { new_phase }) && phase_eq(new_phase, phase)
}

/// `r` reports success with exactly the effects `effects`, into a phase equal
/// to `phase`.
pub open spec fn is_state_changed(
    r: Result<GameActionResult, GameError>,
    phase: PlayPhase,
    effects: Seq<GameEffect>,
) -> bool {
    r matches Ok(GameActionResult::StateChanged { new_phase, effects: e }) && phase_eq(
        new_phase,
        phase,
    ) && e@ == effects
}

/// `r` is the invalid-action error carrying exactly this action name and
/// reason.
pub open spec fn is_invalid_action(
    r: Result<GameActionResult, GameError>,
    action: Seq<char>,
    reason: Seq<char>,
) -> bool {
    r matches Err(GameError::InvalidAction { action: a, reason: re }) && a@ == action && re@
        == reason
}

/// The fields the handler never touches.
pub open spec fn aux_unchanged(pre: GameState, post: GameState) -> bool {
    post.surprise == pre.surprise && post.ui_map == pre.ui_map
}

/// The announcement animation for each event kind.
pub open spec fn spec_animation_type(e: GameEvent) -> EventAnimationType {
    match e {
        GameEvent::DoublePoints => EventAnimationType::DoublePointsMultiplication,
        GameEvent::HardReset => EventAnimationType::HardResetGlitch,
        GameEvent::ReverseQuestion => EventAnimationType::ReverseQuestionFlip,
        GameEvent::ScoreSteal => EventAnimationType::ScoreStealHeist,
    }
}

fn animation_type_for(e: GameEvent) -> (r: EventAnimationType)
    ensures
        r == spec_animation_type(e),
{
    match e {
        GameEvent::DoublePoints => EventAnimationType::DoublePointsMultiplication,
        GameEvent::HardReset => EventAnimationType::HardResetGlitch,
        GameEvent::ReverseQuestion => EventAnimationType::ReverseQuestionFlip,
        GameEvent::ScoreSteal => EventAnimationType::ScoreStealHeist,
    }
}

/// A fresh copy of a contention queue.
fn copy_id_queue(q: &VecDeque<u32>) -> (r: VecDeque<u32>)
    ensures
        r@ == q@,
{
    let n = q.len();
    let mut r: VecDeque<u32> = VecDeque::new();
    let mut i: usize = 0;
    while i < n
        invariant
            i <= n,
            n == q@.len(),
            r@ == q@.take(i as int),
        decreases n - i,
    {
        r.push_back(*(&q[i]));
        proof {
            assert(q@.take(i + 1) =~= q@.take(i as int).push(q@[i as int]));
        }
        i = i + 1;
    }
    proof {
        assert(q@.take(n as int) =~= q@);
    }
    r
}

/// A fresh value equal (up to queue contents) to the given phase.
fn copy_phase(p: &PlayPhase) -> (r: PlayPhase)
    ensures
        phase_eq(r, *p),
{
    match p {
        PlayPhase::Lobby => PlayPhase::Lobby,
        PlayPhase::Selecting { team_id } => PlayPhase::Selecting { team_id: *team_id },
        PlayPhase::Showing { clue, owner_team_id, attempt_count, max_attempts } => {
            PlayPhase::Showing {
                clue: *clue,
                owner_team_id: *owner_team_id,
                attempt_count: *attempt_count,
                max_attempts: *max_attempts,
            }
        },
        PlayPhase::Steal { clue, queue, current, owner_team_id } => {
            PlayPhase::Steal {
                clue: *clue,
                queue: copy_id_queue(queue),
                current: *current,
                owner_team_id: *owner_team_id,
            }
        },
        PlayPhase::Resolved { clue, next_team_id } => {
            PlayPhase::Resolved { clue: *clue, next_team_id: *next_team_id }
        },
        PlayPhase::Intermission => PlayPhase::Intermission,
        PlayPhase::Finished => PlayPhase::Finished,
    }
}

/// An invalid-action error with the given name and reason.
fn invalid_action(action: &str, reason: &str) -> (r: GameError)
    ensures
        r matches GameError::InvalidAction { action: a, reason: re } && a@ == action@ && re@
            == reason@,
{
    GameError::InvalidAction { action: action.to_owned(), reason: reason.to_owned() }
}

/// `post` is `pre` with every score zeroed: same teams, ids and order.
pub open spec fn teams_zeroed(pre: Seq<Team>, post: Seq<Team>) -> bool {
    &&& post.len() == pre.len()
    &&& forall|i: int|
        0 <= i < pre.len() ==> #[trigger] post[i] == (Team {
            id: pre[i].id,
            name: pre[i].name,
            score: 0,
        })
}

/// Adding a team: legal only in the lobby; appends the team, and a first team
/// becomes the rotation pivot.
pub open spec fn add_team_post(
    pre: GameState,
    name: String,
    post: GameState,
    r: Result<GameActionResult, GameError>,
) -> bool {
    if pre.phase is Lobby {
        &&& post.teams@ == pre.teams@.push(
            Team { id: next_team_id(pre.teams@), name: name, score: 0 },
        )
        &&& post.active_team == (if pre.active_team == 0 {
            next_team_id(pre.teams@)
        } else {
            pre.active_team
        })
        &&& post.phase is Lobby
        &&& post.board == pre.board
        &&& post.event_state == pre.event_state
        &&& aux_unchanged(pre, post)
        &&& is_success(r, PlayPhase::Lobby)
    } else {
        &&& post == pre
        &&& is_invalid_action(r, "AddTeam"@, "Can only add teams in lobby phase"@)
    }
}

/// Starting the game: fails exactly when the team list is empty or the phase
/// is not the lobby; on success the first team becomes the pivot and the
/// selecting team.
pub open spec fn start_game_post(
    pre: GameState,
    post: GameState,
    r: Result<GameActionResult, GameError>,
) -> bool {
    if pre.phase is Lobby && pre.teams@.len() > 0 {
        &&& post.active_team == pre.teams@[0].id
        &&& post.phase == (PlayPhase::Selecting { team_id: pre.teams@[0].id })
        &&& post.teams == pre.teams
        &&& post.board == pre.board
        &&& post.event_state == pre.event_state
        &&& aux_unchanged(pre, post)
        &&& is_success(r, PlayPhase::Selecting { team_id: pre.teams@[0].id })
    } else {
        &&& post == pre
        &&& is_invalid_action(
            r,
            "StartGame"@,
            "Game can only be started from lobby with at least one team"@,
        )
    }
}

/// Acknowledging an announcement: a pure pass-through.
pub open spec fn acknowledge_event_post(
    pre: GameState,
    post: GameState,
    r: Result<GameActionResult, GameError>,
) -> bool {
    post == pre && is_success(r, pre.phase)
}

/// Force-resolving the current event: only the active slot is cleared.
pub open spec fn resolve_event_post(
    pre: GameState,
    post: GameState,
    r: Result<GameActionResult, GameError>,
) -> bool {
    &&& post.event_state.active_event is None
    &&& post.event_state.questions_answered == pre.event_state.questions_answered
    &&& post.event_state.queued_event == pre.event_state.queued_event
    &&& post.event_state.event_history == pre.event_state.event_history
    &&& post.event_state.animation_playing == pre.event_state.animation_playing
    &&& post.event_state.last_steal == pre.event_state.last_steal
    &&& post.board == pre.board
    &&& post.teams == pre.teams
    &&& post.phase == pre.phase
    &&& post.active_team == pre.active_team
    &&& aux_unchanged(pre, post)
    &&& is_success(r, pre.phase)
}

/// Returning to setup: legal from any phase, never an error; the game moves
/// to the terminal Finished phase — the only path that reaches it — and
/// everything else is left in place for the surrounding application to read.
pub open spec fn return_to_config_post(
    pre: GameState,
    post: GameState,
    r: Result<GameActionResult, GameError>,
) -> bool {
    &&& post.phase is Finished
    &&& post.board == pre.board
    &&& post.teams == pre.teams
    &&& post.active_team == pre.active_team
    &&& post.event_state == pre.event_state
    &&& aux_unchanged(pre, post)
    &&& is_success(r, PlayPhase::Finished)
}

/// The host's score override: guarded only by the team existing; records the
/// old and new score as an effect.
pub open spec fn manual_points_post(
    pre: GameState,
    team_id: u32,
    new_points: i32,
    post: GameState,
    r: Result<GameActionResult, GameError>,
) -> bool {
    if has_team(pre.teams@, team_id) {
        let ti = team_index(pre.teams@, team_id);
        &&& post.teams@ == pre.teams@.update(
            ti,
            Team { id: team_id, name: pre.teams@[ti].name, score: new_points },
        )
        &&& post.board == pre.board
        &&& post.phase == pre.phase
        &&& post.active_team == pre.active_team
        &&& post.event_state == pre.event_state
        &&& aux_unchanged(pre, post)
        &&& is_state_changed(
            r,
            pre.phase,
            seq![
                GameEffect::ManualScoreAdjustment {
                    team_id,
                    old_score: pre.teams@[ti].score,
                    new_score: new_points,
                },
            ],
        )
    } else {
        &&& post == pre
        &&& is_invalid_action(
            r,
            "ManualPointsAdjustment"@,
            "Team with ID "@ + spec_decimal(team_id as int) + " not found"@,
        )
    }
}

/// Queueing an event directly: the queued slot is filled; Hard-Reset applies
/// its score wipe immediately at queue time.
pub open spec fn queue_event_post(
    pre: GameState,
    event: GameEvent,
    post: GameState,
    r: Result<GameActionResult, GameError>,
) -> bool {
    &&& post.event_state.queued_event == Some(event)
    &&& post.event_state.questions_answered == pre.event_state.questions_answered
    &&& post.event_state.active_event == pre.event_state.active_event
    &&& post.event_state.event_history == pre.event_state.event_history
    &&& post.event_state.animation_playing == pre.event_state.animation_playing
    &&& post.event_state.last_steal == pre.event_state.last_steal
    &&& post.board == pre.board
    &&& post.phase == pre.phase
    &&& post.active_team == pre.active_team
    &&& aux_unchanged(pre, post)
    &&& (if event is HardReset {
        &&& teams_zeroed(pre.teams@, post.teams@)
        &&& is_state_changed(
            r,
            pre.phase,
            seq![GameEffect::EventQueued { event }, GameEffect::ScoreReset],
        )
    } else {
        &&& post.teams == pre.teams
        &&& is_state_changed(r, pre.phase, seq![GameEffect::EventQueued { event }])
    })
}

/// Playing the announcement: marks the animation in progress and, for the
/// kinds that act on the next clue (not Hard-Reset or Score-Steal), promotes
/// the event to active, appending it to the history.
pub open spec fn play_event_animation_post(
    pre: GameState,
    event: GameEvent,
    post: GameState,
    r: Result<GameActionResult, GameError>,
) -> bool {
    &&& post.event_state.animation_playing
    &&& post.event_state.questions_answered == pre.event_state.questions_answered
    &&& post.event_state.queued_event == pre.event_state.queued_event
    &&& post.event_state.last_steal == pre.event_state.last_steal
    &&& (if !(event is HardReset) && !(event is ScoreSteal) {
        &&& post.event_state.active_event == Some(event)
        &&& post.event_state.event_history@ == pre.event_state.event_history@.push(event)
    } else {
        &&& post.event_state.active_event == pre.event_state.active_event
        &&& post.event_state.event_history == pre.event_state.event_history
    })
    &&& post.board == pre.board
    &&& post.teams == pre.teams
    &&& post.phase == pre.phase
    &&& post.active_team == pre.active_team
    &&& aux_unchanged(pre, post)
    &&& is_state_changed(
        r,
        pre.phase,
        seq![GameEffect::EventAnimation { animation_type: spec_animation_type(event) }],
    )
}

/// The position of the first minimum score among the first `n` teams.
pub open spec fn first_min_index_upto(teams: Seq<Team>, n: int) -> int
    decreases n,
{
    if n <= 1 {
        0
    } else {
        let p = first_min_index_upto(teams, n - 1);
        if teams[n - 1].score < teams[p].score {
            n - 1
        } else {
            p
        }
    }
}

/// The position of the first maximum score among the first `n` teams.
pub open spec fn first_max_index_upto(teams: Seq<Team>, n: int) -> int
    decreases n,
{
    if n <= 1 {
        0
    } else {
        let p = first_max_index_upto(teams, n - 1);
        if teams[n - 1].score > teams[p].score {
            n - 1
        } else {
            p
        }
    }
}

/// The position of the first lowest-scoring team (the thief).
pub open spec fn first_min_index(teams: Seq<Team>) -> int {
    first_min_index_upto(teams, teams.len() as int)
}

/// The position of the first highest-scoring team (the victim).
pub open spec fn first_max_index(teams: Seq<Team>) -> int {
    first_max_index_upto(teams, teams.len() as int)
}

/// A score-steal transfer happens only with at least two teams whose scores
/// are not all equal.
pub open spec fn steal_transfer_applies(teams: Seq<Team>) -> bool {
    teams.len() >= 2 && first_min_index(teams) != first_max_index(teams)
}

/// The transferred amount: a fifth of the victim's score, rounded down, and
/// never negative.
pub open spec fn spec_steal_amount(victim_score: int) -> int {
    if victim_score > 0 {
        victim_score / 5
    } else {
        0
    }
}

/// The team list after the transfer: the victim loses the amount, the thief
/// gains it (saturating), everyone else is untouched.
pub open spec fn steal_teams_post(pre: Seq<Team>, post: Seq<Team>) -> bool {
    let ti = first_min_index(pre);
    let vi = first_max_index(pre);
    let amt = spec_steal_amount(pre[vi].score as int);
    post == pre.update(
        vi,
        Team { id: pre[vi].id, name: pre[vi].name, score: clamp_i32(pre[vi].score - amt) as i32 },
    ).update(
        ti,
        Team { id: pre[ti].id, name: pre[ti].name, score: clamp_i32(pre[ti].score + amt) as i32 },
    )
}

/// The display snapshot recorded for the transfer.
pub open spec fn steal_context(pre: Seq<Team>) -> StealEventContext {
    let ti = first_min_index(pre);
    let vi = first_max_index(pre);
    StealEventContext {
        thief_id: pre[ti].id,
        thief_name: pre[ti].name,
        victim_id: pre[vi].id,
        victim_name: pre[vi].name,
        amount: spec_steal_amount(pre[vi].score as int) as i32,
    }
}

/// The effects reported for the transfer, in order.
pub open spec fn steal_effects(pre: Seq<Team>) -> Seq<GameEffect> {
    let ti = first_min_index(pre);
    let vi = first_max_index(pre);
    let amt = spec_steal_amount(pre[vi].score as int);
    seq![
        GameEffect::ScoreChanged { team_id: pre[vi].id, delta: (-amt) as i32 },
        GameEffect::ScoreChanged { team_id: pre[ti].id, delta: amt as i32 },
        GameEffect::ScoreStealApplied { context: steal_context(pre) },
    ]
}

/// The first lowest- and first highest-scoring positions, when a transfer
/// applies.
fn find_lowest_and_highest(teams: &Vec<Team>) -> (r: Option<(usize, usize)>)
    ensures
        match r {
            Some(p) => steal_transfer_applies(teams@) && p.0 < teams@.len() && p.1 < teams@.len()
                && p.0 as int == first_min_index(teams@) && p.1 as int == first_max_index(teams@),
            None => !steal_transfer_applies(teams@),
        },
{
    let n = teams.len();
    if n < 2 {
        return None;
    }
    let mut min_i: usize = 0;
    let mut max_i: usize = 0;
    let mut i: usize = 1;
    while i < n
        invariant
            1 <= i <= n,
            n == teams@.len(),
            min_i < i,
            max_i < i,
            min_i as int == first_min_index_upto(teams@, i as int),
            max_i as int == first_max_index_upto(teams@, i as int),
        decreases n - i,
    {
        if teams[i].score < teams[min_i].score {
            min_i = i;
        }
        if teams[i].score > teams[max_i].score {
            max_i = i;
        }
        i = i + 1;
    }
    if min_i == max_i {
        None
    } else {
        Some((min_i, max_i))
    }
}

/// Applies the score-steal transfer to `state`, appending its effect
/// descriptors to `effects`; a no-op (and no snapshot) when fewer than two
/// teams exist or all scores are equal.
fn apply_score_steal(state: &mut GameState, effects: &mut Vec<GameEffect>)
    ensures
        final(state).board == old(state).board,
        final(state).phase == old(state).phase,
        final(state).active_team == old(state).active_team,
        aux_unchanged(*old(state), *final(state)),
        final(state).event_state.questions_answered == old(state).event_state.questions_answered,
        final(state).event_state.active_event == old(state).event_state.active_event,
        final(state).event_state.queued_event == old(state).event_state.queued_event,
        final(state).event_state.event_history == old(state).event_state.event_history,
        final(state).event_state.animation_playing == old(state).event_state.animation_playing,
        (if steal_transfer_applies(old(state).teams@) {
            &&& steal_teams_post(old(state).teams@, final(state).teams@)
            &&& final(state).event_state.last_steal == Some(steal_context(old(state).teams@))
            &&& final(effects)@ == old(effects)@ + steal_effects(old(state).teams@)
        } else {
            &&& final(state).teams == old(state).teams
            &&& final(state).event_state.last_steal == old(state).event_state.last_steal
            &&& final(effects)@ == old(effects)@
        }),
{
    match find_lowest_and_highest(&state.teams) {
        Some((thief_idx, victim_idx)) => {
            let victim_score = state.teams[victim_idx].score;
            let thief_score = state.teams[thief_idx].score;
            let amount: i32 = if victim_score > 0 {
                victim_score / 5
            } else {
                0
            };
            let new_victim = crate::scoring::sat_sub_i32(victim_score, amount);
            let new_thief = crate::scoring::sat_add_i32(thief_score, amount);
            crate::scoring::set_score_at(&mut state.teams, victim_idx, new_victim);
            crate::scoring::set_score_at(&mut state.teams, thief_idx, new_thief);
            let context = StealEventContext {
                thief_id: state.teams[thief_idx].id,
                thief_name: state.teams[thief_idx].name.clone(),
                victim_id: state.teams[victim_idx].id,
                victim_name: state.teams[victim_idx].name.clone(),
                amount,
            };
            let context_copy = StealEventContext {
                thief_id: context.thief_id,
                thief_name: context.thief_name.clone(),
                victim_id: context.victim_id,
                victim_name: context.victim_name.clone(),
                amount: context.amount,
            };
            state.event_state.last_steal = Some(context);
            let ghost eff0 = effects@;
            effects.push(
                GameEffect::ScoreChanged { team_id: state.teams[victim_idx].id, delta: -amount },
            );
            effects.push(
                GameEffect::ScoreChanged { team_id: state.teams[thief_idx].id, delta: amount },
            );
            effects.push(GameEffect::ScoreStealApplied { context: context_copy });
            proof {
                assert(final(state).teams@ =~= old(state).teams@.update(
                    first_max_index(old(state).teams@),
                    Team {
                        id: old(state).teams@[first_max_index(old(state).teams@)].id,
                        name: old(state).teams@[first_max_index(old(state).teams@)].name,
                        score: clamp_i32(
                            old(state).teams@[first_max_index(old(state).teams@)].score
                                - spec_steal_amount(
                                old(state).teams@[first_max_index(old(state).teams@)].score as int,
                            ),
                        ) as i32,
                    },
                ).update(
                    first_min_index(old(state).teams@),
                    Team {
                        id: old(state).teams@[first_min_index(old(state).teams@)].id,
                        name: old(state).teams@[first_min_index(old(state).teams@)].name,
                        score: clamp_i32(
                            old(state).teams@[first_min_index(old(state).teams@)].score
                                + spec_steal_amount(
                                old(state).teams@[first_max_index(old(state).teams@)].score as int,
                            ),
                        ) as i32,
                    },
                ));
                assert(effects@ =~= eff0 + steal_effects(old(state).teams@));
            }
        },
        None => {},
    }
}

/// The signed score delta for a clue worth `points`, doubled when
/// Double-Points is active.
fn effective_points(points: u32, doubled: bool) -> (r: i32)
    ensures
        r == crate::events::spec_effective_points(points, doubled),
{
    let p = if doubled {
        crate::events::DoublePointsEvent::calculate_points(points)
    } else {
        points
    };
    if p > i32::MAX as u32 {
        i32::MAX
    } else {
        p as i32
    }
}

/// Selecting a clue: legal only for the selecting team on an existing,
/// unsolved clue; while Reverse-Question is active the clue's texts are
/// swapped lazily here.  Moves to the showing phase with the attempt counter
/// at 1 and the value-tiered attempt allowance.
pub open spec fn select_clue_post(
    pre: GameState,
    clue: (usize, usize),
    team_id: u32,
    post: GameState,
    r: Result<GameActionResult, GameError>,
) -> bool {
    if crate::rules::spec_validate_team_action(
        pre,
        team_id,
        GameAction::SelectClue { clue, team_id },
    ) {
        let rq = spec_event_active(pre.event_state, GameEvent::ReverseQuestion);
        let base = clue_at(pre.board, clue);
        let new_phase = PlayPhase::Showing {
            clue,
            owner_team_id: team_id,
            attempt_count: 1,
            max_attempts: spec_max_attempts(base.points),
        };
        &&& (if rq {
            crate::domain::board_updated(
                pre.board,
                post.board,
                clue,
                Clue {
                    id: base.id,
                    points: base.points,
                    question: base.answer,
                    answer: base.question,
                    revealed: base.revealed,
                    solved: base.solved,
                },
            )
        } else {
            post.board == pre.board
        })
        &&& post.teams == pre.teams
        &&& post.active_team == pre.active_team
        &&& post.event_state == pre.event_state
        &&& aux_unchanged(pre, post)
        &&& post.phase == new_phase
        &&& (if rq {
            is_state_changed(r, new_phase, seq![GameEffect::ReverseQuestionActivated])
        } else {
            is_success(r, new_phase)
        })
    } else {
        &&& post == pre
        &&& is_invalid_action(r, "SelectClue"@, "Invalid clue selection or wrong team"@)
    }
}

/// A correct answer (by the owner, or by a stealing contender): the clue ends
/// revealed and solved, the answering team is awarded the clue's value
/// (doubled while Double-Points is active), a clue-scoped active event ends
/// here (Reverse-Question restoring the swapped texts), and the selecting
/// turn rotates one seat past the pre-mutation pivot.  Coordinates that name
/// no existing clue award nothing and still rotate.
pub open spec fn resolve_correct_post(
    pre: GameState,
    clue: (usize, usize),
    team_id: u32,
    post: GameState,
    r: Result<GameActionResult, GameError>,
) -> bool {
    let dp = spec_event_active(pre.event_state, GameEvent::DoublePoints);
    let rq = spec_event_active(pre.event_state, GameEvent::ReverseQuestion);
    if valid_clue_pos(pre.board, clue) {
        let base = clue_at(pre.board, clue);
        let delta = crate::events::spec_effective_points(base.points, dp);
        let ti = team_index(pre.teams@, team_id);
        &&& crate::domain::board_updated(
            pre.board,
            post.board,
            clue,
            Clue {
                id: base.id,
                points: base.points,
                question: (if rq {
                    base.answer
                } else {
                    base.question
                }),
                answer: (if rq {
                    base.question
                } else {
                    base.answer
                }),
                revealed: true,
                solved: true,
            },
        )
        &&& post.teams@ == pre.teams@.update(
            ti,
            Team {
                id: team_id,
                name: pre.teams@[ti].name,
                score: clamp_i32(pre.teams@[ti].score + delta) as i32,
            },
        )
        &&& post.event_state.active_event == (if dp || rq {
            Option::<GameEvent>::None
        } else {
            pre.event_state.active_event
        })
        &&& post.event_state.questions_answered == pre.event_state.questions_answered
        &&& post.event_state.queued_event == pre.event_state.queued_event
        &&& post.event_state.event_history == pre.event_state.event_history
        &&& post.event_state.animation_playing == pre.event_state.animation_playing
        &&& post.event_state.last_steal == pre.event_state.last_steal
        &&& post.active_team == spec_rotate(post.teams@, pre.active_team)
        &&& post.phase == (PlayPhase::Resolved { clue, next_team_id: post.active_team })
        &&& aux_unchanged(pre, post)
        &&& is_state_changed(
            r,
            post.phase,
            seq![
                GameEffect::ClueRevealed { clue },
                GameEffect::ClueSolved { clue },
                GameEffect::ScoreChanged { team_id, delta: delta as i32 },
                GameEffect::FlashEffect { effect_type: FlashType::Correct },
            ],
        )
    } else {
        &&& post.board == pre.board
        &&& post.teams == pre.teams
        &&& post.event_state == pre.event_state
        &&& post.active_team == spec_rotate(pre.teams@, pre.active_team)
        &&& post.phase == (PlayPhase::Resolved { clue, next_team_id: post.active_team })
        &&& aux_unchanged(pre, post)
        &&& is_state_changed(
            r,
            post.phase,
            seq![GameEffect::FlashEffect { effect_type: FlashType::Correct }],
        )
    }
}

/// Answering correctly: legal only for the showing phase's owner.
pub open spec fn answer_correct_post(
    pre: GameState,
    clue: (usize, usize),
    team_id: u32,
    post: GameState,
    r: Result<GameActionResult, GameError>,
) -> bool {
    if crate::rules::spec_validate_team_action(
        pre,
        team_id,
        GameAction::AnswerCorrect { clue, team_id },
    ) {
        resolve_correct_post(pre, clue, team_id, post, r)
    } else {
        &&& post == pre
        &&& is_invalid_action(
            r,
            "AnswerCorrect"@,
            "Can only answer in showing phase with correct team"@,
        )
    }
}

/// The owner's final failed attempt: the clue's full value (doubled while
/// Double-Points is active) is deducted, and play moves into the steal
/// sub-protocol over a uniformly random permutation of the other teams, the
/// first contender popped off as current — or, with no other team, an empty
/// queue with the owner named as current.
pub open spec fn final_attempt_post(
    pre: GameState,
    clue: (usize, usize),
    team_id: u32,
    post: GameState,
    r: Result<GameActionResult, GameError>,
) -> bool {
    let cv = valid_clue_pos(pre.board, clue);
    let dp = spec_event_active(pre.event_state, GameEvent::DoublePoints);
    let penalty = crate::events::spec_effective_points(clue_at(pre.board, clue).points, dp);
    let ti = team_index(pre.teams@, team_id);
    let others = crate::rules::other_team_ids(pre.teams@, team_id);
    &&& (if cv {
        post.teams@ == pre.teams@.update(
            ti,
            Team {
                id: team_id,
                name: pre.teams@[ti].name,
                score: clamp_i32(pre.teams@[ti].score - penalty) as i32,
            },
        )
    } else {
        post.teams == pre.teams
    })
    &&& post.board == pre.board
    &&& post.event_state == pre.event_state
    &&& post.active_team == pre.active_team
    &&& aux_unchanged(pre, post)
    &&& (post.phase matches PlayPhase::Steal { clue: c2, queue, current, owner_team_id: o }
        && c2 == clue && o == team_id && (if others.len() == 0 {
        current == team_id && queue@.len() == 0
    } else {
        queue@.len() + 1 == others.len() && (seq![current] + queue@).to_multiset()
            == others.to_multiset()
    }))
    &&& is_state_changed(
        r,
        post.phase,
        (if cv {
            seq![
                GameEffect::FlashEffect { effect_type: FlashType::Incorrect },
                GameEffect::ScoreChanged { team_id, delta: (-penalty) as i32 },
            ]
        } else {
            seq![GameEffect::FlashEffect { effect_type: FlashType::Incorrect }]
        }),
    )
}

/// Answering incorrectly: legal only for the showing phase's owner.  Below
/// the attempt allowance the phase stays in showing with the counter bumped
/// and no score change; the attempt that exhausts the allowance is the final
/// one.
pub open spec fn answer_incorrect_post(
    pre: GameState,
    clue: (usize, usize),
    team_id: u32,
    post: GameState,
    r: Result<GameActionResult, GameError>,
) -> bool {
    if crate::rules::spec_validate_team_action(
        pre,
        team_id,
        GameAction::AnswerIncorrect { clue, team_id },
    ) {
        pre.phase matches PlayPhase::Showing { attempt_count, max_attempts, .. } ==> (if attempt_count
            < max_attempts {
            &&& post.board == pre.board
            &&& post.teams == pre.teams
            &&& post.event_state == pre.event_state
            &&& post.active_team == pre.active_team
            &&& aux_unchanged(pre, post)
            &&& post.phase == (PlayPhase::Showing {
                clue,
                owner_team_id: team_id,
                attempt_count: (attempt_count + 1) as u32,
                max_attempts,
            })
            &&& is_state_changed(
                r,
                post.phase,
                seq![GameEffect::FlashEffect { effect_type: FlashType::Incorrect }],
            )
        } else {
            final_attempt_post(pre, clue, team_id, post, r)
        })
    } else {
        &&& post == pre
        &&& is_invalid_action(
            r,
            "AnswerIncorrect"@,
            "Can only answer in showing phase with correct team"@,
        )
    }
}

/// A steal attempt: legal only for the current contender.  A correct steal
/// resolves the clue in the contender's favour; an incorrect one passes to
/// the next contender, or — with the queue exhausted — closes the clue
/// unawarded: both flags are set together, as on every solving path, a
/// swapped text is restored, and the turn rotates past the pre-mutation
/// pivot.
pub open spec fn steal_attempt_post(
    pre: GameState,
    clue: (usize, usize),
    team_id: u32,
    correct: bool,
    post: GameState,
    r: Result<GameActionResult, GameError>,
) -> bool {
    if crate::rules::spec_validate_team_action(
        pre,
        team_id,
        GameAction::StealAttempt { clue, team_id, correct },
    ) {
        if correct {
            resolve_correct_post(pre, clue, team_id, post, r)
        } else {
            pre.phase matches PlayPhase::Steal { clue: pclue, queue, owner_team_id, .. } ==> (if queue@.len()
                > 0 {
                &&& post.board == pre.board
                &&& post.teams == pre.teams
                &&& post.event_state == pre.event_state
                &&& post.active_team == pre.active_team
                &&& aux_unchanged(pre, post)
                &&& (post.phase matches PlayPhase::Steal {
                    clue: c2,
                    queue: q2,
                    current: cu2,
                    owner_team_id: o2,
                } && c2 == pclue && o2 == owner_team_id && cu2 == queue@[0] && q2@
                    == queue@.drop_first())
                &&& is_state_changed(
                    r,
                    post.phase,
                    seq![GameEffect::FlashEffect { effect_type: FlashType::Incorrect }],
                )
            } else {
                let cv = valid_clue_pos(pre.board, clue);
                let rq = spec_event_active(pre.event_state, GameEvent::ReverseQuestion);
                let base = clue_at(pre.board, clue);
                &&& (if cv {
                    crate::domain::board_updated(
                        pre.board,
                        post.board,
                        clue,
                        Clue {
                            id: base.id,
                            points: base.points,
                            question: (if rq {
                                base.answer
                            } else {
                                base.question
                            }),
                            answer: (if rq {
                                base.question
                            } else {
                                base.answer
                            }),
                            revealed: true,
                            solved: true,
                        },
                    )
                } else {
                    post.board == pre.board
                })
                &&& (if cv && rq {
                    &&& post.event_state.active_event is None
                    &&& post.event_state.questions_answered
                        == pre.event_state.questions_answered
                    &&& post.event_state.queued_event == pre.event_state.queued_event
                    &&& post.event_state.event_history == pre.event_state.event_history
                    &&& post.event_state.animation_playing
                        == pre.event_state.animation_playing
                    &&& post.event_state.last_steal == pre.event_state.last_steal
                } else {
                    post.event_state == pre.event_state
                })
                &&& post.teams == pre.teams
                &&& post.active_team == spec_rotate(pre.teams@, pre.active_team)
                &&& post.phase == (PlayPhase::Resolved { clue, next_team_id: post.active_team })
                &&& aux_unchanged(pre, post)
                &&& is_state_changed(
                    r,
                    post.phase,
                    (if cv {
                        seq![
                            GameEffect::FlashEffect { effect_type: FlashType::Incorrect },
                            GameEffect::ClueSolved { clue },
                        ]
                    } else {
                        seq![GameEffect::FlashEffect { effect_type: FlashType::Incorrect }]
                    }),
                )
            })
        }
    } else {
        &&& post == pre
        &&& is_invalid_action(r, "StealAttempt"@, "Invalid steal attempt or wrong team"@)
    }
}

/// The question counter after one clue-closing action.
pub open spec fn qa_bumped(s: EventState) -> u32 {
    if s.questions_answered < u32::MAX {
        (s.questions_answered + 1) as u32
    } else {
        u32::MAX
    }
}

/// What closing a clue does when the periodic trigger fires and draws `e`:
/// the drawn kind comes from the shipped table (so it carries a positive
/// weight), lands in the queued slot, and the kinds that need no upcoming
/// clue apply their effect immediately at queue time.
pub open spec fn close_clue_drawn(
    pre: GameState,
    next_team_id: u32,
    e: GameEvent,
    post: GameState,
    r: Result<GameActionResult, GameError>,
) -> bool {
    let sel = PlayPhase::Selecting { team_id: next_team_id };
    &&& seq![
        GameEvent::DoublePoints,
        GameEvent::HardReset,
        GameEvent::ReverseQuestion,
        GameEvent::ScoreSteal,
    ].contains(e)
    &&& crate::events::spec_event_weight(e) > 0
    &&& post.event_state.queued_event == Some(e)
    &&& match e {
        GameEvent::HardReset => {
            &&& teams_zeroed(pre.teams@, post.teams@)
            &&& post.event_state.last_steal == pre.event_state.last_steal
            &&& is_state_changed(
                r,
                sel,
                seq![GameEffect::ScoreReset, GameEffect::EventQueued { event: e }],
            )
        },
        GameEvent::ScoreSteal => {
            if steal_transfer_applies(pre.teams@) {
                &&& steal_teams_post(pre.teams@, post.teams@)
                &&& post.event_state.last_steal == Some(steal_context(pre.teams@))
                &&& is_state_changed(
                    r,
                    sel,
                    steal_effects(pre.teams@).push(GameEffect::EventQueued { event: e }),
                )
            } else {
                &&& post.teams == pre.teams
                &&& post.event_state.last_steal == pre.event_state.last_steal
                &&& is_state_changed(r, sel, seq![GameEffect::EventQueued { event: e }])
            }
        },
        _ => {
            &&& post.teams == pre.teams
            &&& post.event_state.last_steal == pre.event_state.last_steal
            &&& is_state_changed(r, sel, seq![GameEffect::EventQueued { event: e }])
        },
    }
}

/// Closing a resolved clue: counts the question, fires the periodic event
/// trigger when due, and hands the selecting turn to the caller-named next
/// team.
pub open spec fn close_clue_post(
    pre: GameState,
    clue: (usize, usize),
    next_team_id: u32,
    post: GameState,
    r: Result<GameActionResult, GameError>,
) -> bool {
    if pre.phase is Resolved {
        let qa1 = qa_bumped(pre.event_state);
        let trig = qa1 > 0 && qa1 % 4 == 0 && pre.event_state.active_event is None
            && pre.event_state.queued_event is None;
        &&& post.board == pre.board
        &&& post.active_team == pre.active_team
        &&& post.phase == (PlayPhase::Selecting { team_id: next_team_id })
        &&& aux_unchanged(pre, post)
        &&& post.event_state.questions_answered == qa1
        &&& post.event_state.active_event == pre.event_state.active_event
        &&& post.event_state.event_history == pre.event_state.event_history
        &&& post.event_state.animation_playing == pre.event_state.animation_playing
        &&& (if trig {
            exists|e: GameEvent| #[trigger] close_clue_drawn(pre, next_team_id, e, post, r)
        } else {
            &&& post.teams == pre.teams
            &&& post.event_state.queued_event == pre.event_state.queued_event
            &&& post.event_state.last_steal == pre.event_state.last_steal
            &&& is_success(r, PlayPhase::Selecting { team_id: next_team_id })
        })
    } else {
        &&& post == pre
        &&& is_invalid_action(r, "CloseClue"@, "Can only close clue in resolved phase"@)
    }
}

/// Triggering an event manually, bypassing the queue: refused with the
/// already-active error (and no mutation) while an event is active; otherwise
/// the event is activated and its immediate effect applied.
pub open spec fn trigger_event_post(
    pre: GameState,
    event: GameEvent,
    post: GameState,
    r: Result<GameActionResult, GameError>,
) -> bool {
    if pre.event_state.active_event is Some {
        &&& post == pre
        &&& r matches Err(GameError::EventError(EventError::EventAlreadyActive))
    } else {
        let base = seq![
            GameEffect::EventTriggered { event },
            GameEffect::EventAnimation { animation_type: spec_animation_type(event) },
        ];
        &&& post.event_state.active_event == Some(event)
        &&& post.event_state.event_history@ == pre.event_state.event_history@.push(event)
        &&& post.event_state.questions_answered == pre.event_state.questions_answered
        &&& post.event_state.queued_event == pre.event_state.queued_event
        &&& post.event_state.animation_playing == pre.event_state.animation_playing
        &&& post.board == pre.board
        &&& post.phase == pre.phase
        &&& post.active_team == pre.active_team
        &&& aux_unchanged(pre, post)
        &&& match event {
            GameEvent::HardReset => {
                &&& teams_zeroed(pre.teams@, post.teams@)
                &&& post.event_state.last_steal == pre.event_state.last_steal
                &&& is_state_changed(r, pre.phase, base.push(GameEffect::ScoreReset))
            },
            GameEvent::DoublePoints => {
                &&& post.teams == pre.teams
                &&& post.event_state.last_steal == pre.event_state.last_steal
                &&& is_state_changed(r, pre.phase, base.push(GameEffect::DoublePointsActivated))
            },
            GameEvent::ReverseQuestion => {
                &&& post.teams == pre.teams
                &&& post.event_state.last_steal == pre.event_state.last_steal
                &&& is_state_changed(r, pre.phase, base.push(GameEffect::ReverseQuestionActivated))
            },
            GameEvent::ScoreSteal => {
                if steal_transfer_applies(pre.teams@) {
                    &&& steal_teams_post(pre.teams@, post.teams@)
                    &&& post.event_state.last_steal == Some(steal_context(pre.teams@))
                    &&& is_state_changed(r, pre.phase, base + steal_effects(pre.teams@))
                } else {
                    &&& post.teams == pre.teams
                    &&& post.event_state.last_steal == pre.event_state.last_steal
                    &&& is_state_changed(r, pre.phase, base)
                }
            },
        }
    }
}

/// What the action entry point guarantees, by action.
pub open spec fn handle_post(
    pre: GameState,
    action: GameAction,
    post: GameState,
    r: Result<GameActionResult, GameError>,
) -> bool {
    match action {
        GameAction::AddTeam { name } => add_team_post(pre, name, post, r),
        GameAction::StartGame => start_game_post(pre, post, r),
        GameAction::SelectClue { clue, team_id } => select_clue_post(pre, clue, team_id, post, r),
        GameAction::AnswerCorrect { clue, team_id } => answer_correct_post(
            pre,
            clue,
            team_id,
            post,
            r,
        ),
        GameAction::AnswerIncorrect { clue, team_id } => answer_incorrect_post(
            pre,
            clue,
            team_id,
            post,
            r,
        ),
        GameAction::StealAttempt { clue, team_id, correct } => steal_attempt_post(
            pre,
            clue,
            team_id,
            correct,
            post,
            r,
        ),
        GameAction::CloseClue { clue, next_team_id } => close_clue_post(
            pre,
            clue,
            next_team_id,
            post,
            r,
        ),
        GameAction::QueueEvent { event } => queue_event_post(pre, event, post, r),
        GameAction::PlayEventAnimation { event } => play_event_animation_post(pre, event, post, r),
        GameAction::TriggerEvent { event } => trigger_event_post(pre, event, post, r),
        GameAction::AcknowledgeEvent => acknowledge_event_post(pre, post, r),
        GameAction::ResolveEvent => resolve_event_post(pre, post, r),
        GameAction::ReturnToConfig => return_to_config_post(pre, post, r),
        GameAction::ManualPointsAdjustment { team_id, new_points } => manual_points_post(
            pre,
            team_id,
            new_points,
            post,
            r,
        ),
    }
}

/// A board update elsewhere, or one that leaves the touched clue solved,
/// keeps a solved clue solved.
proof fn lemma_updated_board_keeps_solved(
    pre: Board,
    post: Board,
    pos: (usize, usize),
    c: Clue,
    q: (usize, usize),
)
    requires
        crate::domain::board_updated(pre, post, pos, c),
        valid_clue_pos(pre, pos),
        valid_clue_pos(pre, q),
        clue_at(pre, q).solved,
        pos == q ==> c.solved,
    ensures
        valid_clue_pos(post, q),
        clue_at(post, q).solved,
{
    if q.0 == pos.0 && q.1 == pos.1 {
        assert(pos == q);
        assert(clue_at(post, q) == c);
    } else if q.0 == pos.0 {
        assert(clue_at(post, q) == pre.categories@[pos.0 as int].clues@.update(
            pos.1 as int,
            c,
        )[q.1 as int]);
        assert(clue_at(post, q) == clue_at(pre, q));
    } else {
        assert(post.categories@[q.0 as int] == pre.categories@[q.0 as int]);
    }
}

/// A correctly answered clue ends with both its flags set, and its position
/// is no longer selectable.
pub proof fn lemma_correct_answer_closes_clue(
    pre: GameState,
    clue: (usize, usize),
    team_id: u32,
    post: GameState,
    r: Result<GameActionResult, GameError>,
)
    requires
        valid_clue_pos(pre.board, clue),
        resolve_correct_post(pre, clue, team_id, post, r),
    ensures
        valid_clue_pos(post.board, clue),
        clue_at(post.board, clue).solved,
        clue_at(post.board, clue).revealed,
        !crate::rules::spec_can_select_clue(post, clue),
{
}

/// No action ever clears a clue's solved flag: once solved, a clue stays
/// solved across every transition of the handler.
pub proof fn lemma_solved_clue_stays_solved(
    pre: GameState,
    action: GameAction,
    post: GameState,
    r: Result<GameActionResult, GameError>,
    q: (usize, usize),
)
    requires
        handle_post(pre, action, post, r),
        valid_clue_pos(pre.board, q),
        clue_at(pre.board, q).solved,
    ensures
        valid_clue_pos(post.board, q),
        clue_at(post.board, q).solved,
{
    match action {
        GameAction::SelectClue { clue, team_id } => {
            if crate::rules::spec_validate_team_action(
                pre,
                team_id,
                GameAction::SelectClue { clue, team_id },
            ) && spec_event_active(pre.event_state, GameEvent::ReverseQuestion) {
                let base = clue_at(pre.board, clue);
                lemma_updated_board_keeps_solved(
                    pre.board,
                    post.board,
                    clue,
                    Clue {
                        id: base.id,
                        points: base.points,
                        question: base.answer,
                        answer: base.question,
                        revealed: base.revealed,
                        solved: base.solved,
                    },
                    q,
                );
            }
        },
        GameAction::AnswerCorrect { clue, team_id } => {
            lemma_resolve_correct_keeps_solved(pre, clue, team_id, post, r, q);
        },
        GameAction::StealAttempt { clue, team_id, correct } => {
            if crate::rules::spec_validate_team_action(
                pre,
                team_id,
                GameAction::StealAttempt { clue, team_id, correct },
            ) {
                if correct {
                    lemma_resolve_correct_keeps_solved(pre, clue, team_id, post, r, q);
                } else {
                    if pre.phase matches PlayPhase::Steal { queue, .. } && queue@.len() == 0
                        && valid_clue_pos(pre.board, clue) {
                        let rq = spec_event_active(pre.event_state, GameEvent::ReverseQuestion);
                        let base = clue_at(pre.board, clue);
                        lemma_updated_board_keeps_solved(
                            pre.board,
                            post.board,
                            clue,
                            Clue {
                                id: base.id,
                                points: base.points,
                                question: (if rq {
                                    base.answer
                                } else {
                                    base.question
                                }),
                                answer: (if rq {
                                    base.question
                                } else {
                                    base.answer
                                }),
                                revealed: true,
                                solved: true,
                            },
                            q,
                        );
                    }
                }
            }
        },
        _ => {},
    }
}

/// Resolving a clue in a team's favour never clears another clue's solved
/// flag.
proof fn lemma_resolve_correct_keeps_solved(
    pre: GameState,
    clue: (usize, usize),
    team_id: u32,
    post: GameState,
    r: Result<GameActionResult, GameError>,
    q: (usize, usize),
)
    requires
        resolve_correct_post(pre, clue, team_id, post, r) || post.board == pre.board,
        valid_clue_pos(pre.board, q),
        clue_at(pre.board, q).solved,
    ensures
        valid_clue_pos(post.board, q),
        clue_at(post.board, q).solved,
{
    if post.board != pre.board && valid_clue_pos(pre.board, clue) {
        let dp = spec_event_active(pre.event_state, GameEvent::DoublePoints);
        let rq = spec_event_active(pre.event_state, GameEvent::ReverseQuestion);
        let base = clue_at(pre.board, clue);
        lemma_updated_board_keeps_solved(
            pre.board,
            post.board,
            clue,
            Clue {
                id: base.id,
                points: base.points,
                question: (if rq {
                    base.answer
                } else {
                    base.question
                }),
                answer: (if rq {
                    base.question
                } else {
                    base.answer
                }),
                revealed: true,
                solved: true,
            },
            q,
        );
    }
}

/// The action handler: owns the rule predicates and the scoring helper.
#[derive(Debug)]
pub struct GameActionHandler {
    rules: GameRules,
    scoring: ScoringEngine,
}

impl GameActionHandler {
    pub fn new() -> (h: Self) {
        GameActionHandler { rules: GameRules::new(), scoring: ScoringEngine::new() }
    }

    /// The single entry point: validates, mutates, and reports the new phase
    /// with effect descriptors — or a typed, recoverable error, in which case
    /// the state is left untouched.
    pub fn handle(&self, state: &mut GameState, action: GameAction) -> (r: Result<
        GameActionResult,
        GameError,
    >)
        ensures
            handle_post(*old(state), action, *final(state), r),
    {
        match action {
            GameAction::AddTeam { name } => self.handle_add_team(state, name),
            GameAction::StartGame => self.handle_start_game(state),
            GameAction::SelectClue { clue, team_id } => self.handle_select_clue(
                state,
                clue,
                team_id,
            ),
            GameAction::AnswerCorrect { clue, team_id } => self.handle_answer_correct(
                state,
                clue,
                team_id,
            ),
            GameAction::AnswerIncorrect { clue, team_id } => self.handle_answer_incorrect(
                state,
                clue,
                team_id,
            ),
            GameAction::StealAttempt { clue, team_id, correct } => self.handle_steal_attempt(
                state,
                clue,
                team_id,
                correct,
            ),
            GameAction::CloseClue { clue, next_team_id } => self.handle_close_clue(
                state,
                clue,
                next_team_id,
            ),
            GameAction::QueueEvent { event } => self.handle_queue_event(state, event),
            GameAction::PlayEventAnimation { event } => self.handle_play_event_animation(
                state,
                event,
            ),
            GameAction::TriggerEvent { event } => self.handle_trigger_event(state, event),
            GameAction::AcknowledgeEvent => self.handle_acknowledge_event(state),
            GameAction::ResolveEvent => self.handle_resolve_event(state),
            GameAction::ReturnToConfig => self.handle_return_to_config(state),
            GameAction::ManualPointsAdjustment { team_id, new_points } => self
                .handle_manual_points_adjustment(state, team_id, new_points),
        }
    }

    fn handle_add_team(&self, state: &mut GameState, name: String) -> (r: Result<
        GameActionResult,
        GameError,
    >)
        ensures
            add_team_post(*old(state), name, *final(state), r),
    {
        if !self.rules.can_add_team(state) {
            return Err(
                invalid_action("AddTeam", "Can only add teams in lobby phase"),
            );
        }
        state.add_team(name);
        Ok(GameActionResult::Success { new_phase: copy_phase(&state.phase) })
    }

    fn handle_start_game(&self, state: &mut GameState) -> (r: Result<GameActionResult, GameError>)
        ensures
            start_game_post(*old(state), *final(state), r),
    {
        if !self.rules.can_start_game(state) {
            return Err(
                invalid_action(
                    "StartGame",
                    "Game can only be started from lobby with at least one team",
                ),
            );
        }
        let first_team_id = state.teams[0].id;
        state.active_team = first_team_id;
        state.phase = PlayPhase::Selecting { team_id: first_team_id };
        Ok(GameActionResult::Success { new_phase: PlayPhase::Selecting { team_id: first_team_id } })
    }

    fn handle_acknowledge_event(&self, state: &mut GameState) -> (r: Result<
        GameActionResult,
        GameError,
    >)
        ensures
            acknowledge_event_post(*old(state), *final(state), r),
    {
        Ok(GameActionResult::Success { new_phase: copy_phase(&state.phase) })
    }

    fn handle_resolve_event(&self, state: &mut GameState) -> (r: Result<
        GameActionResult,
        GameError,
    >)
        ensures
            resolve_event_post(*old(state), *final(state), r),
    {
        state.event_state.deactivate_event();
        Ok(GameActionResult::Success { new_phase: copy_phase(&state.phase) })
    }

    fn handle_return_to_config(&self, state: &mut GameState) -> (r: Result<
        GameActionResult,
        GameError,
    >)
        ensures
            return_to_config_post(*old(state), *final(state), r),
    {
        state.phase = PlayPhase::Finished;
        Ok(GameActionResult::Success { new_phase: PlayPhase::Finished })
    }

    fn handle_manual_points_adjustment(
        &self,
        state: &mut GameState,
        team_id: u32,
        new_points: i32,
    ) -> (r: Result<GameActionResult, GameError>)
        ensures
            manual_points_post(*old(state), team_id, new_points, *final(state), r),
    {
        proof {
            crate::scoring::lemma_team_index(state.teams@, team_id);
        }
        match crate::scoring::find_team_index(state.teams.as_slice(), team_id) {
            Some(i) => {
                let old_score = state.teams[i].score;
                crate::scoring::set_score_at(&mut state.teams, i, new_points);
                let mut effects: Vec<GameEffect> = Vec::new();
                effects.push(
                    GameEffect::ManualScoreAdjustment {
                        team_id,
                        old_score,
                        new_score: new_points,
                    },
                );
                proof {
                    assert(effects@ =~= seq![
                        GameEffect::ManualScoreAdjustment {
                            team_id,
                            old_score: old(state).teams@[team_index(
                                old(state).teams@,
                                team_id,
                            )].score,
                            new_score: new_points,
                        },
                    ]);
                }
                Ok(GameActionResult::StateChanged { new_phase: copy_phase(&state.phase), effects })
            },
            None => {
                let mut reason = "Team with ID ".to_owned();
                let id_text = crate::text::u32_decimal(team_id);
                reason.append(id_text.as_str());
                reason.append(" not found");
                Err(GameError::InvalidAction { action: "ManualPointsAdjustment".to_owned(), reason })
            },
        }
    }

    fn handle_select_clue(&self, state: &mut GameState, clue: (usize, usize), team_id: u32) -> (r:
        Result<GameActionResult, GameError>)
        ensures
            select_clue_post(*old(state), clue, team_id, *final(state), r),
    {
        let action = GameAction::SelectClue { clue, team_id };
        if !self.rules.validate_team_action(state, team_id, &action) {
            return Err(invalid_action("SelectClue", "Invalid clue selection or wrong team"));
        }
        let mut effects: Vec<GameEffect> = Vec::new();
        let rq = state.event_state.is_event_active(&GameEvent::ReverseQuestion);
        if rq {
            crate::state::swap_clue_text(&mut state.board, clue);
            effects.push(GameEffect::ReverseQuestionActivated);
        }
        let points = get_question_points(state, clue);
        let max_attempts = calculate_max_attempts(points);
        let new_phase = PlayPhase::Showing { clue, owner_team_id: team_id, attempt_count: 1, max_attempts };
        state.phase = PlayPhase::Showing { clue, owner_team_id: team_id, attempt_count: 1, max_attempts };
        if effects.len() == 0 {
            Ok(GameActionResult::Success { new_phase })
        } else {
            proof {
                assert(effects@ =~= seq![GameEffect::ReverseQuestionActivated]);
            }
            Ok(GameActionResult::StateChanged { new_phase, effects })
        }
    }

    /// Closes the clue in favour of `team_id`: solve, reveal, award, end a
    /// clue-scoped event, rotate past the pre-mutation pivot.
    fn resolve_correct(&self, state: &mut GameState, clue: (usize, usize), team_id: u32) -> (r:
        Result<GameActionResult, GameError>)
        requires
            has_team(old(state).teams@, team_id),
        ensures
            resolve_correct_post(*old(state), clue, team_id, *final(state), r),
    {
        let mut effects: Vec<GameEffect> = Vec::new();
        let dp = state.event_state.is_event_active(&GameEvent::DoublePoints);
        let rq = state.event_state.is_event_active(&GameEvent::ReverseQuestion);
        let valid = match state.get_clue(clue) {
            Some(_) => true,
            None => false,
        };
        if valid {
            let points = get_question_points(state, clue);
            crate::state::finish_clue_at(&mut state.board, clue, true, rq);
            effects.push(GameEffect::ClueRevealed { clue });
            effects.push(GameEffect::ClueSolved { clue });
            let delta = effective_points(points, dp);
            proof {
                crate::scoring::lemma_team_index(state.teams@, team_id);
            }
            if self.scoring.award_points(&mut state.teams, team_id, delta) {
                effects.push(GameEffect::ScoreChanged { team_id, delta });
            }
            if dp || rq {
                state.event_state.deactivate_event();
            }
        }
        effects.push(GameEffect::FlashEffect { effect_type: FlashType::Correct });
        let next_team_id = self.scoring.rotate_active_team(
            state.teams.as_slice(),
            state.active_team,
        );
        state.active_team = next_team_id;
        state.phase = PlayPhase::Resolved { clue, next_team_id };
        proof {
            if valid_clue_pos(old(state).board, clue) {
                let dpv = spec_event_active(old(state).event_state, GameEvent::DoublePoints);
                let base = clue_at(old(state).board, clue);
                assert(effects@ =~= seq![
                    GameEffect::ClueRevealed { clue },
                    GameEffect::ClueSolved { clue },
                    GameEffect::ScoreChanged {
                        team_id,
                        delta: crate::events::spec_effective_points(base.points, dpv) as i32,
                    },
                    GameEffect::FlashEffect { effect_type: FlashType::Correct },
                ]);
            } else {
                assert(effects@ =~= seq![
                    GameEffect::FlashEffect { effect_type: FlashType::Correct },
                ]);
            }
        }
        Ok(GameActionResult::StateChanged {
            new_phase: PlayPhase::Resolved { clue, next_team_id },
            effects,
        })
    }

    fn handle_answer_correct(&self, state: &mut GameState, clue: (usize, usize), team_id: u32)
        -> (r: Result<GameActionResult, GameError>)
        ensures
            answer_correct_post(*old(state), clue, team_id, *final(state), r),
    {
        let action = GameAction::AnswerCorrect { clue, team_id };
        if !self.rules.validate_team_action(state, team_id, &action) {
            return Err(
                invalid_action("AnswerCorrect", "Can only answer in showing phase with correct team"),
            );
        }
        self.resolve_correct(state, clue, team_id)
    }

    fn handle_answer_incorrect(&self, state: &mut GameState, clue: (usize, usize), team_id: u32)
        -> (r: Result<GameActionResult, GameError>)
        ensures
            answer_incorrect_post(*old(state), clue, team_id, *final(state), r),
    {
        let action = GameAction::AnswerIncorrect { clue, team_id };
        if !self.rules.validate_team_action(state, team_id, &action) {
            return Err(
                invalid_action(
                    "AnswerIncorrect",
                    "Can only answer in showing phase with correct team",
                ),
            );
        }
        let (attempt_count, max_attempts) = match &state.phase {
            PlayPhase::Showing { attempt_count, max_attempts, .. } => (
                *attempt_count,
                *max_attempts,
            ),
            _ => {
                return Err(
                    invalid_action("AnswerIncorrect", "Can only answer incorrect in showing phase"),
                );
            },
        };
        let mut effects: Vec<GameEffect> = Vec::new();
        effects.push(GameEffect::FlashEffect { effect_type: FlashType::Incorrect });
        if attempt_count < max_attempts {
            state.phase = PlayPhase::Showing {
                clue,
                owner_team_id: team_id,
                attempt_count: attempt_count + 1,
                max_attempts,
            };
            proof {
                assert(effects@ =~= seq![
                    GameEffect::FlashEffect { effect_type: FlashType::Incorrect },
                ]);
            }
            return Ok(
                GameActionResult::StateChanged {
                    new_phase: PlayPhase::Showing {
                        clue,
                        owner_team_id: team_id,
                        attempt_count: attempt_count + 1,
                        max_attempts,
                    },
                    effects,
                },
            );
        }
        self.handle_final_attempt_incorrect(state, clue, team_id, effects)
    }

    /// Deducts the clue's full value and opens the steal sub-protocol.
    fn handle_final_attempt_incorrect(
        &self,
        state: &mut GameState,
        clue: (usize, usize),
        team_id: u32,
        effects: Vec<GameEffect>,
    ) -> (r: Result<GameActionResult, GameError>)
        requires
            has_team(old(state).teams@, team_id),
            effects@ == seq![GameEffect::FlashEffect { effect_type: FlashType::Incorrect }],
        ensures
            final_attempt_post(*old(state), clue, team_id, *final(state), r),
    {
        let mut effects = effects;
        let valid = match state.get_clue(clue) {
            Some(_) => true,
            None => false,
        };
        if valid {
            let points = get_question_points(state, clue);
            let dp = state.event_state.is_event_active(&GameEvent::DoublePoints);
            let penalty = effective_points(points, dp);
            proof {
                crate::scoring::lemma_team_index(state.teams@, team_id);
            }
            if self.scoring.deduct_points(&mut state.teams, team_id, penalty) {
                effects.push(GameEffect::ScoreChanged { team_id, delta: -penalty });
            }
            proof {
                assert(effects@ =~= seq![
                    GameEffect::FlashEffect { effect_type: FlashType::Incorrect },
                    GameEffect::ScoreChanged {
                        team_id,
                        delta: (-crate::events::spec_effective_points(
                            clue_at(old(state).board, clue).points,
                            spec_event_active(old(state).event_state, GameEvent::DoublePoints),
                        )) as i32,
                    },
                ]);
            }
        }
        proof {
            crate::rules::lemma_other_ids_depend_on_ids_only(
                state.teams@,
                old(state).teams@,
                team_id,
            );
        }
        let mut queue = self.rules.get_steal_queue(state, team_id);
        let ghost drawn_queue = queue@;
        let current = match queue.pop_front() {
            Some(c) => c,
            None => team_id,
        };
        proof {
            if drawn_queue.len() > 0 {
                assert(seq![current] + queue@ =~= drawn_queue);
            }
            broadcast use vstd::seq_lib::group_to_multiset_ensures;

            if crate::rules::other_team_ids(old(state).teams@, team_id).len() > 0 {
                assert(drawn_queue.to_multiset().len() == drawn_queue.len());
            }
        }
        let queue_copy = copy_id_queue(&queue);
        state.phase = PlayPhase::Steal { clue, queue, current, owner_team_id: team_id };
        Ok(
            GameActionResult::StateChanged {
                new_phase: PlayPhase::Steal {
                    clue,
                    queue: queue_copy,
                    current,
                    owner_team_id: team_id,
                },
                effects,
            },
        )
    }

    fn handle_steal_attempt(
        &self,
        state: &mut GameState,
        clue: (usize, usize),
        team_id: u32,
        correct: bool,
    ) -> (r: Result<GameActionResult, GameError>)
        ensures
            steal_attempt_post(*old(state), clue, team_id, correct, *final(state), r),
    {
        let action = GameAction::StealAttempt { clue, team_id, correct };
        if !self.rules.validate_team_action(state, team_id, &action) {
            return Err(invalid_action("StealAttempt", "Invalid steal attempt or wrong team"));
        }
        if correct {
            return self.resolve_correct(state, clue, team_id);
        }
        let mut effects: Vec<GameEffect> = Vec::new();
        effects.push(GameEffect::FlashEffect { effect_type: FlashType::Incorrect });
        let mut taken_phase = PlayPhase::Intermission;
        core::mem::swap(&mut state.phase, &mut taken_phase);
        match taken_phase {
            PlayPhase::Steal { clue: phase_clue, queue, current: _, owner_team_id } => {
                let mut queue = queue;
                match queue.pop_front() {
                    Some(next_team) => {
                        proof {
                            assert(effects@ =~= seq![
                                GameEffect::FlashEffect { effect_type: FlashType::Incorrect },
                            ]);
                        }
                        let queue_copy = copy_id_queue(&queue);
                        state.phase = PlayPhase::Steal {
                            clue: phase_clue,
                            queue,
                            current: next_team,
                            owner_team_id,
                        };
                        Ok(
                            GameActionResult::StateChanged {
                                new_phase: PlayPhase::Steal {
                                    clue: phase_clue,
                                    queue: queue_copy,
                                    current: next_team,
                                    owner_team_id,
                                },
                                effects,
                            },
                        )
                    },
                    None => {
                        let valid = match state.get_clue(clue) {
                            Some(_) => true,
                            None => false,
                        };
                        if valid {
                            let rq = state.event_state.is_event_active(
                                &GameEvent::ReverseQuestion,
                            );
                            crate::state::finish_clue_at(&mut state.board, clue, true, rq);
                            if rq {
                                state.event_state.deactivate_event();
                            }
                            effects.push(GameEffect::ClueSolved { clue });
                            proof {
                                assert(effects@ =~= seq![
                                    GameEffect::FlashEffect { effect_type: FlashType::Incorrect },
                                    GameEffect::ClueSolved { clue },
                                ]);
                            }
                        } else {
                            proof {
                                assert(effects@ =~= seq![
                                    GameEffect::FlashEffect { effect_type: FlashType::Incorrect },
                                ]);
                            }
                        }
                        let next_team_id = self.scoring.rotate_active_team(
                            state.teams.as_slice(),
                            state.active_team,
                        );
                        state.active_team = next_team_id;
                        state.phase = PlayPhase::Resolved { clue, next_team_id };
                        Ok(
                            GameActionResult::StateChanged {
                                new_phase: PlayPhase::Resolved { clue, next_team_id },
                                effects,
                            },
                        )
                    },
                }
            },
            other => {
                state.phase = other;
                Err(invalid_action("StealAttempt", "Can only steal in steal phase"))
            },
        }
    }

    fn handle_close_clue(
        &self,
        state: &mut GameState,
        clue: (usize, usize),
        next_team_id: u32,
    ) -> (r: Result<GameActionResult, GameError>)
        ensures
            close_clue_post(*old(state), clue, next_team_id, *final(state), r),
    {
        let action = GameAction::CloseClue { clue, next_team_id };
        if !self.rules.is_action_valid(state, &action) {
            return Err(invalid_action("CloseClue", "Can only close clue in resolved phase"));
        }
        state.event_state.increment_question_count();
        if state.event_state.should_trigger_event() {
            let config = crate::events::EventConfig::default();
            let drawn = config.get_random_event();
            match drawn {
                Some(event) => {
                    proof {
                        let es = config.enabled_events@;
                        assert(crate::events::spec_event_weight(es[1]) > 0);
                        let ws = seq![0u32, 100u32, 0u32, 0u32];
                        assert(crate::events::weights_of(es) =~= ws);
                        assert(ws.drop_last() =~= seq![0u32, 100u32, 0u32]);
                        assert(seq![0u32, 100u32, 0u32].drop_last() =~= seq![0u32, 100u32]);
                        assert(seq![0u32, 100u32].drop_last() =~= seq![0u32]);
                        assert(seq![0u32].drop_last() =~= Seq::<u32>::empty());
                        assert(crate::rng::weight_sum(Seq::<u32>::empty()) == 0);
                        assert(crate::rng::weight_sum(seq![0u32]) == 0);
                        assert(crate::rng::weight_sum(seq![0u32, 100u32]) == 100);
                        assert(crate::rng::weight_sum(seq![0u32, 100u32, 0u32]) == 100);
                        assert(crate::rng::weight_sum(ws) == 100);
                        assert(crate::rng::weight_sum(crate::events::weights_of(es)) == 100);
                    }
                    let mut effects: Vec<GameEffect> = Vec::new();
                    state.event_state.queue_event(event);
                    if matches!(event, GameEvent::HardReset) {
                        crate::events::HardResetEvent::reset_all_scores(&mut state.teams);
                        effects.push(GameEffect::ScoreReset);
                    } else if matches!(event, GameEvent::ScoreSteal) {
                        apply_score_steal(state, &mut effects);
                    }
                    effects.push(GameEffect::EventQueued { event });
                    proof {
                        if event is HardReset {
                            assert(effects@ =~= seq![
                                GameEffect::ScoreReset,
                                GameEffect::EventQueued { event },
                            ]);
                        } else if event is ScoreSteal && steal_transfer_applies(
                            old(state).teams@,
                        ) {
                            assert(effects@ =~= steal_effects(old(state).teams@).push(
                                GameEffect::EventQueued { event },
                            ));
                        } else {
                            assert(effects@ =~= seq![GameEffect::EventQueued { event }]);
                        }
                    }
                    state.phase = PlayPhase::Selecting { team_id: next_team_id };
                    let r: Result<GameActionResult, GameError> = Ok(
                        GameActionResult::StateChanged {
                            new_phase: PlayPhase::Selecting { team_id: next_team_id },
                            effects,
                        },
                    );
                    proof {
                        assert(close_clue_drawn(*old(state), next_team_id, event, *state, r));
                    }
                    r
                },
                None => {
                    state.phase = PlayPhase::Selecting { team_id: next_team_id };
                    Ok(
                        GameActionResult::Success {
                            new_phase: PlayPhase::Selecting { team_id: next_team_id },
                        },
                    )
                },
            }
        } else {
            state.phase = PlayPhase::Selecting { team_id: next_team_id };
            Ok(
                GameActionResult::Success {
                    new_phase: PlayPhase::Selecting { team_id: next_team_id },
                },
            )
        }
    }

    fn handle_trigger_event(&self, state: &mut GameState, event: GameEvent) -> (r: Result<
        GameActionResult,
        GameError,
    >)
        ensures
            trigger_event_post(*old(state), event, *final(state), r),
    {
        if state.event_state.active_event.is_some() {
            return Err(GameError::EventError(EventError::EventAlreadyActive));
        }
        state.event_state.activate_event(event);
        let mut effects: Vec<GameEffect> = Vec::new();
        effects.push(GameEffect::EventTriggered { event });
        effects.push(GameEffect::EventAnimation { animation_type: animation_type_for(event) });
        let ghost base = seq![
            GameEffect::EventTriggered { event },
            GameEffect::EventAnimation { animation_type: spec_animation_type(event) },
        ];
        proof {
            assert(effects@ =~= base);
        }
        match event {
            GameEvent::HardReset => {
                crate::events::HardResetEvent::reset_all_scores(&mut state.teams);
                effects.push(GameEffect::ScoreReset);
                proof {
                    assert(effects@ =~= base.push(GameEffect::ScoreReset));
                }
            },
            GameEvent::DoublePoints => {
                effects.push(GameEffect::DoublePointsActivated);
                proof {
                    assert(effects@ =~= base.push(GameEffect::DoublePointsActivated));
                }
            },
            GameEvent::ReverseQuestion => {
                effects.push(GameEffect::ReverseQuestionActivated);
                proof {
                    assert(effects@ =~= base.push(GameEffect::ReverseQuestionActivated));
                }
            },
            GameEvent::ScoreSteal => {
                apply_score_steal(state, &mut effects);
            },
        }
        Ok(GameActionResult::StateChanged { new_phase: copy_phase(&state.phase), effects })
    }

    fn handle_queue_event(&self, state: &mut GameState, event: GameEvent) -> (r: Result<
        GameActionResult,
        GameError,
    >)
        ensures
            queue_event_post(*old(state), event, *final(state), r),
    {
        state.event_state.queue_event(event);
        let mut effects: Vec<GameEffect> = Vec::new();
        effects.push(GameEffect::EventQueued { event });
        if matches!(event, GameEvent::HardReset) {
            crate::events::HardResetEvent::reset_all_scores(&mut state.teams);
            effects.push(GameEffect::ScoreReset);
            proof {
                assert(effects@ =~= seq![
                    GameEffect::EventQueued { event },
                    GameEffect::ScoreReset,
                ]);
            }
        } else {
            proof {
                assert(effects@ =~= seq![GameEffect::EventQueued { event }]);
            }
        }
        Ok(GameActionResult::StateChanged { new_phase: copy_phase(&state.phase), effects })
    }

    fn handle_play_event_animation(&self, state: &mut GameState, event: GameEvent) -> (r: Result<
        GameActionResult,
        GameError,
    >)
        ensures
            play_event_animation_post(*old(state), event, *final(state), r),
    {
        state.event_state.set_animation_playing(true);
        if !matches!(event, GameEvent::HardReset | GameEvent::ScoreSteal) {
            state.event_state.activate_event(event);
        }
        let mut effects: Vec<GameEffect> = Vec::new();
        effects.push(GameEffect::EventAnimation { animation_type: animation_type_for(event) });
        proof {
            assert(effects@ =~= seq![
                GameEffect::EventAnimation { animation_type: spec_animation_type(event) },
            ]);
        }
        Ok(GameActionResult::StateChanged { new_phase: copy_phase(&state.phase), effects })
    }
}

} // verus!
