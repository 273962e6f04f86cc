//! The event-injection subsystem: the four event kinds, the per-game event
//! state with its queued/active lifecycle, the weighted random selection, and
//! the pure effects each kind has on clues and scores.

use vstd::prelude::*;

verus! {

use crate::domain::Clue;
use crate::domain::Team;
use crate::rng;
use crate::scoring;

/// A temporary, randomly chosen modifier to the game rules.
#[derive(Debug, Clone, Copy, PartialEq, Eq, Structural)]
pub enum GameEvent {
    DoublePoints,
    HardReset,
    ReverseQuestion,
    /// The lowest-scoring team steals a fifth of the leader's points.
    ScoreSteal,
}

/// Errors surfaced by the event subsystem.
#[derive(Debug, Clone)]
pub enum EventError {
    NoEventAvailable,
    EventAlreadyActive,
    InvalidEventState,
    AnimationFailed { reason: String },
}

/// The announcement animation associated with each event kind.
#[derive(Debug, Clone, Copy, PartialEq, Eq, Structural)]
pub enum EventAnimationType {
    DoublePointsMultiplication,
    HardResetGlitch,
    ReverseQuestionFlip,
    ScoreStealHeist,
}

/// Phases of an announcement animation, for the presentation layer.
#[derive(Debug, Clone, Copy, PartialEq, Eq, Structural)]
pub enum AnimationPhase {
    Intro,
    Main,
    Outro,
}

/// What the last score-steal transfer did, kept for display.
#[derive(Debug, Clone)]
pub struct StealEventContext {
    pub thief_id: u32,
    pub thief_name: String,
    pub victim_id: u32,
    pub victim_name: String,
    pub amount: i32,
}

impl Default for StealEventContext {
    fn default() -> (c: Self)
        ensures
            c.thief_id == 0,
            c.thief_name@ == Seq::<char>::empty(),
            c.victim_id == 0,
            c.victim_name@ == Seq::<char>::empty(),
            c.amount == 0,
    {
        StealEventContext {
            thief_id: 0,
            thief_name: String::new(),
            victim_id: 0,
            victim_name: String::new(),
            amount: 0,
        }
    }
}

/// The state of the event system within one game.
#[derive(Debug, Clone)]
pub struct EventState {
    /// Incremented once per clue-closing action.
    pub questions_answered: u32,
    /// The event currently modifying clue resolution, if any.
    pub active_event: Option<GameEvent>,
    /// An event chosen but whose announcement has not played yet.
    pub queued_event: Option<GameEvent>,
    /// Every event ever activated, append-only.
    pub event_history: Vec<GameEvent>,
    /// Whether an announcement animation is in progress.
    pub animation_playing: bool,
    /// The most recent score-steal transfer, for display.
    pub last_steal: Option<StealEventContext>,
}

/// A freshly created event state: nothing counted, nothing queued or active,
/// empty history.
pub open spec fn is_initial_event_state(s: EventState) -> bool {
    &&& s.questions_answered == 0
    &&& s.active_event is None
    &&& s.queued_event is None
    &&& s.event_history@ == Seq::<GameEvent>::empty()
    &&& !s.animation_playing
    &&& s.last_steal is None
}

/// The trigger condition: fires once the question counter is positive and
/// divisible by four, while no event is active or queued.
pub open spec fn spec_should_trigger(s: EventState) -> bool {
    &&& s.questions_answered > 0
    &&& s.questions_answered % 4 == 0
    &&& s.active_event is None
    &&& s.queued_event is None
}

/// Whether `event` is the currently active event.
pub open spec fn spec_event_active(s: EventState, event: GameEvent) -> bool {
    s.active_event matches Some(e) && e == event
}

impl EventState {
    pub fn new() -> (s: Self)
        ensures
            is_initial_event_state(s),
    {
        EventState {
            questions_answered: 0,
            active_event: None,
            queued_event: None,
            event_history: Vec::new(),
            animation_playing: false,
            last_steal: None,
        }
    }

    /// Whether the periodic trigger condition holds.
    pub fn should_trigger_event(&self) -> (r: bool)
        ensures
            r == spec_should_trigger(*self),
    {
        self.questions_answered > 0 && self.questions_answered % 4 == 0
            && self.active_event.is_none() && self.queued_event.is_none()
    }

    /// Counts one fully resolved question (saturating at the counter's range).
    pub fn increment_question_count(&mut self)
        ensures
            final(self).questions_answered == (if old(self).questions_answered < u32::MAX {
                old(self).questions_answered + 1
            } else {
                u32::MAX as int
            }),
            final(self).active_event == old(self).active_event,
            final(self).queued_event == old(self).queued_event,
            final(self).event_history == old(self).event_history,
            final(self).animation_playing == old(self).animation_playing,
            final(self).last_steal == old(self).last_steal,
    {
        self.questions_answered = self.questions_answered.saturating_add(1);
    }

    /// Makes `event` the active event and appends it to the history.
    pub fn activate_event(&mut self, event: GameEvent)
        ensures
            final(self).active_event == Some(event),
            final(self).event_history@ == old(self).event_history@.push(event),
            final(self).questions_answered == old(self).questions_answered,
            final(self).queued_event == old(self).queued_event,
            final(self).animation_playing == old(self).animation_playing,
            final(self).last_steal == old(self).last_steal,
    {
        self.event_history.push(event);
        self.active_event = Some(event);
    }

    /// Clears the active event.
    pub fn deactivate_event(&mut self)
        ensures
            final(self).active_event is None,
            final(self).questions_answered == old(self).questions_answered,
            final(self).queued_event == old(self).queued_event,
            final(self).event_history == old(self).event_history,
            final(self).animation_playing == old(self).animation_playing,
            final(self).last_steal == old(self).last_steal,
    {
        self.active_event = None;
    }

    /// Whether `event` is the currently active event.
    pub fn is_event_active(&self, event: &GameEvent) -> (r: bool)
        ensures
            r == spec_event_active(*self, *event),
    {
        match self.active_event {
            Some(e) => e == *event,
            None => false,
        }
    }

    /// Places `event` in the queued slot (chosen, announcement not yet played).
    pub fn queue_event(&mut self, event: GameEvent)
        ensures
            final(self).queued_event == Some(event),
            final(self).questions_answered == old(self).questions_answered,
            final(self).active_event == old(self).active_event,
            final(self).event_history == old(self).event_history,
            final(self).animation_playing == old(self).animation_playing,
            final(self).last_steal == old(self).last_steal,
    {
        self.queued_event = Some(event);
    }

    /// Whether an event is queued awaiting its announcement.
    pub fn has_queued_event(&self) -> (r: bool)
        ensures
            r == (self.queued_event is Some),
    {
        self.queued_event.is_some()
    }

    /// Removes and returns the queued event.
    pub fn take_queued_event(&mut self) -> (r: Option<GameEvent>)
        ensures
            r == old(self).queued_event,
            final(self).queued_event is None,
            final(self).questions_answered == old(self).questions_answered,
            final(self).active_event == old(self).active_event,
            final(self).event_history == old(self).event_history,
            final(self).animation_playing == old(self).animation_playing,
            final(self).last_steal == old(self).last_steal,
    {
        let r = self.queued_event;
        self.queued_event = None;
        r
    }

    /// Whether an announcement animation is in progress.
    pub fn is_animation_playing(&self) -> (r: bool)
        ensures
            r == self.animation_playing,
    {
        self.animation_playing
    }

    /// Records whether an announcement animation is in progress.
    pub fn set_animation_playing(&mut self, playing: bool)
        ensures
            final(self).animation_playing == playing,
            final(self).questions_answered == old(self).questions_answered,
            final(self).active_event == old(self).active_event,
            final(self).queued_event == old(self).queued_event,
            final(self).event_history == old(self).event_history,
            final(self).last_steal == old(self).last_steal,
    {
        self.animation_playing = playing;
    }
}

impl Default for EventState {
    fn default() -> (s: Self)
        ensures
            is_initial_event_state(s),
    {
        EventState::new()
    }
}

/// The weight the selection table assigns to each event kind.
pub open spec fn spec_event_weight(e: GameEvent) -> u32 {
    match e {
        GameEvent::DoublePoints => 0,
        GameEvent::ReverseQuestion => 0,
        GameEvent::ScoreSteal => 0,
        GameEvent::HardReset => 100,
    }
}

/// The weights of a list of event kinds, in order.
pub open spec fn weights_of(es: Seq<GameEvent>) -> Seq<u32> {
    es.map_values(|e: GameEvent| spec_event_weight(e))
}

fn event_weight(e: GameEvent) -> (w: u32)
    ensures
        w == spec_event_weight(e),
{
    match e {
        GameEvent::DoublePoints => 0,
        GameEvent::ReverseQuestion => 0,
        GameEvent::ScoreSteal => 0,
        GameEvent::HardReset => 100,
    }
}

/// Configuration of the event system.
#[derive(Debug, Clone)]
pub struct EventConfig {
    /// An event is considered every this many closed questions.
    pub trigger_interval: u32,
    /// The kinds the random draw may choose from.
    pub enabled_events: Vec<GameEvent>,
    /// How long the announcement animation runs, in milliseconds.
    pub animation_duration_ms: u64,
}

impl EventConfig {
    pub fn new() -> (c: Self)
        ensures
            c.trigger_interval == 4,
            c.enabled_events@ == seq![
                GameEvent::DoublePoints,
                GameEvent::HardReset,
                GameEvent::ReverseQuestion,
                GameEvent::ScoreSteal,
            ],
            c.animation_duration_ms == 3000,
    {
        let mut enabled_events: Vec<GameEvent> = Vec::new();
        enabled_events.push(GameEvent::DoublePoints);
        enabled_events.push(GameEvent::HardReset);
        enabled_events.push(GameEvent::ReverseQuestion);
        enabled_events.push(GameEvent::ScoreSteal);
        proof {
            assert(enabled_events@ =~= seq![
                GameEvent::DoublePoints,
                GameEvent::HardReset,
                GameEvent::ReverseQuestion,
                GameEvent::ScoreSteal,
            ]);
        }
        EventConfig { trigger_interval: 4, enabled_events, animation_duration_ms: 3000 }
    }

    /// Draws one enabled event kind: a weighted random choice over the
    /// configured table, falling back to a uniform draw when every weight is
    /// zero (or the table's sum cannot be represented).  Returns None exactly
    /// when no event kind is enabled; whenever the weighted draw applies, the
    /// drawn kind has a positive weight.
    pub fn get_random_event(&self) -> (r: Option<GameEvent>)
        ensures
            (r is Some) <==> self.enabled_events@.len() > 0,
            r matches Some(e) ==> self.enabled_events@.contains(e),
            r matches Some(e) ==> ((exists|i: int|
                0 <= i < self.enabled_events@.len() && spec_event_weight(
                    #[trigger] self.enabled_events@[i],
                ) > 0) && rng::weight_sum(weights_of(self.enabled_events@)) <= u32::MAX
                ==> spec_event_weight(e) > 0),
    {
        let n = self.enabled_events.len();
        if n == 0 {
            return None;
        }
        let mut weights: Vec<u32> = Vec::new();
        let mut total: u32 = 0;
        let mut overflow: bool = false;
        let mut i: usize = 0;
        while i < n
            invariant
                i <= n,
                n == self.enabled_events@.len(),
                weights@.len() == i,
                forall|j: int|
                    0 <= j < i ==> #[trigger] weights@[j] == spec_event_weight(
                        self.enabled_events@[j],
                    ),
                !overflow ==> total == rng::weight_sum(weights@),
                overflow ==> rng::weight_sum(weights@) > u32::MAX,
            decreases n - i,
        {
            let w = event_weight(self.enabled_events[i]);
            let ghost before = weights@;
            weights.push(w);
            proof {
                assert(weights@.drop_last() =~= before);
            }
            if !overflow {
                match total.checked_add(w) {
                    Some(t) => {
                        total = t;
                    },
                    None => {
                        overflow = true;
                    },
                }
            }
            i = i + 1;
        }
        proof {
            assert(weights@ =~= weights_of(self.enabled_events@));
        }
        if !overflow && total > 0 {
            proof {
                lemma_positive_sum_has_positive_weight(weights@);
            }
            let idx = rng::weighted_random_index(&weights);
            let e = self.enabled_events[idx];
            proof {
                assert(self.enabled_events@.contains(e));
            }
            Some(e)
        } else {
            let idx = rng::random_below(n);
            let e = self.enabled_events[idx];
            proof {
                assert(self.enabled_events@.contains(e));
                if exists|j: int|
                    0 <= j < self.enabled_events@.len() && spec_event_weight(
                        #[trigger] self.enabled_events@[j],
                    ) > 0 {
                    let j = choose|j: int|
                        0 <= j < self.enabled_events@.len() && spec_event_weight(
                            #[trigger] self.enabled_events@[j],
                        ) > 0;
                    rng::lemma_weight_le_sum(weights@, j);
                }
            }
            Some(e)
        }
    }
}

impl Default for EventConfig {
    fn default() -> (c: Self)
        ensures
            c.trigger_interval == 4,
            c.enabled_events@ == seq![
                GameEvent::DoublePoints,
                GameEvent::HardReset,
                GameEvent::ReverseQuestion,
                GameEvent::ScoreSteal,
            ],
            c.animation_duration_ms == 3000,
    {
        EventConfig::new()
    }
}

/// A positive sum of weights comes from some positive weight.
proof fn lemma_positive_sum_has_positive_weight(ws: Seq<u32>)
    requires
        rng::weight_sum(ws) > 0,
    ensures
        exists|i: int| 0 <= i < ws.len() && ws[i] > 0,
    decreases ws.len(),
{
    if ws.len() > 0 {
        if ws.last() > 0 {
            assert(ws[ws.len() - 1] > 0);
        } else {
            lemma_positive_sum_has_positive_weight(ws.drop_last());
            let i = choose|i: int| 0 <= i < ws.len() - 1 && ws.drop_last()[i] > 0;
            assert(ws[i] > 0);
        }
    }
}

/// The doubled award and the doubled penalty while Double-Points is active.
pub struct DoublePointsEvent;

/// The award for `points` base points: doubled when Double-Points is active,
/// saturating at the u32 range.
pub open spec fn spec_double_points(points: int) -> int {
    if 2 * points > u32::MAX {
        u32::MAX as int
    } else {
        2 * points
    }
}

/// The signed score delta applied for a clue worth `points`: doubled when
/// Double-Points is active, clamped to the i32 range.
pub open spec fn spec_effective_points(points: u32, doubled: bool) -> int {
    let p = if doubled {
        spec_double_points(points as int)
    } else {
        points as int
    };
    if p > i32::MAX {
        i32::MAX as int
    } else {
        p
    }
}

impl DoublePointsEvent {
    /// The doubled award for a clue, saturating at the u32 range.
    pub fn calculate_points(base_points: u32) -> (r: u32)
        ensures
            r == spec_double_points(base_points as int),
    {
        match base_points.checked_mul(2) {
            Some(v) => v,
            None => u32::MAX,
        }
    }

    /// The doubled penalty for a clue's final incorrect answer.
    pub fn calculate_penalty(base_points: u32) -> (r: i32)
        ensures
            r == spec_effective_points(base_points, true),
    {
        let d = Self::calculate_points(base_points);
        if d > i32::MAX as u32 {
            i32::MAX
        } else {
            d as i32
        }
    }
}

/// The immediate effect of Hard-Reset: every score back to zero.
pub struct HardResetEvent;

impl HardResetEvent {
    /// Zeroes every team's score, leaving ids, names and order in place.
    pub fn reset_all_scores(teams: &mut Vec<Team>)
        ensures
            final(teams)@.len() == old(teams)@.len(),
            forall|i: int|
                0 <= i < old(teams)@.len() ==> #[trigger] final(teams)@[i] == (Team {
                    id: old(teams)@[i].id,
                    name: old(teams)@[i].name,
                    score: 0,
                }),
    {
        let n = teams.len();
        let mut i: usize = 0;
        while i < n
            invariant
                i <= n,
                n == teams@.len(),
                teams@.len() == old(teams)@.len(),
                forall|j: int|
                    0 <= j < i ==> #[trigger] teams@[j] == (Team {
                        id: old(teams)@[j].id,
                        name: old(teams)@[j].name,
                        score: 0,
                    }),
                forall|j: int| i <= j < n ==> #[trigger] teams@[j] == old(teams)@[j],
            decreases n - i,
        {
            scoring::set_score_at(teams, i, 0);
            i = i + 1;
        }
    }
}

/// The lazy text swap of Reverse-Question: question and answer trade places;
/// applying the swap twice restores the original clue.
pub struct ReverseQuestionEvent;

impl ReverseQuestionEvent {
    /// Swaps a clue's question and answer texts.
    pub fn apply_to_clue(clue: &mut Clue)
        ensures
            final(clue).question == old(clue).answer,
            final(clue).answer == old(clue).question,
            final(clue).id == old(clue).id,
            final(clue).points == old(clue).points,
            final(clue).revealed == old(clue).revealed,
            final(clue).solved == old(clue).solved,
    {
        core::mem::swap(&mut clue.question, &mut clue.answer);
    }

    /// Restores a clue swapped by [`Self::apply_to_clue`]: the swap is its own
    /// inverse.
    pub fn restore_clue(clue: &mut Clue)
        ensures
            final(clue).question == old(clue).answer,
            final(clue).answer == old(clue).question,
            final(clue).id == old(clue).id,
            final(clue).points == old(clue).points,
            final(clue).revealed == old(clue).revealed,
            final(clue).solved == old(clue).solved,
    {
        core::mem::swap(&mut clue.question, &mut clue.answer);
    }
}

} // verus!
