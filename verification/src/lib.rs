//! Rules engine for a turn-based trivia party game.
//!
//! The engine owns a board of categories and clues, an ordered team list and a
//! phase state machine with a steal contention sub-protocol and a periodic
//! random event system.  A presentation layer drives it exclusively through
//! [`engine::GameEngine::handle_action`] and read-only queries; every legal
//! transition and every score mutation is specified and verified here.

pub mod actions;
pub mod domain;
pub mod engine;
pub mod events;
pub mod rng;
pub mod rules;
pub mod scoring;
pub mod state;
pub mod text;

pub use actions::FlashType;
pub use actions::GameAction;
pub use actions::GameActionHandler;
pub use actions::GameActionResult;
pub use actions::GameEffect;
pub use actions::GameError;
pub use domain::Board;
pub use domain::Category;
pub use domain::Clue;
pub use domain::ConfigState;
pub use domain::Surprise;
pub use domain::SurpriseState;
pub use domain::Team;
pub use domain::UiMapping;
pub use engine::GameEngine;
pub use events::AnimationPhase;
pub use events::DoublePointsEvent;
pub use events::EventAnimationType;
pub use events::EventConfig;
pub use events::EventError;
pub use events::EventState;
pub use events::GameEvent;
pub use events::HardResetEvent;
pub use events::ReverseQuestionEvent;
pub use events::StealEventContext;
pub use rules::GameRules;
pub use scoring::ScoringEngine;
pub use state::GameState;
pub use state::PlayPhase;
pub use state::Snapshot;
