use quiz_engine::Board;
use quiz_engine::Category;
use quiz_engine::Clue;
use quiz_engine::DoublePointsEvent;
use quiz_engine::EventConfig;
use quiz_engine::EventState;
use quiz_engine::GameAction;
use quiz_engine::GameEngine;
use quiz_engine::GameEvent;

#[test]
fn test_event_state_trigger_detection() {
    let mut event_state = EventState::new();

    // Should not trigger initially
    assert!(!event_state.should_trigger_event());

    // Should not trigger before 4 questions
    for i in 1..4 {
        event_state.increment_question_count();
        assert!(
            !event_state.should_trigger_event(),
            "Should not trigger at {} questions",
            i
        );
    }

    // Should trigger at 4 questions
    event_state.increment_question_count();
    assert!(event_state.should_trigger_event());

    // Should not trigger when event is active
    event_state.activate_event(GameEvent::DoublePoints);
    assert!(!event_state.should_trigger_event());

    // Should trigger again at 8 questions after deactivating
    event_state.deactivate_event();
    for _ in 5..=8 {
        event_state.increment_question_count();
    }
    assert!(event_state.should_trigger_event());
}

#[test]
fn test_event_activation_and_history() {
    let mut event_state = EventState::new();

    // Activate an event
    event_state.activate_event(GameEvent::DoublePoints);
    assert!(event_state.is_event_active(&GameEvent::DoublePoints));
    assert!(!event_state.is_event_active(&GameEvent::HardReset));
    assert_eq!(event_state.event_history.len(), 1);

    // Deactivate and activate another
    event_state.deactivate_event();
    event_state.activate_event(GameEvent::HardReset);
    assert!(!event_state.is_event_active(&GameEvent::DoublePoints));
    assert!(event_state.is_event_active(&GameEvent::HardReset));
    assert_eq!(event_state.event_history.len(), 2);
}

#[test]
fn test_event_config_random_selection() {
    let config = EventConfig::new();

    // Should return some event from the enabled list
    let event = config.get_random_event();
    assert!(event.is_some());
    assert!(config.enabled_events.contains(&event.unwrap()));

    // Empty config should return None
    let empty_config = EventConfig {
        trigger_interval: 5,
        enabled_events: vec![],
        animation_duration_ms: 3000,
    };
    assert!(empty_config.get_random_event().is_none());
}

#[test]
fn test_event_trigger_timing() {
    let mut event_state = EventState::new();

    // Test that events trigger exactly every 4 questions
    for i in 1..=20 {
        event_state.increment_question_count();
        if i % 4 == 0 {
            assert!(
                event_state.should_trigger_event(),
                "Should trigger at question {}",
                i
            );
            // Simulate event activation
            event_state.activate_event(GameEvent::DoublePoints);
            assert!(
                !event_state.should_trigger_event(),
                "Should not trigger when event is active"
            );
            event_state.deactivate_event();
        } else {
            assert!(
                !event_state.should_trigger_event(),
                "Should not trigger at question {}",
                i
            );
        }
    }
}

#[test]
fn test_double_points_calculation() {
    // Test point multiplication
    assert_eq!(DoublePointsEvent::calculate_points(100), 200);
    assert_eq!(DoublePointsEvent::calculate_points(500), 1000);

    // Test penalty calculation
    assert_eq!(DoublePointsEvent::calculate_penalty(100), 200);
    assert_eq!(DoublePointsEvent::calculate_penalty(300), 600);
}

#[test]
fn test_event_history_tracking() {
    let mut event_state = EventState::new();

    // Test that event history is properly tracked
    assert_eq!(event_state.event_history.len(), 0);

    event_state.activate_event(GameEvent::DoublePoints);
    assert_eq!(event_state.event_history.len(), 1);
    assert_eq!(event_state.event_history[0], GameEvent::DoublePoints);

    event_state.deactivate_event();
    event_state.activate_event(GameEvent::HardReset);
    assert_eq!(event_state.event_history.len(), 2);
    assert_eq!(event_state.event_history[1], GameEvent::HardReset);
}

#[test]
fn test_event_integration_with_game_engine() {
    // Create a test board with minimal clues
    let mut board = Board::default();
    board.categories = vec![Category {
        name: "Test Category".to_string(),
        clues: vec![
            Clue {
                id: 1,
                points: 100,
                question: "Q1".to_string(),
                answer: "A1".to_string(),
                revealed: false,
                solved: false,
            },
            Clue {
                id: 2,
                points: 200,
                question: "Q2".to_string(),
                answer: "A2".to_string(),
                revealed: false,
                solved: false,
            },
            Clue {
                id: 3,
                points: 300,
                question: "Q3".to_string(),
                answer: "A3".to_string(),
                revealed: false,
                solved: false,
            },
            Clue {
                id: 4,
                points: 400,
                question: "Q4".to_string(),
                answer: "A4".to_string(),
                revealed: false,
                solved: false,
            },
            Clue {
                id: 5,
                points: 500,
                question: "Q5".to_string(),
                answer: "A5".to_string(),
                revealed: false,
                solved: false,
            },
        ],
    }];

    let mut engine = GameEngine::new(board);

    // Add a team and start the game
    let _ = engine.handle_action(GameAction::AddTeam {
        name: "Test Team".to_string(),
    });
    let _ = engine.handle_action(GameAction::StartGame);

    // Initially no events should be active
    assert_eq!(engine.get_state().event_state.questions_answered, 0);
    assert!(engine.get_state().event_state.active_event.is_none());

    // Play through 4 questions to trigger an event
    for i in 0..4 {
        // Select clue
        let _ = engine.handle_action(GameAction::SelectClue {
            clue: (0, i),
            team_id: 1,
        });
        // Answer correctly
        let _ = engine.handle_action(GameAction::AnswerCorrect {
            clue: (0, i),
            team_id: 1,
        });
        // Close clue (this increments question count and may trigger event)
        let _ = engine.handle_action(GameAction::CloseClue {
            clue: (0, i),
            next_team_id: 1,
        });
    }

    // After 4 questions, an event should be queued
    assert_eq!(engine.get_state().event_state.questions_answered, 4);
    assert!(engine.get_state().event_state.has_queued_event());
    // Event history is only updated when event is activated, not when queued
    assert_eq!(engine.get_state().event_state.event_history.len(), 0);
}

#[test]
fn test_double_points_event_scoring() {
    let mut board = Board::default();
    board.categories = vec![Category {
        name: "Test Category".to_string(),
        clues: vec![Clue {
            id: 1,
            points: 100,
            question: "Q1".to_string(),
            answer: "A1".to_string(),
            revealed: false,
            solved: false,
        }],
    }];

    let mut engine = GameEngine::new(board);
    let _ = engine.handle_action(GameAction::AddTeam {
        name: "Test Team".to_string(),
    });
    let _ = engine.handle_action(GameAction::StartGame);

    // Manually activate double points event
    engine
        .get_state_mut()
        .event_state
        .activate_event(GameEvent::DoublePoints);

    // Select and answer a clue correctly
    let _ = engine.handle_action(GameAction::SelectClue {
        clue: (0, 0),
        team_id: 1,
    });
    let _ = engine.handle_action(GameAction::AnswerCorrect {
        clue: (0, 0),
        team_id: 1,
    });

    // Team should have double points (200 instead of 100)
    let team_score = engine.get_state().teams[0].score;
    assert_eq!(
        team_score, 200,
        "Team should have double points during Double Points event"
    );

    // Event should be deactivated after the question
    assert!(engine.get_state().event_state.active_event.is_none());
}

#[test]
fn test_hard_reset_event_scoring() {
    let mut board = Board::default();
    board.categories = vec![Category {
        name: "Test Category".to_string(),
        clues: vec![Clue {
            id: 1,
            points: 100,
            question: "Q1".to_string(),
            answer: "A1".to_string(),
            revealed: false,
            solved: false,
        }],
    }];

    let mut engine = GameEngine::new(board);
    let _ = engine.handle_action(GameAction::AddTeam {
        name: "Team 1".to_string(),
    });
    let _ = engine.handle_action(GameAction::AddTeam {
        name: "Team 2".to_string(),
    });
    let _ = engine.handle_action(GameAction::StartGame);

    // Give teams some points first
    engine.get_state_mut().teams[0].score = 500;
    engine.get_state_mut().teams[1].score = 300;

    // Trigger hard reset event
    let _ = engine.handle_action(GameAction::TriggerEvent {
        event: GameEvent::HardReset,
    });

    // All team scores should be reset to 0
    assert_eq!(engine.get_state().teams[0].score, 0);
    assert_eq!(engine.get_state().teams[1].score, 0);
}

#[test]
fn test_reverse_question_event_clue_modification() {
    let mut board = Board::default();
    board.categories = vec![Category {
        name: "Test Category".to_string(),
        clues: vec![Clue {
            id: 1,
            points: 100,
            question: "Original Question".to_string(),
            answer: "Original Answer".to_string(),
            revealed: false,
            solved: false,
        }],
    }];

    let mut engine = GameEngine::new(board);
    let _ = engine.handle_action(GameAction::AddTeam {
        name: "Test Team".to_string(),
    });
    let _ = engine.handle_action(GameAction::StartGame);

    // Manually activate reverse question event
    engine
        .get_state_mut()
        .event_state
        .activate_event(GameEvent::ReverseQuestion);

    // Select a clue (this should trigger the question/answer swap)
    let _ = engine.handle_action(GameAction::SelectClue {
        clue: (0, 0),
        team_id: 1,
    });

    // The question and answer should be swapped
    let clue = &engine.get_state().board.categories[0].clues[0];
    assert_eq!(clue.question, "Original Answer");
    assert_eq!(clue.answer, "Original Question");

    // Answer the reverse question correctly
    let _ = engine.handle_action(GameAction::AnswerCorrect {
        clue: (0, 0),
        team_id: 1,
    });

    // The question and answer should be restored
    let clue = &engine.get_state().board.categories[0].clues[0];
    assert_eq!(clue.question, "Original Question");
    assert_eq!(clue.answer, "Original Answer");

    // Event should be deactivated
    assert!(engine.get_state().event_state.active_event.is_none());
}

#[test]
fn test_score_steal_manual_trigger_transfers_points() {
    // Setup engine with two teams and distinct scores
    let mut board = Board::default();
    board.categories = vec![Category {
        name: "Cat".to_string(),
        clues: vec![Clue {
            id: 1,
            points: 100,
            question: "Q".to_string(),
            answer: "A".to_string(),
            revealed: false,
            solved: false,
        }],
    }];

    let mut engine = GameEngine::new(board);
    let _ = engine.handle_action(GameAction::AddTeam { name: "Low".into() });
    let _ = engine.handle_action(GameAction::AddTeam {
        name: "High".into(),
    });
    let _ = engine.handle_action(GameAction::StartGame);

    // Ensure team[0] is lowest and team[1] is highest
    let low_id = engine.get_state().teams[0].id;
    let high_id = engine.get_state().teams[1].id;
    engine.get_state_mut().teams[0].score = 200;
    engine.get_state_mut().teams[1].score = 1000;

    // Trigger ScoreSteal
    let result = engine.handle_action(GameAction::TriggerEvent {
        event: GameEvent::ScoreSteal,
    });
    assert!(result.is_ok());

    // Expect 20% of highest (1000) transferred = 200
    let state = engine.get_state();
    let low_team = state.teams.iter().find(|t| t.id == low_id).unwrap();
    let high_team = state.teams.iter().find(|t| t.id == high_id).unwrap();
    assert_eq!(low_team.score, 400);
    assert_eq!(high_team.score, 800);

    // Context should be populated
    let ctx = state
        .event_state
        .last_steal
        .as_ref()
        .expect("last_steal context should be set");
    assert_eq!(ctx.thief_id, low_id);
    assert_eq!(ctx.victim_id, high_id);
    assert_eq!(ctx.amount, 200);
}

#[test]
fn test_score_steal_no_transfer_if_equal_scores() {
    // Setup engine with two teams having equal scores
    let mut board = Board::default();
    board.categories = vec![Category {
        name: "Cat".to_string(),
        clues: vec![Clue {
            id: 1,
            points: 100,
            question: "Q".to_string(),
            answer: "A".to_string(),
            revealed: false,
            solved: false,
        }],
    }];

    let mut engine = GameEngine::new(board);
    let _ = engine.handle_action(GameAction::AddTeam { name: "A".into() });
    let _ = engine.handle_action(GameAction::AddTeam { name: "B".into() });
    let _ = engine.handle_action(GameAction::StartGame);

    let a_id = engine.get_state().teams[0].id;
    let b_id = engine.get_state().teams[1].id;
    engine.get_state_mut().teams[0].score = 500;
    engine.get_state_mut().teams[1].score = 500;

    let result = engine.handle_action(GameAction::TriggerEvent {
        event: GameEvent::ScoreSteal,
    });
    assert!(result.is_ok());

    // No transfer should occur; scores unchanged
    let state = engine.get_state();
    let a = state.teams.iter().find(|t| t.id == a_id).unwrap();
    let b = state.teams.iter().find(|t| t.id == b_id).unwrap();
    assert_eq!(a.score, 500);
    assert_eq!(b.score, 500);
    assert!(state.event_state.last_steal.is_none());
}
