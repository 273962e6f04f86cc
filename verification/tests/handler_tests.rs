use quiz_engine::Board;
use quiz_engine::Category;
use quiz_engine::Clue;
use quiz_engine::GameAction;
use quiz_engine::GameActionResult;
use quiz_engine::GameEffect;
use quiz_engine::GameEngine;
use quiz_engine::GameError;
use quiz_engine::GameState;
use quiz_engine::PlayPhase;
use quiz_engine::actions::calculate_max_attempts;
use quiz_engine::actions::get_question_points;

#[test]
fn test_manual_points_adjustment_valid_team() {
    let board = Board::default();
    let mut engine = GameEngine::new(board);

    // Add a team
    let _ = engine.handle_action(GameAction::AddTeam {
        name: "Test Team".to_string(),
    });

    let team_id = engine.get_state().teams[0].id;
    let initial_score = engine.get_state().teams[0].score;

    // Manually adjust points
    let result = engine.handle_action(GameAction::ManualPointsAdjustment {
        team_id,
        new_points: 500,
    });

    assert!(result.is_ok());

    // Verify the score was updated
    let updated_score = engine.get_state().teams[0].score;
    assert_eq!(updated_score, 500);
    assert_ne!(updated_score, initial_score);

    // Verify the result contains the correct effect
    if let Ok(GameActionResult::StateChanged { effects, .. }) = result {
        assert_eq!(effects.len(), 1);
        if let GameEffect::ManualScoreAdjustment {
            team_id: effect_team_id,
            old_score,
            new_score,
        } = &effects[0]
        {
            assert_eq!(*effect_team_id, team_id);
            assert_eq!(*old_score, initial_score);
            assert_eq!(*new_score, 500);
        } else {
            panic!("Expected ManualScoreAdjustment effect");
        }
    } else {
        panic!("Expected StateChanged result");
    }
}

#[test]
fn test_manual_points_adjustment_invalid_team() {
    let board = Board::default();
    let mut engine = GameEngine::new(board);

    // Try to adjust points for non-existent team
    let result = engine.handle_action(GameAction::ManualPointsAdjustment {
        team_id: 999,
        new_points: 500,
    });

    assert!(result.is_err());

    if let Err(GameError::InvalidAction { action, reason }) = result {
        assert_eq!(action, "ManualPointsAdjustment");
        assert!(reason.contains("Team with ID 999 not found"));
    } else {
        panic!("Expected InvalidAction error");
    }
}

#[test]
fn test_manual_points_adjustment_negative_points() {
    let board = Board::default();
    let mut engine = GameEngine::new(board);

    // Add a team
    let _ = engine.handle_action(GameAction::AddTeam {
        name: "Test Team".to_string(),
    });

    let team_id = engine.get_state().teams[0].id;

    // Manually adjust to negative points
    let result = engine.handle_action(GameAction::ManualPointsAdjustment {
        team_id,
        new_points: -100,
    });

    assert!(result.is_ok());

    // Verify negative points are allowed
    let updated_score = engine.get_state().teams[0].score;
    assert_eq!(updated_score, -100);
}

fn create_test_board_with_high_value_questions() -> Board {
    let mut board = Board::default();
    board.categories = vec![Category {
        name: "Test Category".to_string(),
        clues: vec![
            Clue {
                id: 1,
                question: "Low value question".to_string(),
                answer: "Low answer".to_string(),
                points: 200,
                solved: false,
                revealed: false,
            },
            Clue {
                id: 2,
                question: "High value question".to_string(),
                answer: "High answer".to_string(),
                points: 800,
                solved: false,
                revealed: false,
            },
        ],
    }];
    board
}

#[test]
fn test_utility_functions() {
    let board = create_test_board_with_high_value_questions();
    let state = GameState::new(board);

    // Test get_question_points
    assert_eq!(get_question_points(&state, (0, 0)), 200);
    assert_eq!(get_question_points(&state, (0, 1)), 800);
    assert_eq!(get_question_points(&state, (1, 0)), 0); // Invalid clue

    // Test calculate_max_attempts
    assert_eq!(calculate_max_attempts(200), 1);
    assert_eq!(calculate_max_attempts(500), 1);
    assert_eq!(calculate_max_attempts(501), 2);
    assert_eq!(calculate_max_attempts(800), 2);
}

#[test]
fn test_low_value_question_single_attempt() {
    let board = create_test_board_with_high_value_questions();
    let mut engine = GameEngine::new(board);

    // Add a team and start game
    let _ = engine.handle_action(GameAction::AddTeam {
        name: "Test Team".to_string(),
    });
    let _ = engine.handle_action(GameAction::StartGame);

    let team_id = engine.get_state().teams[0].id;

    // Select low-value question (200 points)
    let result = engine.handle_action(GameAction::SelectClue {
        clue: (0, 0),
        team_id,
    });
    assert!(result.is_ok());

    // Verify showing phase with single attempt
    if let PlayPhase::Showing {
        attempt_count,
        max_attempts,
        ..
    } = &engine.get_state().phase
    {
        assert_eq!(*attempt_count, 1);
        assert_eq!(*max_attempts, 1);
    } else {
        panic!("Expected Showing phase");
    }

    // Answer incorrectly - should go directly to stealing
    let result = engine.handle_action(GameAction::AnswerIncorrect {
        clue: (0, 0),
        team_id,
    });
    assert!(result.is_ok());

    // Should be in stealing phase
    assert!(matches!(engine.get_state().phase, PlayPhase::Steal { .. }));

    // Team should have lost points
    assert_eq!(engine.get_state().teams[0].score, -200);
}

#[test]
fn test_high_value_question_first_attempt_incorrect_second_correct() {
    let board = create_test_board_with_high_value_questions();
    let mut engine = GameEngine::new(board);

    // Add a team and start game
    let _ = engine.handle_action(GameAction::AddTeam {
        name: "Test Team".to_string(),
    });
    let _ = engine.handle_action(GameAction::StartGame);

    let team_id = engine.get_state().teams[0].id;

    // Select high-value question (800 points)
    let result = engine.handle_action(GameAction::SelectClue {
        clue: (0, 1),
        team_id,
    });
    assert!(result.is_ok());

    // Verify showing phase with two attempts
    if let PlayPhase::Showing {
        attempt_count,
        max_attempts,
        ..
    } = &engine.get_state().phase
    {
        assert_eq!(*attempt_count, 1);
        assert_eq!(*max_attempts, 2);
    } else {
        panic!("Expected Showing phase");
    }

    // First attempt incorrect - should stay in showing phase, no point deduction
    let initial_score = engine.get_state().teams[0].score;
    let result = engine.handle_action(GameAction::AnswerIncorrect {
        clue: (0, 1),
        team_id,
    });
    assert!(result.is_ok());

    // Should still be in showing phase with incremented attempt count
    if let PlayPhase::Showing {
        attempt_count,
        max_attempts,
        ..
    } = &engine.get_state().phase
    {
        assert_eq!(*attempt_count, 2);
        assert_eq!(*max_attempts, 2);
    } else {
        panic!("Expected Showing phase after first incorrect attempt");
    }

    // No points should be deducted yet
    assert_eq!(engine.get_state().teams[0].score, initial_score);

    // Second attempt correct - should award points and go to resolved
    let result = engine.handle_action(GameAction::AnswerCorrect {
        clue: (0, 1),
        team_id,
    });
    assert!(result.is_ok());

    // Should be in resolved phase
    assert!(matches!(
        engine.get_state().phase,
        PlayPhase::Resolved { .. }
    ));

    // Team should have gained points
    assert_eq!(engine.get_state().teams[0].score, initial_score + 800);

    // Clue should be solved
    assert!(engine.get_state().board.categories[0].clues[1].solved);
}

#[test]
fn test_high_value_question_both_attempts_incorrect() {
    let board = create_test_board_with_high_value_questions();
    let mut engine = GameEngine::new(board);

    // Add two teams and start game
    let _ = engine.handle_action(GameAction::AddTeam {
        name: "Team 1".to_string(),
    });
    let _ = engine.handle_action(GameAction::AddTeam {
        name: "Team 2".to_string(),
    });
    let _ = engine.handle_action(GameAction::StartGame);

    let team_id = engine.get_state().teams[0].id;

    // Select high-value question (800 points)
    let _ = engine.handle_action(GameAction::SelectClue {
        clue: (0, 1),
        team_id,
    });

    // First attempt incorrect
    let initial_score = engine.get_state().teams[0].score;
    let _ = engine.handle_action(GameAction::AnswerIncorrect {
        clue: (0, 1),
        team_id,
    });

    // Should still be in showing phase, no point deduction
    assert!(matches!(
        engine.get_state().phase,
        PlayPhase::Showing { .. }
    ));
    assert_eq!(engine.get_state().teams[0].score, initial_score);

    // Second attempt incorrect - should deduct points and go to stealing
    let result = engine.handle_action(GameAction::AnswerIncorrect {
        clue: (0, 1),
        team_id,
    });
    assert!(result.is_ok());

    // Should be in stealing phase
    assert!(matches!(engine.get_state().phase, PlayPhase::Steal { .. }));

    // Team should have lost points
    assert_eq!(engine.get_state().teams[0].score, initial_score - 800);
}

#[test]
fn test_high_value_question_first_attempt_correct() {
    let board = create_test_board_with_high_value_questions();
    let mut engine = GameEngine::new(board);

    // Add a team and start game
    let _ = engine.handle_action(GameAction::AddTeam {
        name: "Test Team".to_string(),
    });
    let _ = engine.handle_action(GameAction::StartGame);

    let team_id = engine.get_state().teams[0].id;

    // Select high-value question (800 points)
    let _ = engine.handle_action(GameAction::SelectClue {
        clue: (0, 1),
        team_id,
    });

    // First attempt correct - should award points and go to resolved
    let initial_score = engine.get_state().teams[0].score;
    let result = engine.handle_action(GameAction::AnswerCorrect {
        clue: (0, 1),
        team_id,
    });
    assert!(result.is_ok());

    // Should be in resolved phase
    assert!(matches!(
        engine.get_state().phase,
        PlayPhase::Resolved { .. }
    ));

    // Team should have gained points
    assert_eq!(engine.get_state().teams[0].score, initial_score + 800);

    // Clue should be solved
    assert!(engine.get_state().board.categories[0].clues[1].solved);
}

#[test]
fn test_boundary_condition_500_points() {
    let mut board = Board::default();
    board.categories = vec![Category {
        name: "Test Category".to_string(),
        clues: vec![Clue {
            id: 1,
            question: "Exactly 500 points".to_string(),
            answer: "Answer".to_string(),
            points: 500,
            solved: false,
            revealed: false,
        }],
    }];

    let mut engine = GameEngine::new(board);

    // Add a team and start game
    let _ = engine.handle_action(GameAction::AddTeam {
        name: "Test Team".to_string(),
    });
    let _ = engine.handle_action(GameAction::StartGame);

    let team_id = engine.get_state().teams[0].id;

    // Select 500-point question
    let result = engine.handle_action(GameAction::SelectClue {
        clue: (0, 0),
        team_id,
    });
    assert!(result.is_ok());

    // Should have single attempt (500 points is not > 500)
    if let PlayPhase::Showing {
        attempt_count,
        max_attempts,
        ..
    } = &engine.get_state().phase
    {
        assert_eq!(*attempt_count, 1);
        assert_eq!(*max_attempts, 1);
    } else {
        panic!("Expected Showing phase");
    }
}

#[test]
fn test_invalid_clue_coordinates() {
    let board = Board::default();
    let state = GameState::new(board);

    // Test invalid category index
    assert_eq!(get_question_points(&state, (999, 0)), 0);

    // Test invalid clue index
    assert_eq!(get_question_points(&state, (0, 999)), 0);

    // Both invalid
    assert_eq!(get_question_points(&state, (999, 999)), 0);
}

#[test]
fn test_zero_point_questions() {
    let mut board = Board::default();
    board.categories = vec![Category {
        name: "Test Category".to_string(),
        clues: vec![Clue {
            id: 1,
            question: "Zero points".to_string(),
            answer: "Answer".to_string(),
            points: 0,
            solved: false,
            revealed: false,
        }],
    }];

    let mut engine = GameEngine::new(board);

    // Add a team and start game
    let _ = engine.handle_action(GameAction::AddTeam {
        name: "Test Team".to_string(),
    });
    let _ = engine.handle_action(GameAction::StartGame);

    let team_id = engine.get_state().teams[0].id;

    // Select zero-point question
    let result = engine.handle_action(GameAction::SelectClue {
        clue: (0, 0),
        team_id,
    });
    assert!(result.is_ok());

    // Should have single attempt (0 points defaults to single attempt)
    if let PlayPhase::Showing {
        attempt_count,
        max_attempts,
        ..
    } = &engine.get_state().phase
    {
        assert_eq!(*attempt_count, 1);
        assert_eq!(*max_attempts, 1);
    } else {
        panic!("Expected Showing phase");
    }
}

#[test]
fn test_attempt_count_validation() {
    // This test verifies that attempt_count cannot exceed max_attempts
    // The logic in the incorrect-answer handler should prevent this
    let mut board = Board::default();
    board.categories = vec![Category {
        name: "Test Category".to_string(),
        clues: vec![Clue {
            id: 1,
            question: "High value question".to_string(),
            answer: "Answer".to_string(),
            points: 800,
            solved: false,
            revealed: false,
        }],
    }];

    let mut engine = GameEngine::new(board);

    // Add a team and start game
    let _ = engine.handle_action(GameAction::AddTeam {
        name: "Test Team".to_string(),
    });
    let _ = engine.handle_action(GameAction::StartGame);

    let team_id = engine.get_state().teams[0].id;

    // Select high-value question
    let _ = engine.handle_action(GameAction::SelectClue {
        clue: (0, 0),
        team_id,
    });

    // First incorrect attempt
    let _ = engine.handle_action(GameAction::AnswerIncorrect {
        clue: (0, 0),
        team_id,
    });

    // Verify we're still in showing phase with attempt_count = 2
    if let PlayPhase::Showing {
        attempt_count,
        max_attempts,
        ..
    } = &engine.get_state().phase
    {
        assert_eq!(*attempt_count, 2);
        assert_eq!(*max_attempts, 2);
    } else {
        panic!("Expected Showing phase after first incorrect attempt");
    }

    // Second incorrect attempt should go to stealing phase
    let result = engine.handle_action(GameAction::AnswerIncorrect {
        clue: (0, 0),
        team_id,
    });
    assert!(result.is_ok());

    // Should be in stealing phase now
    assert!(matches!(engine.get_state().phase, PlayPhase::Steal { .. }));
}

#[test]
fn test_answer_incorrect_in_wrong_phase() {
    let board = Board::default();
    let mut engine = GameEngine::new(board);

    // Add a team but don't start game (stay in lobby)
    let _ = engine.handle_action(GameAction::AddTeam {
        name: "Test Team".to_string(),
    });

    let team_id = engine.get_state().teams[0].id;

    // Try to answer incorrect while in lobby phase
    let result = engine.handle_action(GameAction::AnswerIncorrect {
        clue: (0, 0),
        team_id,
    });

    // Should return an error
    assert!(result.is_err());
    if let Err(GameError::InvalidAction { action, reason }) = result {
        assert_eq!(action, "AnswerIncorrect");
        assert!(reason.contains("Can only answer in showing phase"));
    } else {
        panic!("Expected InvalidAction error");
    }
}
