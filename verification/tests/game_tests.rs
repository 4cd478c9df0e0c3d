use std::collections::HashMap;

use game_auth::game::{
    bombs_max_count, copy_positions, new_attacker, plan_commands, respond, ActionType, Attacker,
    AttackerType, GameCommand, GameRequest, ResultType, StateOutcome,
};

type Pos = (i32, i32);
type Command = GameCommand<Pos, u8>;

fn request(action_type: ActionType, frame_number: i32, attacker_id: Option<i32>, bomb_id: Option<i32>) -> GameRequest<Pos> {
    GameRequest {
        action_type,
        frame_number,
        attacker_id,
        bomb_id,
        start_position: Some((1, 2)),
        attacker_path: vec![(1, 2), (1, 3), (2, 3)],
        bomb_position: (2, 3),
    }
}

fn attacker_types() -> HashMap<i32, AttackerType> {
    let mut types = HashMap::new();
    types.insert(3, AttackerType { id: 3, max_health: 120, speed: 4 });
    types.insert(4, AttackerType { id: 4, max_health: 90, speed: 6 });
    types
}

fn attacker(id: i32, health: i32, speed: i32) -> Attacker<Pos, u8> {
    Attacker {
        id,
        path_in_current_frame: vec![],
        attacker_pos: (1, 2),
        attacker_health: health,
        attacker_speed: speed,
        bombs: vec![],
    }
}

#[test]
fn bombs_max_count_parses_or_defaults_to_zero() {
    assert_eq!(bombs_max_count(Some("25".to_string())), 25);
    assert_eq!(bombs_max_count(Some("+7".to_string())), 7);
    assert_eq!(bombs_max_count(Some("-3".to_string())), -3);
    assert_eq!(bombs_max_count(Some("2147483647".to_string())), i32::MAX);
    assert_eq!(bombs_max_count(Some("2147483648".to_string())), 0);
    assert_eq!(bombs_max_count(Some(" 5".to_string())), 0);
    assert_eq!(bombs_max_count(Some("".to_string())), 0);
    assert_eq!(bombs_max_count(Some("-".to_string())), 0);
    assert_eq!(bombs_max_count(None), 0);
}

#[test]
fn new_attacker_starts_fresh() {
    let a: Attacker<Pos, u8> = new_attacker(&AttackerType { id: 4, max_health: 90, speed: 6 }, (1, 2));
    assert_eq!(a, attacker(4, 90, 6));
}

#[test]
fn positions_are_copied() {
    assert_eq!(copy_positions(&vec![(1, 2), (3, 4)]), vec![(1, 2), (3, 4)]);
    assert!(copy_positions::<Pos>(&vec![]).is_empty());
}

#[test]
fn placing_on_first_frame_sets_matching_bombs_then_places() {
    let plan: Vec<Command> =
        plan_commands(&request(ActionType::PlaceAttacker, 1, Some(4), Some(2)), &attacker_types(), &vec![1, 2, 3, 2], 10);
    assert_eq!(
        plan,
        vec![
            GameCommand::SetBombs { bomb_index: 1, max_count: 10 },
            GameCommand::SetBombs { bomb_index: 3, max_count: 10 },
            GameCommand::PlaceAttacker { attacker: attacker(4, 90, 6) },
            GameCommand::UpdateFrameNumber { frame_number: 1 },
        ]
    );
}

#[test]
fn placing_on_later_frame_sets_no_bombs() {
    let plan: Vec<Command> =
        plan_commands(&request(ActionType::PlaceAttacker, 2, Some(3), Some(2)), &attacker_types(), &vec![2], 10);
    assert_eq!(
        plan,
        vec![
            GameCommand::PlaceAttacker { attacker: attacker(3, 120, 4) },
            GameCommand::UpdateFrameNumber { frame_number: 2 },
        ]
    );
    let plan: Vec<Command> = plan_commands(&request(ActionType::PlaceAttacker, 1, None, None), &attacker_types(), &vec![2], 10);
    assert_eq!(plan, vec![GameCommand::UpdateFrameNumber { frame_number: 1 }]);
}

#[test]
fn moving_plans_attacker_then_defenders_along_path() {
    let plan: Vec<Command> = plan_commands(&request(ActionType::MoveAttacker, 9, Some(3), None), &attacker_types(), &vec![], 0);
    assert_eq!(
        plan,
        vec![
            GameCommand::MoveAttacker {
                frame_number: 9,
                path: vec![(1, 2), (1, 3), (2, 3)],
                attacker: attacker(3, 120, 4),
            },
            GameCommand::MoveDefenders { path: vec![(1, 2), (1, 3), (2, 3)] },
        ]
    );
    let plan: Vec<Command> = plan_commands(&request(ActionType::MoveAttacker, 9, None, None), &attacker_types(), &vec![], 0);
    assert!(plan.is_empty());
}

#[test]
fn other_actions_plan() {
    let plan: Vec<Command> = plan_commands(&request(ActionType::IsMine, 5, None, None), &attacker_types(), &vec![], 0);
    assert_eq!(plan, vec![GameCommand::MineBlast { path: vec![(1, 2), (1, 3), (2, 3)] }]);
    let plan: Vec<Command> = plan_commands(&request(ActionType::PlaceBombs, 5, Some(99), None), &attacker_types(), &vec![], 0);
    assert_eq!(
        plan,
        vec![GameCommand::PlaceBombs { path: vec![(1, 2), (1, 3), (2, 3)], bomb_position: (2, 3) }]
    );
    let plan: Vec<Command> = plan_commands(&request(ActionType::Idle, 5, None, None), &attacker_types(), &vec![], 0);
    assert!(plan.is_empty());
    let plan: Vec<Command> = plan_commands(&request(ActionType::Terminate, 5, None, None), &attacker_types(), &vec![], 0);
    assert!(plan.is_empty());
}

#[test]
fn placing_and_moving_without_attacker_are_not_answered() {
    let r = respond::<Pos, u8, u8, u8>(&request(ActionType::PlaceAttacker, 1, Some(1), None), StateOutcome::Unchanged);
    assert!(r.is_none());
    let r = respond::<Pos, u8, u8, u8>(&request(ActionType::MoveAttacker, 1, None, None), StateOutcome::Unchanged);
    assert!(r.is_none());
}

#[test]
fn move_answer_reports_defenders() {
    let r = respond::<Pos, u8, u16, u32>(
        &request(ActionType::MoveAttacker, 6, Some(1), None),
        StateOutcome::DefendersTriggered { attacker_health: 80, defenders: vec![1, 2], artifacts: 30 },
    )
    .unwrap();
    assert_eq!(r.frame_number, 6);
    assert_eq!(r.result_type, ResultType::DefendersTriggered);
    assert_eq!(r.is_alive, Some(true));
    assert_eq!(r.attacker_health, Some(80));
    assert_eq!(r.triggered_defenders, Some(vec![1, 2]));
    assert_eq!(r.artifacts_gained_total, Some(30));
    assert_eq!(r.exploded_mines, None);
    assert_eq!(r.damaged_buildings, None);
    assert!(!r.is_sync);
    assert!(!r.is_game_over);
    assert_eq!(r.message.as_deref(), Some("return test"));
}

#[test]
fn mine_and_bomb_answers_carry_their_reports() {
    let r = respond::<Pos, u8, u16, u32>(&request(ActionType::IsMine, 3, None, None), StateOutcome::MinesExploded(Some(vec![4]))).unwrap();
    assert_eq!(r.exploded_mines, Some(vec![4]));
    assert_eq!(r.attacker_health, None);
    assert_eq!(r.result_type, ResultType::DefendersTriggered);
    let r = respond::<Pos, u8, u16, u32>(&request(ActionType::PlaceBombs, 3, None, None), StateOutcome::BuildingsDamaged(None)).unwrap();
    assert_eq!(r.damaged_buildings, None);
    assert_eq!(r.is_alive, Some(true));
    let r = respond::<Pos, u8, u16, u32>(&request(ActionType::PlaceBombs, 3, None, None), StateOutcome::BuildingsDamaged(Some(vec![9, 8]))).unwrap();
    assert_eq!(r.damaged_buildings, Some(vec![9, 8]));
}

#[test]
fn idle_and_terminate_answers() {
    let r = respond::<Pos, u8, u8, u8>(&request(ActionType::Idle, 12, None, None), StateOutcome::Unchanged).unwrap();
    assert_eq!(r.result_type, ResultType::DefendersTriggered);
    assert_eq!(r.is_alive, Some(true));
    assert!(!r.is_game_over);
    let r = respond::<Pos, u8, u8, u8>(&request(ActionType::Terminate, 12, None, None), StateOutcome::Unchanged).unwrap();
    assert_eq!(r.frame_number, 12);
    assert_eq!(r.result_type, ResultType::GameOver);
    assert_eq!(r.is_alive, None);
    assert!(r.is_game_over);
    assert_eq!(r.message.as_deref(), Some("Game over"));
}
