//! The decisions of the attack-game socket handler: which operations a
//! request asks of the game state, with what, and what it is answered.
use vstd::prelude::*;
use std::collections::HashMap;
use crate::encoding::{parse_i32, spec_parse_i32};
use crate::game_laws::{law_plan_shape, plan_shape};

verus! {

broadcast use vstd::std_specs::hash::group_hash_axioms;

/// What a socket request asks for.
#[derive(Debug, Clone, Copy, PartialEq, Eq, Structural)]
pub enum ActionType {
    PlaceAttacker,
    MoveAttacker,
    IsMine,
    PlaceBombs,
    Idle,
    Terminate,
}

/// The kind of a socket response.
#[derive(Debug, Clone, Copy, PartialEq, Eq, Structural)]
pub enum ResultType {
    DefendersTriggered,
    GameOver,
}

/// The parts of an attacker type that the handler reads.
#[derive(Debug, Clone, Copy, PartialEq, Eq, Structural)]
pub struct AttackerType {
    pub id: i32,
    pub max_health: i32,
    pub speed: i32,
}

/// An attacker as handed to the game state; `C` is the type of a position
/// on the map and `K` that of a bomb the attacker carries.
#[derive(Debug, PartialEq)]
pub struct Attacker<C, K> {
    pub id: i32,
    pub path_in_current_frame: Vec<C>,
    pub attacker_pos: C,
    pub attacker_health: i32,
    pub attacker_speed: i32,
    pub bombs: Vec<K>,
}

/// Mathematical model of an `Attacker`.
pub struct AttackerModel<C, K> {
    pub id: i32,
    pub path_in_current_frame: Seq<C>,
    pub attacker_pos: C,
    pub attacker_health: i32,
    pub attacker_speed: i32,
    pub bombs: Seq<K>,
}

impl<C, K> View for Attacker<C, K> {
    type V = AttackerModel<C, K>;

    open spec fn view(&self) -> AttackerModel<C, K> {
        AttackerModel {
            id: self.id,
            path_in_current_frame: self.path_in_current_frame@,
            attacker_pos: self.attacker_pos,
            attacker_health: self.attacker_health,
            attacker_speed: self.attacker_speed,
            bombs: self.bombs@,
        }
    }
}

/// The attacker of type `attacker_type` entering at `start`: at full health,
/// at its type's speed, with no path walked in this frame and no bombs.
pub open spec fn spec_new_attacker<C, K>(attacker_type: AttackerType, start: C) -> AttackerModel<C, K> {
    AttackerModel {
        id: attacker_type.id,
        path_in_current_frame: Seq::empty(),
        attacker_pos: start,
        attacker_health: attacker_type.max_health,
        attacker_speed: attacker_type.speed,
        bombs: Seq::empty(),
    }
}

/// Builds the attacker of type `attacker_type` entering at `start`.
pub fn new_attacker<C, K>(attacker_type: &AttackerType, start: C) -> (res: Attacker<C, K>)
    ensures
        res@ == spec_new_attacker::<C, K>(*attacker_type, start),
        res.id == attacker_type.id,
        res.attacker_pos == start,
        res.attacker_health == attacker_type.max_health,
        res.attacker_speed == attacker_type.speed,
        res.path_in_current_frame@.len() == 0,
        res.bombs@.len() == 0,
{
    Attacker {
        id: attacker_type.id,
        path_in_current_frame: Vec::new(),
        attacker_pos: start,
        attacker_health: attacker_type.max_health,
        attacker_speed: attacker_type.speed,
        bombs: Vec::new(),
    }
}

/// The parts of a socket request that the handler decides on or hands on;
/// `C` is the type of a position on the map.
#[derive(Debug, Clone)]
pub struct GameRequest<C> {
    pub action_type: ActionType,
    pub frame_number: i32,
    pub attacker_id: Option<i32>,
    pub bomb_id: Option<i32>,
    pub start_position: Option<C>,
    pub attacker_path: Vec<C>,
    pub bomb_position: C,
}

/// An operation on the game state, with what is handed to it, in the order
/// the handler performs them.
#[derive(Debug, PartialEq)]
pub enum GameCommand<C, K> {
    /// Give the state the bomb type at `bomb_index`, with `max_count` bombs.
    SetBombs { bomb_index: usize, max_count: i32 },
    /// Place this attacker.
    PlaceAttacker { attacker: Attacker<C, K> },
    /// Record the frame number.
    UpdateFrameNumber { frame_number: i32 },
    /// Move this attacker along `path` in this frame.
    MoveAttacker { frame_number: i32, path: Vec<C>, attacker: Attacker<C, K> },
    /// Move the defenders against an attacker on `path`, along the shortest
    /// paths the handler holds, and report what they triggered.
    MoveDefenders { path: Vec<C> },
    /// Explode the mines on `path`.
    MineBlast { path: Vec<C> },
    /// Place bombs along `path` at `bomb_position`.
    PlaceBombs { path: Vec<C>, bomb_position: C },
}

/// Mathematical model of a `GameCommand`.
pub enum CommandModel<C, K> {
    SetBombs { bomb_index: usize, max_count: i32 },
    PlaceAttacker { attacker: AttackerModel<C, K> },
    UpdateFrameNumber { frame_number: i32 },
    MoveAttacker { frame_number: i32, path: Seq<C>, attacker: AttackerModel<C, K> },
    MoveDefenders { path: Seq<C> },
    MineBlast { path: Seq<C> },
    PlaceBombs { path: Seq<C>, bomb_position: C },
}

impl<C, K> View for GameCommand<C, K> {
    type V = CommandModel<C, K>;

    open spec fn view(&self) -> CommandModel<C, K> {
        match self {
            GameCommand::SetBombs { bomb_index, max_count } => CommandModel::SetBombs {
                bomb_index: *bomb_index,
                max_count: *max_count,
            },
            GameCommand::PlaceAttacker { attacker } => CommandModel::PlaceAttacker {
                attacker: attacker@,
            },
            GameCommand::UpdateFrameNumber { frame_number } => CommandModel::UpdateFrameNumber {
                frame_number: *frame_number,
            },
            GameCommand::MoveAttacker { frame_number, path, attacker } => CommandModel::MoveAttacker {
                frame_number: *frame_number,
                path: path@,
                attacker: attacker@,
            },
            GameCommand::MoveDefenders { path } => CommandModel::MoveDefenders { path: path@ },
            GameCommand::MineBlast { path } => CommandModel::MineBlast { path: path@ },
            GameCommand::PlaceBombs { path, bomb_position } => CommandModel::PlaceBombs {
                path: path@,
                bomb_position: *bomb_position,
            },
        }
    }
}

/// The models of a list of commands.
pub open spec fn commands_view<C, K>(commands: Seq<GameCommand<C, K>>) -> Seq<CommandModel<C, K>> {
    commands.map_values(|c: GameCommand<C, K>| c@)
}

/// What the last operation on the state reported.
pub enum StateOutcome<M, D, B> {
    /// Nothing to report.
    Unchanged,
    /// The defenders moved: the attacker's health, the defenders that
    /// responded, and the artifacts gained in all.
    DefendersTriggered { attacker_health: i32, defenders: Vec<D>, artifacts: i32 },
    /// The mines that exploded.
    MinesExploded(Option<Vec<M>>),
    /// The buildings that were damaged.
    BuildingsDamaged(Option<Vec<B>>),
}

/// The answer sent back over the socket.
pub struct SocketResponse<M, D, B> {
    pub frame_number: i32,
    pub result_type: ResultType,
    pub is_alive: Option<bool>,
    pub attacker_health: Option<i32>,
    pub exploded_mines: Option<Vec<M>>,
    pub triggered_defenders: Option<Vec<D>>,
    pub damaged_buildings: Option<Vec<B>>,
    pub artifacts_gained_total: Option<i32>,
    pub is_sync: bool,
    pub is_game_over: bool,
    pub message: Option<String>,
}

/// The number of bombs of the chosen type, from the configured setting:
/// the setting parsed as an `i32`, or 0 where it is missing or does not parse.
pub open spec fn spec_bombs_max_count(setting: Option<Seq<char>>) -> i32 {
    match setting {
        Some(s) => match spec_parse_i32(s) {
            Some(v) => v,
            None => 0,
        },
        None => 0,
    }
}

/// Reads the configured number of bombs (`None` where it is not configured).
pub fn bombs_max_count(setting: Option<String>) -> (res: i32)
    ensures
        res == spec_bombs_max_count(
            match setting {
                Some(s) => Some(s@),
                None => None,
            },
        ),
        setting is Some && spec_parse_i32(setting.unwrap()@) is Some ==> res == spec_parse_i32(
            setting.unwrap()@,
        ).unwrap(),
        !(setting is Some && spec_parse_i32(setting.unwrap()@) is Some) ==> res == 0,
{
    match setting {
        Some(s) => match parse_i32(s.as_str()) {
            Some(v) => v,
            None => 0,
        },
        None => 0,
    }
}

/// A copy of a list of positions.
pub fn copy_positions<C: Copy>(positions: &Vec<C>) -> (res: Vec<C>)
    ensures
        res@ == positions@,
{
    let mut res: Vec<C> = Vec::new();
    let n = positions.len();
    let mut i: usize = 0;
    while i < n
        invariant
            n == positions@.len(),
            i <= n,
            res@ == positions@.take(i as int),
        decreases n - i,
    {
        res.push(positions[i]);
        i = i + 1;
        assert(res@ =~= positions@.take(i as int));
    }
    assert(positions@.take(n as int) =~= positions@);
    res
}

/// A `SetBombs` for each bomb type, in order, whose id equals `bomb_id`.
pub open spec fn bomb_commands<C, K>(bomb_type_ids: Seq<i32>, bomb_id: i32, max_count: i32) -> Seq<
    CommandModel<C, K>,
>
    decreases bomb_type_ids.len(),
{
    if bomb_type_ids.len() == 0 {
        Seq::empty()
    } else {
        let earlier = bomb_commands::<C, K>(bomb_type_ids.drop_last(), bomb_id, max_count);
        if bomb_type_ids.last() == bomb_id {
            earlier.push(
                CommandModel::SetBombs {
                    bomb_index: (bomb_type_ids.len() - 1) as usize,
                    max_count,
                },
            )
        } else {
            earlier
        }
    }
}

/// Whether the handler can serve `request` with the attacker types it knows:
/// an attacker that is placed or moved is of a known type and has a start
/// position.
pub open spec fn plan_possible<C>(request: GameRequest<C>, attacker_types: Map<i32, AttackerType>) -> bool {
    (request.action_type == ActionType::PlaceAttacker || request.action_type
        == ActionType::MoveAttacker) ==> match request.attacker_id {
        Some(id) => attacker_types.contains_key(id) && request.start_position is Some,
        None => true,
    }
}

/// The operations a request asks of the state, in order, with what each is
/// handed. Placing an attacker first sets, on frame 1 only, every bomb type
/// whose id is the requested bomb's; then places the named attacker, built
/// from its type at the start position; then records the frame. Moving an
/// attacker, if one is named, moves that attacker along the request's path
/// and then the defenders against that path. A mine check explodes the mines
/// on the path; a bomb placement places bombs along the path at the bomb
/// position. Idling and terminating touch nothing.
pub open spec fn spec_plan<C, K>(
    request: GameRequest<C>,
    attacker_types: Map<i32, AttackerType>,
    bomb_type_ids: Seq<i32>,
    max_count: i32,
) -> Seq<CommandModel<C, K>> {
    let path = request.attacker_path@;
    match request.action_type {
        ActionType::PlaceAttacker => {
            let bombs = if request.frame_number == 1 {
                match request.bomb_id {
                    Some(b) => bomb_commands::<C, K>(bomb_type_ids, b, max_count),
                    None => Seq::empty(),
                }
            } else {
                Seq::empty()
            };
            let placed = match request.attacker_id {
                Some(a) => seq![
                    CommandModel::PlaceAttacker {
                        attacker: spec_new_attacker::<C, K>(
                            attacker_types[a],
                            request.start_position.unwrap(),
                        ),
                    },
                ],
                None => Seq::empty(),
            };
            bombs + placed + seq![
                CommandModel::UpdateFrameNumber { frame_number: request.frame_number },
            ]
        },
        ActionType::MoveAttacker => match request.attacker_id {
            Some(a) => seq![
                CommandModel::MoveAttacker {
                    frame_number: request.frame_number,
                    path,
                    attacker: spec_new_attacker::<C, K>(
                        attacker_types[a],
                        request.start_position.unwrap(),
                    ),
                },
                CommandModel::MoveDefenders { path },
            ],
            None => Seq::empty(),
        },
        ActionType::IsMine => seq![CommandModel::MineBlast { path }],
        ActionType::PlaceBombs => seq![
            CommandModel::PlaceBombs { path, bomb_position: request.bomb_position },
        ],
        ActionType::Idle => Seq::empty(),
        ActionType::Terminate => Seq::empty(),
    }
}

/// Appends a command, keeping the models in step.
fn push_command<C, K>(commands: &mut Vec<GameCommand<C, K>>, command: GameCommand<C, K>)
    ensures
        commands_view(final(commands)@) == commands_view(old(commands)@).push(command@),
{
    commands.push(command);
    assert(commands_view(commands@) =~= commands_view(old(commands)@).push(command@));
}

/// The attacker of the type named `attacker_id`, at the request's start
/// position.
fn attacker_for<C: Copy, K>(
    request: &GameRequest<C>,
    attacker_types: &HashMap<i32, AttackerType>,
    attacker_id: i32,
) -> (res: Attacker<C, K>)
    requires
        attacker_types@.contains_key(attacker_id),
        request.start_position is Some,
    ensures
        res@ == spec_new_attacker::<C, K>(
            attacker_types@[attacker_id],
            request.start_position.unwrap(),
        ),
{
    let start = match request.start_position {
        Some(p) => p,
        None => {
            proof {
                assert(false);
            }
            request.bomb_position
        },
    };
    match attacker_types.get(&attacker_id) {
        Some(t) => new_attacker(t, start),
        None => {
            proof {
                assert(false);
            }
            new_attacker(&AttackerType { id: attacker_id, max_health: 0, speed: 0 }, start)
        },
    }
}

/// Lists the operations on the game state that `request` asks for, with
/// what each is handed, given the known attacker types, the ids of the known
/// bomb types (in order) and the configured bomb count.
pub fn plan_commands<C: Copy, K>(
    request: &GameRequest<C>,
    attacker_types: &HashMap<i32, AttackerType>,
    bomb_type_ids: &Vec<i32>,
    max_count: i32,
) -> (res: Vec<GameCommand<C, K>>)
    requires
        plan_possible(*request, attacker_types@),
    ensures
        commands_view(res@) == spec_plan::<C, K>(
            *request,
            attacker_types@,
            bomb_type_ids@,
            max_count,
        ),
        plan_shape(*request, attacker_types@, commands_view(res@)),
{
    let mut commands: Vec<GameCommand<C, K>> = Vec::new();
    assert(commands_view(commands@) =~= Seq::<CommandModel<C, K>>::empty());
    match request.action_type {
        ActionType::PlaceAttacker => {
            if request.frame_number == 1 {
                if let Some(b) = request.bomb_id {
                    let n = bomb_type_ids.len();
                    let mut i: usize = 0;
                    assert(bomb_type_ids@.take(0) =~= Seq::<i32>::empty());
                    while i < n
                        invariant
                            n == bomb_type_ids@.len(),
                            i <= n,
                            commands_view(commands@) == bomb_commands::<C, K>(
                                bomb_type_ids@.take(i as int),
                                b,
                                max_count,
                            ),
                        decreases n - i,
                    {
                        assert(bomb_type_ids@.take(i + 1).drop_last() =~= bomb_type_ids@.take(
                            i as int,
                        ));
                        if bomb_type_ids[i] == b {
                            push_command(&mut commands, GameCommand::SetBombs { bomb_index: i, max_count });
                        }
                        i = i + 1;
                    }
                    assert(bomb_type_ids@.take(n as int) =~= bomb_type_ids@);
                }
            }
            if let Some(a) = request.attacker_id {
                let attacker = attacker_for(request, attacker_types, a);
                push_command(&mut commands, GameCommand::PlaceAttacker { attacker });
            }
            push_command(
                &mut commands,
                GameCommand::UpdateFrameNumber { frame_number: request.frame_number },
            );
        },
        ActionType::MoveAttacker => {
            if let Some(a) = request.attacker_id {
                let attacker = attacker_for(request, attacker_types, a);
                let path = copy_positions(&request.attacker_path);
                push_command(
                    &mut commands,
                    GameCommand::MoveAttacker { frame_number: request.frame_number, path, attacker },
                );
                let path = copy_positions(&request.attacker_path);
                push_command(&mut commands, GameCommand::MoveDefenders { path });
            }
        },
        ActionType::IsMine => {
            let path = copy_positions(&request.attacker_path);
            push_command(&mut commands, GameCommand::MineBlast { path });
        },
        ActionType::PlaceBombs => {
            let path = copy_positions(&request.attacker_path);
            push_command(
                &mut commands,
                GameCommand::PlaceBombs { path, bomb_position: request.bomb_position },
            );
        },
        ActionType::Idle => {},
        ActionType::Terminate => {},
    }
    assert(commands_view(commands@) =~= spec_plan::<C, K>(
        *request,
        attacker_types@,
        bomb_type_ids@,
        max_count,
    ));
    let ids_len = bomb_type_ids.len();
    proof {
        assert(bomb_type_ids@.len() == ids_len);
        law_plan_shape::<C, K>(*request, attacker_types@, bomb_type_ids@, max_count);
    }
    commands
}

/// Whether a request is answered at all: placing an attacker is not, nor is
/// moving when no attacker is named; everything else is.
pub open spec fn is_answered<C>(request: GameRequest<C>) -> bool {
    match request.action_type {
        ActionType::PlaceAttacker => false,
        ActionType::MoveAttacker => request.attacker_id is Some,
        _ => true,
    }
}

/// Whether `outcome` is what the last operation planned for `request` reports.
pub open spec fn outcome_fits<C, M, D, B>(request: GameRequest<C>, outcome: StateOutcome<M, D, B>) -> bool {
    match request.action_type {
        ActionType::MoveAttacker => if request.attacker_id is Some {
            outcome is DefendersTriggered
        } else {
            outcome is Unchanged
        },
        ActionType::IsMine => outcome is MinesExploded,
        ActionType::PlaceBombs => outcome is BuildingsDamaged,
        _ => outcome is Unchanged,
    }
}

/// The message text of an answer.
pub open spec fn response_message(action: ActionType) -> Seq<char> {
    if action == ActionType::Terminate {
        "Game over"@
    } else {
        "return test"@
    }
}

/// What `response` says about `request` and `outcome`. A terminate request
/// is answered as game over, with no liveness and every report empty. Every
/// other answered request is answered as defenders triggered, alive, not
/// over, and carries exactly what the outcome reported.
pub open spec fn response_fits<C, M, D, B>(
    request: GameRequest<C>,
    outcome: StateOutcome<M, D, B>,
    response: SocketResponse<M, D, B>,
) -> bool {
    &&& response.frame_number == request.frame_number
    &&& !response.is_sync
    &&& response.message matches Some(m) && m@ == response_message(request.action_type)
    &&& if request.action_type == ActionType::Terminate {
        &&& response.result_type == ResultType::GameOver
        &&& response.is_alive is None
        &&& response.is_game_over
    } else {
        &&& response.result_type == ResultType::DefendersTriggered
        &&& response.is_alive == Some(true)
        &&& !response.is_game_over
    }
    &&& match outcome {
        StateOutcome::DefendersTriggered { attacker_health, defenders, artifacts } => {
            &&& response.attacker_health == Some(attacker_health)
            &&& response.triggered_defenders == Some(defenders)
            &&& response.artifacts_gained_total == Some(artifacts)
            &&& response.exploded_mines is None
            &&& response.damaged_buildings is None
        },
        StateOutcome::MinesExploded(mines) => {
            &&& response.exploded_mines == mines
            &&& response.attacker_health is None
            &&& response.triggered_defenders is None
            &&& response.artifacts_gained_total is None
            &&& response.damaged_buildings is None
        },
        StateOutcome::BuildingsDamaged(buildings) => {
            &&& response.damaged_buildings == buildings
            &&& response.attacker_health is None
            &&& response.triggered_defenders is None
            &&& response.artifacts_gained_total is None
            &&& response.exploded_mines is None
        },
        StateOutcome::Unchanged => {
            &&& response.attacker_health is None
            &&& response.triggered_defenders is None
            &&& response.artifacts_gained_total is None
            &&& response.exploded_mines is None
            &&& response.damaged_buildings is None
        },
    }
}

/// Builds the answer to `request` from what its last state operation
/// reported, or `None` where the request is not answered.
pub fn respond<C, M, D, B>(request: &GameRequest<C>, outcome: StateOutcome<M, D, B>) -> (res: Option<
    SocketResponse<M, D, B>,
>)
    requires
        outcome_fits(*request, outcome),
    ensures
        res is Some <==> is_answered(*request),
        res matches Some(r) ==> response_fits(*request, outcome, r),
        request.action_type == ActionType::PlaceAttacker ==> res is None,
        request.action_type == ActionType::MoveAttacker ==> (res is Some
            <==> request.attacker_id is Some),
        request.action_type != ActionType::PlaceAttacker && request.action_type
            != ActionType::MoveAttacker ==> (res is Some),
{
    let answered = match request.action_type {
        ActionType::PlaceAttacker => false,
        ActionType::MoveAttacker => request.attacker_id.is_some(),
        _ => true,
    };
    if !answered {
        return None;
    }
    let terminate = request.action_type == ActionType::Terminate;
    let message = if terminate {
        String::from_str("Game over")
    } else {
        String::from_str("return test")
    };
    let result_type = if terminate {
        ResultType::GameOver
    } else {
        ResultType::DefendersTriggered
    };
    let is_alive = if terminate {
        None
    } else {
        Some(true)
    };
    let mut response = SocketResponse {
        frame_number: request.frame_number,
        result_type,
        is_alive,
        attacker_health: None,
        exploded_mines: None,
        triggered_defenders: None,
        damaged_buildings: None,
        artifacts_gained_total: None,
        is_sync: false,
        is_game_over: terminate,
        message: Some(message),
    };
    match outcome {
        StateOutcome::DefendersTriggered { attacker_health, defenders, artifacts } => {
            response.attacker_health = Some(attacker_health);
            response.triggered_defenders = Some(defenders);
            response.artifacts_gained_total = Some(artifacts);
        },
        StateOutcome::MinesExploded(mines) => {
            response.exploded_mines = mines;
        },
        StateOutcome::BuildingsDamaged(buildings) => {
            response.damaged_buildings = buildings;
        },
        StateOutcome::Unchanged => {},
    }
    Some(response)
}

} // verus!
