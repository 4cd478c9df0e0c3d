//! What the plans of the socket handler guarantee about bombs.
use vstd::prelude::*;
use crate::encoding::spec_parse_i32;
use crate::game::{
    bomb_commands, is_answered, plan_possible, response_fits, spec_bombs_max_count, spec_plan,
    ActionType, AttackerModel, AttackerType, CommandModel, GameRequest, ResultType,
    SocketResponse, StateOutcome,
};

verus! {

/// Every command listed names, with count `max_count`, a bomb type whose id
/// is `bomb_id`.
pub open spec fn sets_only<C, K>(commands: Seq<CommandModel<C, K>>, bomb_type_ids: Seq<i32>, bomb_id: i32, max_count: i32) -> bool {
    forall|k: int|
        0 <= k < commands.len() ==> {
            let c = #[trigger] commands[k];
            &&& c matches CommandModel::SetBombs { bomb_index, max_count: m }
            &&& bomb_index < bomb_type_ids.len()
            &&& bomb_type_ids[bomb_index as int] == bomb_id
            &&& m == max_count
        }
}

/// The bomb types come in increasing order.
pub open spec fn increasing_types<C, K>(commands: Seq<CommandModel<C, K>>) -> bool {
    forall|k: int, l: int|
        0 <= k < l < commands.len() ==> (#[trigger] commands[k])->bomb_index < (
        #[trigger] commands[l])->bomb_index
}

/// Every bomb type whose id is `bomb_id` is listed.
pub open spec fn sets_every<C, K>(commands: Seq<CommandModel<C, K>>, bomb_type_ids: Seq<i32>, bomb_id: i32) -> bool {
    forall|j: int|
        0 <= j < bomb_type_ids.len() && #[trigger] bomb_type_ids[j] == bomb_id ==> exists|k: int|
            0 <= k < commands.len() && (#[trigger] commands[k])->bomb_index == j
}

/// The bomb commands for a request name exactly the bomb types with the
/// requested id, each once, in order, with the configured count.
pub proof fn lemma_bomb_commands<C, K>(bomb_type_ids: Seq<i32>, bomb_id: i32, max_count: i32)
    requires
        bomb_type_ids.len() <= usize::MAX,
    ensures
        sets_only(bomb_commands::<C, K>(bomb_type_ids, bomb_id, max_count), bomb_type_ids, bomb_id, max_count),
        increasing_types(bomb_commands::<C, K>(bomb_type_ids, bomb_id, max_count)),
        sets_every(bomb_commands::<C, K>(bomb_type_ids, bomb_id, max_count), bomb_type_ids, bomb_id),
    decreases bomb_type_ids.len(),
{
    if bomb_type_ids.len() > 0 {
        let earlier_ids = bomb_type_ids.drop_last();
        lemma_bomb_commands::<C, K>(earlier_ids, bomb_id, max_count);
        let earlier = bomb_commands::<C, K>(earlier_ids, bomb_id, max_count);
        let all = bomb_commands::<C, K>(bomb_type_ids, bomb_id, max_count);
        assert forall|k: int| 0 <= k < earlier.len() implies (#[trigger] earlier[k])->bomb_index
            < bomb_type_ids.len() - 1 by {
            assert(earlier[k] matches CommandModel::SetBombs { .. });
        }
        assert forall|j: int|
            0 <= j < bomb_type_ids.len() && #[trigger] bomb_type_ids[j] == bomb_id implies exists|
                k: int,
            |
                0 <= k < all.len() && (#[trigger] all[k])->bomb_index == j by {
            if j < bomb_type_ids.len() - 1 {
                assert(earlier_ids[j] == bomb_id);
                let k = choose|k: int|
                    0 <= k < earlier.len() && (#[trigger] earlier[k])->bomb_index == j;
                assert(all[k] == earlier[k]);
            } else {
                assert(bomb_type_ids.last() == bomb_id);
                assert(all == earlier.push(
                    CommandModel::SetBombs { bomb_index: (bomb_type_ids.len() - 1) as usize, max_count },
                ));
                assert(all[earlier.len() as int]->bomb_index == j);
            }
        }
    }
}

/// Every `SetBombs` in the plan for `request` comes from placing an
/// attacker on frame 1 and names, with the configured count, a bomb type
/// whose id is the requested bomb's.
pub open spec fn plan_sets_only_requested<C, K>(
    request: GameRequest<C>,
    attacker_types: Map<i32, AttackerType>,
    bomb_type_ids: Seq<i32>,
    max_count: i32,
) -> bool {
    let plan = spec_plan::<C, K>(request, attacker_types, bomb_type_ids, max_count);
    forall|k: int|
        0 <= k < plan.len() && (#[trigger] plan[k]) is SetBombs ==> {
            &&& request.action_type == ActionType::PlaceAttacker
            &&& request.frame_number == 1
            &&& plan[k]->bomb_index < bomb_type_ids.len()
            &&& request.bomb_id == Some(bomb_type_ids[plan[k]->bomb_index as int])
            &&& plan[k]->max_count == max_count
        }
}

/// When an attacker is placed on frame 1 with a bomb named, the plan sets
/// every bomb type whose id is that bomb's, with the configured count.
pub open spec fn plan_sets_every_requested<C, K>(
    request: GameRequest<C>,
    attacker_types: Map<i32, AttackerType>,
    bomb_type_ids: Seq<i32>,
    max_count: i32,
) -> bool {
    let plan = spec_plan::<C, K>(request, attacker_types, bomb_type_ids, max_count);
    request.action_type == ActionType::PlaceAttacker && request.frame_number == 1
        && request.bomb_id is Some ==> forall|j: int|
        0 <= j < bomb_type_ids.len() && #[trigger] bomb_type_ids[j] == request.bomb_id.unwrap()
            ==> exists|k: int|
            0 <= k < plan.len() && (#[trigger] plan[k]) == (CommandModel::<C, K>::SetBombs {
                bomb_index: j as usize,
                max_count,
            })
}

/// Bombs are set only when an attacker is placed on frame 1, only for bomb
/// types whose id is the requested bomb's, and with the configured count;
/// and then every such bomb type is set (bomb types being held in a `Vec`,
/// there are at most `usize::MAX` of them).
pub proof fn law_bombs_set_only_for_requested_type<C, K>(
    request: GameRequest<C>,
    attacker_types: Map<i32, AttackerType>,
    bomb_type_ids: Seq<i32>,
    max_count: i32,
)
    requires
        bomb_type_ids.len() <= usize::MAX,
    ensures
        plan_sets_only_requested::<C, K>(request, attacker_types, bomb_type_ids, max_count),
        plan_sets_every_requested::<C, K>(request, attacker_types, bomb_type_ids, max_count),
{
    let plan = spec_plan::<C, K>(request, attacker_types, bomb_type_ids, max_count);
    if request.action_type == ActionType::PlaceAttacker {
        let bombs = if request.frame_number == 1 {
            match request.bomb_id {
                Some(b) => bomb_commands::<C, K>(bomb_type_ids, b, max_count),
                None => Seq::empty(),
            }
        } else {
            Seq::empty()
        };
        if request.frame_number == 1 && request.bomb_id is Some {
            lemma_bomb_commands::<C, K>(bomb_type_ids, request.bomb_id.unwrap(), max_count);
        }
        assert forall|k: int|
            0 <= k < plan.len() && (#[trigger] plan[k]) is SetBombs implies {
                &&& request.frame_number == 1
                &&& plan[k]->bomb_index < bomb_type_ids.len()
                &&& request.bomb_id == Some(bomb_type_ids[plan[k]->bomb_index as int])
                &&& plan[k]->max_count == max_count
            } by {
            if k >= bombs.len() {
                assert(!(plan[k] is SetBombs));
            } else {
                assert(plan[k] == bombs[k]);
            }
        }
        if request.frame_number == 1 && request.bomb_id is Some {
            assert forall|j: int|
                0 <= j < bomb_type_ids.len() && #[trigger] bomb_type_ids[j]
                    == request.bomb_id.unwrap() implies exists|k: int|
                0 <= k < plan.len() && (#[trigger] plan[k]) == (CommandModel::<C, K>::SetBombs {
                    bomb_index: j as usize,
                    max_count,
                }) by {
                let k = choose|k: int|
                    0 <= k < bombs.len() && (#[trigger] bombs[k])->bomb_index == j;
                assert(plan[k] == bombs[k]);
            }
        }
    }
}

/// `attacker` is the attacker of type `attacker_type` as it enters at
/// `start`: its type's id, speed and full health, standing at `start`, with
/// no path walked and no bombs.
pub open spec fn fresh_attacker<C, K>(
    attacker: AttackerModel<C, K>,
    attacker_type: AttackerType,
    start: C,
) -> bool {
    &&& attacker.id == attacker_type.id
    &&& attacker.attacker_pos == start
    &&& attacker.attacker_health == attacker_type.max_health
    &&& attacker.attacker_speed == attacker_type.speed
    &&& attacker.path_in_current_frame.len() == 0
    &&& attacker.bombs.len() == 0
}

/// What the plan for each kind of request consists of. Placing bombs is one
/// placement along the request's path at the request's bomb position; a
/// mine check is one blast along the request's path; idling and terminating
/// do nothing; moving a named attacker moves that attacker, fresh from its
/// type at the start position, along the request's path in the request's
/// frame, and then the defenders against that path, while moving no one
/// does nothing; placing ends by recording the request's frame, just after
/// placing the named attacker (fresh from its type at the start position),
/// and before that only sets bombs.
pub open spec fn plan_shape<C, K>(
    request: GameRequest<C>,
    attacker_types: Map<i32, AttackerType>,
    plan: Seq<CommandModel<C, K>>,
) -> bool {
    let path = request.attacker_path@;
    let start = request.start_position.unwrap();
    match request.action_type {
        ActionType::PlaceBombs => plan == seq![
            CommandModel::<C, K>::PlaceBombs { path, bomb_position: request.bomb_position },
        ],
        ActionType::IsMine => plan == seq![CommandModel::<C, K>::MineBlast { path }],
        ActionType::Idle => plan.len() == 0,
        ActionType::Terminate => plan.len() == 0,
        ActionType::MoveAttacker => match request.attacker_id {
            None => plan.len() == 0,
            Some(a) => {
                &&& plan.len() == 2
                &&& plan[0] is MoveAttacker
                &&& plan[0]->MoveAttacker_frame_number == request.frame_number
                &&& plan[0]->MoveAttacker_path == path
                &&& fresh_attacker(plan[0]->MoveAttacker_attacker, attacker_types[a], start)
                &&& plan[1] == CommandModel::<C, K>::MoveDefenders { path }
            },
        },
        ActionType::PlaceAttacker => {
            let n = plan.len() as int;
            let bombs_end = if request.attacker_id is Some {
                n - 2
            } else {
                n - 1
            };
            &&& n >= 1
            &&& plan[n - 1] == CommandModel::<C, K>::UpdateFrameNumber {
                frame_number: request.frame_number,
            }
            &&& request.attacker_id is Some ==> {
                &&& n >= 2
                &&& plan[n - 2] is PlaceAttacker
                &&& fresh_attacker(
                    plan[n - 2]->PlaceAttacker_attacker,
                    attacker_types[request.attacker_id.unwrap()],
                    start,
                )
            }
            &&& forall|k: int| 0 <= k < bombs_end ==> (#[trigger] plan[k]) is SetBombs
        },
    }
}

/// Every plan has the shape its kind of request calls for.
pub proof fn law_plan_shape<C, K>(
    request: GameRequest<C>,
    attacker_types: Map<i32, AttackerType>,
    bomb_type_ids: Seq<i32>,
    max_count: i32,
)
    requires
        plan_possible(request, attacker_types),
        bomb_type_ids.len() <= usize::MAX,
    ensures
        plan_shape(
            request,
            attacker_types,
            spec_plan::<C, K>(request, attacker_types, bomb_type_ids, max_count),
        ),
{
    let plan = spec_plan::<C, K>(request, attacker_types, bomb_type_ids, max_count);
    if request.action_type == ActionType::PlaceAttacker {
        let bombs = if request.frame_number == 1 {
            match request.bomb_id {
                Some(b) => bomb_commands::<C, K>(bomb_type_ids, b, max_count),
                None => Seq::empty(),
            }
        } else {
            Seq::empty()
        };
        if request.frame_number == 1 && request.bomb_id is Some {
            lemma_bomb_commands::<C, K>(bomb_type_ids, request.bomb_id.unwrap(), max_count);
        }
        assert forall|k: int| 0 <= k < bombs.len() implies (#[trigger] plan[k]) is SetBombs by {
            assert(plan[k] == bombs[k]);
        }
        let n = plan.len() as int;
        if request.attacker_id is Some {
            assert(n == bombs.len() + 2);
        } else {
            assert(n == bombs.len() + 1);
        }
    }
}

/// The configured bomb count is the setting's value wherever the setting
/// parses as an `i32`, whatever its length, and 0 otherwise.
pub proof fn law_bombs_max_count_reads_setting(setting: Option<Seq<char>>)
    ensures
        setting is Some && spec_parse_i32(setting.unwrap()) is Some ==> spec_bombs_max_count(
            setting,
        ) == spec_parse_i32(setting.unwrap()).unwrap(),
        !(setting is Some && spec_parse_i32(setting.unwrap()) is Some) ==> spec_bombs_max_count(
            setting,
        ) == 0,
{
}

/// Placing an attacker is never answered, whether or not an attacker is
/// named; moving is answered exactly when an attacker is named; every other
/// request is answered.
pub proof fn law_which_requests_are_answered<C>(request: GameRequest<C>)
    ensures
        request.action_type == ActionType::PlaceAttacker ==> !is_answered(request),
        request.action_type == ActionType::MoveAttacker ==> (is_answered(request)
            <==> request.attacker_id is Some),
        request.action_type != ActionType::PlaceAttacker && request.action_type
            != ActionType::MoveAttacker ==> is_answered(request),
{
}

/// Every answer echoes the request's frame and is never a sync; the game is
/// over exactly when the request terminates it, and then the answer is a
/// game-over without liveness saying "Game over"; any other answer is a live
/// "return test"; and a move's answer carries the defenders' report.
pub proof fn law_answer_facts<C, M, D, B>(
    request: GameRequest<C>,
    outcome: StateOutcome<M, D, B>,
    response: SocketResponse<M, D, B>,
)
    requires
        response_fits(request, outcome, response),
    ensures
        response.frame_number == request.frame_number,
        !response.is_sync,
        response.is_game_over <==> request.action_type == ActionType::Terminate,
        (response.result_type == ResultType::GameOver) <==> request.action_type
            == ActionType::Terminate,
        request.action_type == ActionType::Terminate ==> (response.is_alive is None
            && response.message is Some && response.message.unwrap()@ == "Game over"@),
        request.action_type != ActionType::Terminate ==> (response.is_alive == Some(true)
            && response.message is Some && response.message.unwrap()@ == "return test"@),
        outcome is DefendersTriggered ==> (response.attacker_health == Some(
            outcome->attacker_health,
        ) && response.triggered_defenders == Some(outcome->defenders)
            && response.artifacts_gained_total == Some(outcome->artifacts)),
{
}

} // verus!
