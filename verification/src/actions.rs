//! The action resolver: projects the champion-select snapshot onto the two
//! action slots that belong to the local participant. The snapshot groups
//! actions by turn; flattening the turns in order, keeping only the local
//! cell's actions, the first match is the ban slot and the second the pick
//! slot. A missing slot is the zero-valued absent action.

use vstd::prelude::*;

use crate::text::str_eq;

verus! {

/// Whether an action slot is a ban or a pick.
#[derive(Clone, Copy, Debug, PartialEq, Eq, Structural)]
pub enum ActionKind {
    Ban,
    Pick,
}

/// One action of the champion-select snapshot, as the remote session
/// reports it.
#[derive(Clone, Copy, Debug, PartialEq, Eq, Structural)]
pub struct ChampSelectAction {
    pub action_id: i64,
    pub actor_cell_id: i64,
    pub kind: ActionKind,
    pub in_progress: bool,
    pub completed: bool,
}

/// A resolved action slot: what the planner reads of an action. An absent
/// slot carries the zero id and both flags false.
#[derive(Clone, Copy, Debug, PartialEq, Eq, Structural)]
pub struct ResolvedAction {
    pub action_id: i64,
    pub in_progress: bool,
    pub completed: bool,
}

impl ResolvedAction {
    /// The value a missing slot defaults to.
    pub open spec fn absent_spec() -> ResolvedAction {
        ResolvedAction { action_id: 0, in_progress: false, completed: false }
    }

    pub fn absent() -> (r: ResolvedAction)
        ensures
            r == ResolvedAction::absent_spec(),
    {
        ResolvedAction { action_id: 0, in_progress: false, completed: false }
    }
}

/// The per-poll champion-select snapshot the engine reads: the local seat,
/// the actions grouped by turn, and the timer phase string.
#[derive(Debug)]
pub struct ChampSelectSnapshot {
    pub local_player_cell_id: i64,
    pub actions: Vec<Vec<ChampSelectAction>>,
    pub timer_phase: String,
}

/// The turns, flattened into one sequence in order.
pub open spec fn flatten_turns(turns: Seq<Vec<ChampSelectAction>>) -> Seq<ChampSelectAction>
    decreases turns.len(),
{
    if turns.len() == 0 {
        Seq::empty()
    } else {
        turns[0]@ + flatten_turns(turns.drop_first())
    }
}

/// The actions of the given cell, in encounter order.
pub open spec fn relevant_actions(s: Seq<ChampSelectAction>, cell: i64) -> Seq<ChampSelectAction>
    decreases s.len(),
{
    if s.len() == 0 {
        Seq::empty()
    } else if s[0].actor_cell_id == cell {
        seq![s[0]] + relevant_actions(s.drop_first(), cell)
    } else {
        relevant_actions(s.drop_first(), cell)
    }
}

/// What the planner reads of one action.
pub open spec fn to_resolved_spec(a: ChampSelectAction) -> ResolvedAction {
    ResolvedAction { action_id: a.action_id, in_progress: a.in_progress, completed: a.completed }
}

/// The slot at the given position of the filtered sequence, absent when the
/// sequence is too short.
pub open spec fn slot_spec(f: Seq<ChampSelectAction>, i: int) -> ResolvedAction {
    if i < f.len() {
        to_resolved_spec(f[i])
    } else {
        ResolvedAction::absent_spec()
    }
}

/// The `(ban slot, pick slot)` pair the snapshot resolves to for the given
/// cell: the first two relevant actions in encounter order.
pub open spec fn resolved_pair(turns: Seq<Vec<ChampSelectAction>>, cell: i64) -> (ResolvedAction,
    ResolvedAction) {
    let f = relevant_actions(flatten_turns(turns), cell);
    (slot_spec(f, 0), slot_spec(f, 1))
}

proof fn lemma_flatten_turns_concat(a: Seq<Vec<ChampSelectAction>>, b: Seq<
    Vec<ChampSelectAction>,
>)
    ensures
        flatten_turns(a + b) == flatten_turns(a) + flatten_turns(b),
    decreases a.len(),
{
    if a.len() == 0 {
        assert(a + b =~= b);
        assert(flatten_turns(a) + flatten_turns(b) =~= flatten_turns(b));
    } else {
        assert((a + b).drop_first() =~= a.drop_first() + b);
        lemma_flatten_turns_concat(a.drop_first(), b);
        assert(a[0]@ + (flatten_turns(a.drop_first()) + flatten_turns(b)) =~= (a[0]@
            + flatten_turns(a.drop_first())) + flatten_turns(b));
    }
}

proof fn lemma_relevant_actions_concat(a: Seq<ChampSelectAction>, b: Seq<ChampSelectAction>, cell: i64)
    ensures
        relevant_actions(a + b, cell) == relevant_actions(a, cell) + relevant_actions(b, cell),
    decreases a.len(),
{
    if a.len() == 0 {
        assert(a + b =~= b);
        assert(relevant_actions(a, cell) + relevant_actions(b, cell) =~= relevant_actions(b, cell));
    } else {
        assert((a + b).drop_first() =~= a.drop_first() + b);
        lemma_relevant_actions_concat(a.drop_first(), b, cell);
        if a[0].actor_cell_id == cell {
            assert(seq![a[0]] + (relevant_actions(a.drop_first(), cell) + relevant_actions(b, cell))
                =~= (seq![a[0]] + relevant_actions(a.drop_first(), cell)) + relevant_actions(
                b,
                cell,
            ));
        }
    }
}

/// Flattens the turns, keeps the local cell's actions in order, and returns
/// the first two as the `(ban, pick)` slots; missing slots are absent.
pub fn resolve_actions(actions: &Vec<Vec<ChampSelectAction>>, local_cell: i64) -> (r: (
    ResolvedAction,
    ResolvedAction,
))
    ensures
        r == resolved_pair(actions@, local_cell),
{
    let mut relevant: Vec<ChampSelectAction> = Vec::new();
    let mut i: usize = 0;
    while i < actions.len()
        invariant
            i <= actions@.len(),
            relevant@ == relevant_actions(flatten_turns(actions@.subrange(0, i as int)), local_cell),
        decreases actions@.len() - i,
    {
        let turn = &actions[i];
        let mut j: usize = 0;
        while j < turn.len()
            invariant
                i < actions@.len(),
                j <= turn@.len(),
                turn == &actions@[i as int],
                relevant@ == relevant_actions(
                    flatten_turns(actions@.subrange(0, i as int)) + turn@.subrange(0, j as int),
                    local_cell,
                ),
            decreases turn@.len() - j,
        {
            let a = turn[j];
            let ghost before = flatten_turns(actions@.subrange(0, i as int)) + turn@.subrange(
                0,
                j as int,
            );
            let ghost one = seq![turn@[j as int]];
            if a.actor_cell_id == local_cell {
                relevant.push(a);
            }
            proof {
                assert(flatten_turns(actions@.subrange(0, i as int)) + turn@.subrange(0, j + 1) =~= before
                    + one);
                lemma_relevant_actions_concat(before, one, local_cell);
                assert(one.drop_first() =~= Seq::<ChampSelectAction>::empty());
                assert(relevant_actions(Seq::<ChampSelectAction>::empty(), local_cell) =~= Seq::<
                    ChampSelectAction,
                >::empty());
                if a.actor_cell_id == local_cell {
                    assert(relevant_actions(one, local_cell) =~= one);
                } else {
                    assert(relevant_actions(one, local_cell) =~= Seq::<
                        ChampSelectAction,
                    >::empty());
                }
                assert(relevant@ =~= relevant_actions(before, local_cell) + relevant_actions(
                    one,
                    local_cell,
                ));
            }
            j += 1;
        }
        proof {
            let ghost prefix = actions@.subrange(0, i as int);
            let ghost next = seq![actions@[i as int]];
            assert(actions@.subrange(0, i + 1) =~= prefix + next);
            lemma_flatten_turns_concat(prefix, next);
            assert(next.drop_first() =~= Seq::<Vec<ChampSelectAction>>::empty());
            assert(flatten_turns(Seq::<Vec<ChampSelectAction>>::empty()) =~= Seq::<
                ChampSelectAction,
            >::empty());
            assert(flatten_turns(next) =~= actions@[i as int]@);
            assert(turn@.subrange(0, turn@.len() as int) =~= turn@);
            assert(flatten_turns(prefix) + turn@ =~= flatten_turns(actions@.subrange(0, i + 1)));
        }
        i += 1;
    }
    proof {
        assert(actions@.subrange(0, actions@.len() as int) =~= actions@);
    }
    let ban_slot = if relevant.len() > 0 {
        let a = relevant[0];
        ResolvedAction { action_id: a.action_id, in_progress: a.in_progress, completed: a.completed }
    } else {
        ResolvedAction::absent()
    };
    let pick_slot = if relevant.len() > 1 {
        let a = relevant[1];
        ResolvedAction { action_id: a.action_id, in_progress: a.in_progress, completed: a.completed }
    } else {
        ResolvedAction::absent()
    };
    (ban_slot, pick_slot)
}

/// The pre-pick planning window is open while the timer phase string equals
/// this value; no mutation is issued then.
pub fn timer_is_planning(timer_phase: &str) -> (r: bool)
    ensures
        r == (timer_phase@ == "PLANNING"@),
{
    str_eq(timer_phase, "PLANNING")
}

} // verus!
