//! The mutation executor's data: the full body shape every ban/pick
//! mutation must carry, the rune-swap pair, and the order the guarded calls
//! are issued in. Calls are sequential, never concurrent: one poll produces
//! one ordered list of calls, and a cooldown follows every submission so
//! the next poll sees the propagated state.

use vstd::prelude::*;

use crate::actions::ActionKind;
use crate::plan::RunePage;

verus! {

/// Cooldown applied after a successful ban or pick submission, before the
/// planner runs again.
pub const SUBMIT_COOLDOWN_MS: u64 = 10000;

/// Pause between availability probes for different candidates, to avoid
/// hammering the local API.
pub const AVAILABILITY_PROBE_GAP_MS: u64 = 200;

/// The full body of a ban or pick mutation, exactly the fields the remote
/// action endpoint requires.
#[derive(Clone, Copy, Debug, PartialEq, Eq, Structural)]
pub struct PatchBody {
    pub actor_cell_id: i64,
    pub champion_id: u32,
    pub completed: bool,
    pub id: i64,
    pub is_ally_action: bool,
    pub kind: ActionKind,
}

/// One guarded mutation against an action slot: the path id and the body.
#[derive(Clone, Copy, Debug, PartialEq, Eq, Structural)]
pub struct ActionPatch {
    pub action_id: i64,
    pub body: PatchBody,
}

/// The patch submitted for an action: always completed, always an ally
/// action, body id equal to the path id.
pub open spec fn patch_spec(local_cell: i64, action_id: i64, champion_id: u32, kind: ActionKind) -> ActionPatch {
    ActionPatch {
        action_id,
        body: PatchBody {
            actor_cell_id: local_cell,
            champion_id,
            completed: true,
            id: action_id,
            is_ally_action: true,
            kind,
        },
    }
}

/// Builds the body a ban or pick mutation is submitted with.
pub fn build_patch(local_cell: i64, action_id: i64, champion_id: u32, kind: ActionKind) -> (r:
    ActionPatch)
    ensures
        r == patch_spec(local_cell, action_id, champion_id, kind),
{
    ActionPatch {
        action_id,
        body: PatchBody {
            actor_cell_id: local_cell,
            champion_id,
            completed: true,
            id: action_id,
            is_ally_action: true,
            kind,
        },
    }
}

/// A rune swap: delete the template page, then create a replacement
/// carrying the same data, strictly before the pick it accompanies.
#[derive(Debug)]
pub struct RuneSwap {
    pub delete_page_id: i64,
    pub create_page: RunePage,
}

/// What one reconciliation cycle decided to submit. The planner never
/// fills both `ban_patch` and `pick_patch` in the same cycle, and a rune
/// swap only ever accompanies a pick patch.
#[derive(Debug)]
pub struct PlanOutcome {
    pub ban_patch: Option<ActionPatch>,
    pub pick_patch: Option<ActionPatch>,
    pub rune_swap: Option<RuneSwap>,
    pub cooldown_ms: u64,
}

impl PlanOutcome {
    /// The outcome of a cycle that submits nothing.
    pub fn idle() -> (r: PlanOutcome)
        ensures
            r.ban_patch is None,
            r.pick_patch is None,
            r.rune_swap is None,
            r.cooldown_ms == 0,
    {
        PlanOutcome { ban_patch: None, pick_patch: None, rune_swap: None, cooldown_ms: 0 }
    }
}

/// One state-changing call against the remote session.
#[derive(Debug)]
pub enum MutationCall {
    BanPatch(ActionPatch),
    DeleteRunePage(i64),
    CreateRunePage(RunePage),
    PickPatch(ActionPatch),
}

/// The order an outcome's calls are issued in: the ban patch first, then
/// the rune-page delete, then its replacing create, then the pick patch.
pub open spec fn ordered_calls_spec(o: PlanOutcome) -> Seq<MutationCall> {
    (match o.ban_patch {
        Some(p) => seq![MutationCall::BanPatch(p)],
        None => Seq::empty(),
    }) + (match o.rune_swap {
        Some(rs) => seq![
            MutationCall::DeleteRunePage(rs.delete_page_id),
            MutationCall::CreateRunePage(rs.create_page),
        ],
        None => Seq::empty(),
    }) + (match o.pick_patch {
        Some(p) => seq![MutationCall::PickPatch(p)],
        None => Seq::empty(),
    })
}

/// Lays out an outcome's calls in submission order; the caller performs
/// them one after the other and then sleeps for the outcome's cooldown.
pub fn ordered_calls(o: PlanOutcome) -> (calls: Vec<MutationCall>)
    ensures
        calls@ == ordered_calls_spec(o),
{
    let ghost orig = o;
    let mut calls: Vec<MutationCall> = Vec::new();
    match o.ban_patch {
        Some(p) => calls.push(MutationCall::BanPatch(p)),
        None => (),
    }
    match o.rune_swap {
        Some(rs) => {
            calls.push(MutationCall::DeleteRunePage(rs.delete_page_id));
            calls.push(MutationCall::CreateRunePage(rs.create_page));
        },
        None => (),
    }
    match o.pick_patch {
        Some(p) => calls.push(MutationCall::PickPatch(p)),
        None => (),
    }
    proof {
        assert(calls@ =~= ordered_calls_spec(orig));
    }
    calls
}

} // verus!
