//! The reconciliation planner: once per poll while the phase is champion
//! select, decide from the resolved action slots, the timer, and the
//! availability reports whether to submit the ban, advance the fallback
//! cursor, swap a rune page, or submit a pick. Every decision is made
//! against the snapshot fetched at the start of that cycle, so duplicate
//! reads of the same remote state decide the same way.

use vstd::prelude::*;

use crate::actions::{ActionKind, ChampSelectSnapshot, ResolvedAction, resolve_actions, resolved_pair, timer_is_planning};
use crate::executor::{ActionPatch, PlanOutcome, RuneSwap, SUBMIT_COOLDOWN_MS, build_patch, patch_spec};
use crate::plan::{EpisodeState, RunePage, SelectionPlan, same_page};

verus! {

/// Everything one planner cycle reads: the local seat, the two resolved
/// action slots, whether the timer still reports the planning window, and
/// the availability reports for the ban candidate and for the pick
/// candidate the cursor currently indexes. An availability report is
/// present exactly when the corresponding candidate exists; `Some(true)`
/// means the candidate is already picked or banned by someone else.
#[derive(Clone, Copy, Debug)]
pub struct StepInput {
    pub local_cell: i64,
    pub ban_act: ResolvedAction,
    pub pick_act: ResolvedAction,
    pub timer_planning: bool,
    pub ban_unavailable: Option<bool>,
    pub pick_unavailable: Option<bool>,
}

/// The availability reports cover exactly the candidates this cycle looks
/// at: the ban candidate, and the pick fallback the cursor indexes.
pub open spec fn input_coherent(plan: SelectionPlan, ep: EpisodeState, input: StepInput) -> bool {
    &&& (input.ban_unavailable is Some <==> plan.ban is Some)
    &&& (input.pick_unavailable is Some <==> ep.fallback_cursor < plan.picks@.len())
}

/// The action window is closed this cycle: either the timer still reports
/// the pre-pick planning phase, or both slots are already finalized.
pub open spec fn gate_closed(input: StepInput) -> bool {
    ||| input.timer_planning
    ||| (!input.pick_act.in_progress && input.pick_act.completed && !input.ban_act.in_progress
        && input.ban_act.completed)
}

/// The ban is submitted this cycle: the window is open, a ban candidate
/// exists and is still available, and the ban slot is actionable.
pub open spec fn ban_submits(plan: SelectionPlan, input: StepInput) -> bool {
    &&& !gate_closed(input)
    &&& plan.ban is Some
    &&& input.ban_unavailable == Some(false)
    &&& input.ban_act.in_progress
    &&& !input.ban_act.completed
}

/// The cursor-indexed pick candidate is reported taken this cycle; the
/// cursor advances past it and nothing is submitted for it.
pub open spec fn pick_detects_unavailable(plan: SelectionPlan, ep: EpisodeState, input: StepInput) -> bool {
    &&& !gate_closed(input)
    &&& ep.fallback_cursor < plan.picks@.len()
    &&& input.pick_unavailable == Some(true)
}

/// The pick is submitted this cycle: the window is open, the cursor indexes
/// an available candidate, the pick slot is actionable, the ban slot is
/// finished, and no pick was submitted earlier this episode.
pub open spec fn pick_submits(plan: SelectionPlan, ep: EpisodeState, input: StepInput) -> bool {
    &&& !gate_closed(input)
    &&& ep.fallback_cursor < plan.picks@.len()
    &&& input.pick_unavailable == Some(false)
    &&& input.pick_act.in_progress
    &&& !input.pick_act.completed
    &&& !input.ban_act.in_progress
    &&& input.ban_act.completed
    &&& !ep.locked
}

/// The episode state after one planner cycle: the cursor advances by one
/// exactly on an unavailability detection, and `locked` is set exactly on a
/// pick submission. Nothing else changes.
pub open spec fn ep_after_spec(plan: SelectionPlan, ep: EpisodeState, input: StepInput) -> EpisodeState {
    EpisodeState {
        fallback_cursor: if pick_detects_unavailable(plan, ep, input) {
            (ep.fallback_cursor + 1) as usize
        } else {
            ep.fallback_cursor
        },
        locked: ep.locked || pick_submits(plan, ep, input),
        ..ep
    }
}

/// The ban patch this cycle issues, if any.
pub open spec fn ban_patch_spec(plan: SelectionPlan, input: StepInput) -> Option<ActionPatch> {
    if ban_submits(plan, input) {
        Some(
            patch_spec(
                input.local_cell,
                input.ban_act.action_id,
                (plan.ban->0).0,
                ActionKind::Ban,
            ),
        )
    } else {
        None
    }
}

/// The pick patch this cycle issues, if any: always for the candidate the
/// cursor indexes at the start of the cycle.
pub open spec fn pick_patch_spec(plan: SelectionPlan, ep: EpisodeState, input: StepInput) -> Option<ActionPatch> {
    if pick_submits(plan, ep, input) {
        Some(
            patch_spec(
                input.local_cell,
                input.pick_act.action_id,
                plan.picks@[ep.fallback_cursor as int].0,
                ActionKind::Pick,
            ),
        )
    } else {
        None
    }
}

/// A rune swap accompanies the pick exactly when swapping is enabled and
/// templates were fetched.
pub open spec fn rune_swap_expected(plan: SelectionPlan, ep: EpisodeState, input: StepInput) -> bool {
    &&& pick_submits(plan, ep, input)
    &&& plan.rune_swap_enabled
    &&& plan.rune_pages is Some
}

/// The template page a swap deletes and recreates: the first template for
/// cursor position zero, the second for any later position.
pub open spec fn rune_template_spec(plan: SelectionPlan, ep: EpisodeState) -> RunePage {
    if ep.fallback_cursor == 0 {
        (plan.rune_pages->0).0
    } else {
        (plan.rune_pages->0).1
    }
}

/// The cooldown the cycle ends with: the submission cooldown after any
/// patch, none otherwise.
pub open spec fn cooldown_spec(plan: SelectionPlan, ep: EpisodeState, input: StepInput) -> u64 {
    if ban_submits(plan, input) || pick_submits(plan, ep, input) {
        SUBMIT_COOLDOWN_MS
    } else {
        0
    }
}

/// The champion ids whose grid availability this cycle needs: the ban
/// candidate's, and the cursor-indexed pick candidate's. The caller fetches
/// these (pausing between probes) and hands the reports to the planner.
pub fn availability_queries(plan: &SelectionPlan, ep: &EpisodeState) -> (r: (Option<u32>, Option<
    u32,
>))
    ensures
        r.0 is Some <==> plan.ban is Some,
        plan.ban matches Some(c) ==> r.0 == Some(c.0),
        r.1 is Some <==> ep.fallback_cursor < plan.picks@.len(),
        ep.fallback_cursor < plan.picks@.len() ==> r.1 == Some(
            plan.picks@[ep.fallback_cursor as int].0,
        ),
{
    let ban_query = match &plan.ban {
        Some(c) => Some(c.0),
        None => None,
    };
    let pick_query = if ep.fallback_cursor < plan.picks.len() {
        Some(plan.picks[ep.fallback_cursor].0)
    } else {
        None
    };
    (ban_query, pick_query)
}

/// One planner cycle over already-resolved inputs. The returned outcome and
/// the new episode state are exactly what the cycle's specification
/// functions say; in particular no patch of any kind is issued while the
/// planning gate is closed, no pick is issued while `locked` holds, a ban
/// and a pick are never issued in the same cycle, and the cursor only ever
/// advances, by one, on an unavailability detection.
pub fn plan_step(plan: &SelectionPlan, ep: &mut EpisodeState, input: &StepInput) -> (r: PlanOutcome)
    requires
        input_coherent(*plan, *old(ep), *input),
    ensures
        *final(ep) == ep_after_spec(*plan, *old(ep), *input),
        r.ban_patch == ban_patch_spec(*plan, *input),
        r.pick_patch == pick_patch_spec(*plan, *old(ep), *input),
        r.rune_swap is Some <==> rune_swap_expected(*plan, *old(ep), *input),
        r.rune_swap matches Some(rs) ==> rs.delete_page_id == rune_template_spec(
            *plan,
            *old(ep),
        ).id && same_page(rune_template_spec(*plan, *old(ep)), rs.create_page),
        r.cooldown_ms == cooldown_spec(*plan, *old(ep), *input),
        input.timer_planning ==> r.ban_patch is None && r.pick_patch is None && r.rune_swap is None
            && *final(ep) == *old(ep),
        old(ep).locked ==> r.pick_patch is None,
        !(r.ban_patch is Some && r.pick_patch is Some),
        old(ep).locked ==> final(ep).locked,
        final(ep).fallback_cursor >= old(ep).fallback_cursor,
        pick_detects_unavailable(*plan, *old(ep), *input) ==> final(ep).fallback_cursor == old(
            ep,
        ).fallback_cursor + 1 && r.pick_patch is None,
        !pick_detects_unavailable(*plan, *old(ep), *input) ==> final(ep).fallback_cursor == old(
            ep,
        ).fallback_cursor,
{
    let timer_planning = input.timer_planning;
    let slots_finalized = !input.pick_act.in_progress && input.pick_act.completed
        && !input.ban_act.in_progress && input.ban_act.completed;
    if timer_planning || slots_finalized {
        return PlanOutcome::idle();
    }
    let mut ban_patch: Option<ActionPatch> = None;
    let mut pick_patch: Option<ActionPatch> = None;
    let mut rune_swap: Option<RuneSwap> = None;
    let mut cooldown_ms: u64 = 0;
    match &plan.ban {
        Some(ban_candidate) => {
            let ban_unavail = match input.ban_unavailable {
                Some(u) => u,
                None => false,
            };
            if !ban_unavail && input.ban_act.in_progress && !input.ban_act.completed {
                ban_patch = Some(
                    build_patch(
                        input.local_cell,
                        input.ban_act.action_id,
                        ban_candidate.0,
                        ActionKind::Ban,
                    ),
                );
                cooldown_ms = SUBMIT_COOLDOWN_MS;
            }
        },
        None => (),
    }
    if ep.fallback_cursor < plan.picks.len() {
        let pick_unavail = match input.pick_unavailable {
            Some(u) => u,
            None => false,
        };
        if pick_unavail {
            ep.fallback_cursor = ep.fallback_cursor + 1;
        } else if input.pick_act.in_progress && !input.pick_act.completed
            && !input.ban_act.in_progress && input.ban_act.completed && !ep.locked {
            let candidate_id = plan.picks[ep.fallback_cursor].0;
            if plan.rune_swap_enabled {
                match &plan.rune_pages {
                    Some(pages) => {
                        let template = if ep.fallback_cursor == 0 {
                            &pages.0
                        } else {
                            &pages.1
                        };
                        rune_swap = Some(
                            RuneSwap {
                                delete_page_id: template.id,
                                create_page: template.duplicate(),
                            },
                        );
                    },
                    None => (),
                }
            }
            pick_patch = Some(
                build_patch(
                    input.local_cell,
                    input.pick_act.action_id,
                    candidate_id,
                    ActionKind::Pick,
                ),
            );
            ep.locked = true;
            cooldown_ms = SUBMIT_COOLDOWN_MS;
        }
    }
    PlanOutcome { ban_patch, pick_patch, rune_swap, cooldown_ms }
}

/// The planner input a snapshot resolves to, given the availability
/// reports fetched for this cycle.
pub open spec fn snapshot_input(snapshot: ChampSelectSnapshot, ban_unavailable: Option<bool>, pick_unavailable: Option<bool>) -> StepInput {
    StepInput {
        local_cell: snapshot.local_player_cell_id,
        ban_act: resolved_pair(snapshot.actions@, snapshot.local_player_cell_id).0,
        pick_act: resolved_pair(snapshot.actions@, snapshot.local_player_cell_id).1,
        timer_planning: snapshot.timer_phase@ == "PLANNING"@,
        ban_unavailable,
        pick_unavailable,
    }
}

/// One full champion-select cycle over a raw snapshot: resolves the local
/// participant's two action slots, reads the timer, and runs the planner.
pub fn champ_select_step(
    plan: &SelectionPlan,
    ep: &mut EpisodeState,
    snapshot: &ChampSelectSnapshot,
    ban_unavailable: Option<bool>,
    pick_unavailable: Option<bool>,
) -> (r: PlanOutcome)
    requires
        input_coherent(
            *plan,
            *old(ep),
            snapshot_input(*snapshot, ban_unavailable, pick_unavailable),
        ),
    ensures
        ({
            let input = snapshot_input(*snapshot, ban_unavailable, pick_unavailable);
            &&& *final(ep) == ep_after_spec(*plan, *old(ep), input)
            &&& r.ban_patch == ban_patch_spec(*plan, input)
            &&& r.pick_patch == pick_patch_spec(*plan, *old(ep), input)
            &&& (r.rune_swap is Some <==> rune_swap_expected(*plan, *old(ep), input))
            &&& (r.rune_swap matches Some(rs) ==> rs.delete_page_id == rune_template_spec(
                *plan,
                *old(ep),
            ).id && same_page(rune_template_spec(*plan, *old(ep)), rs.create_page))
            &&& r.cooldown_ms == cooldown_spec(*plan, *old(ep), input)
        }),
{
    let (ban_act, pick_act) = resolve_actions(&snapshot.actions, snapshot.local_player_cell_id);
    let input = StepInput {
        local_cell: snapshot.local_player_cell_id,
        ban_act,
        pick_act,
        timer_planning: timer_is_planning(snapshot.timer_phase.as_str()),
        ban_unavailable,
        pick_unavailable,
    };
    plan_step(plan, ep, &input)
}

/// The episode state after the first `n` planner cycles, all run against
/// the same plan from the same reset state.
pub open spec fn ep_after_steps(
    plan: SelectionPlan,
    ep0: EpisodeState,
    inputs: Seq<StepInput>,
    n: int,
) -> EpisodeState
    decreases n,
{
    if n <= 0 {
        ep0
    } else {
        ep_after_spec(plan, ep_after_steps(plan, ep0, inputs, n - 1), inputs[n - 1])
    }
}

/// The pick patch the episode's cycle `i` issues, if any.
pub open spec fn pick_patch_at(
    plan: SelectionPlan,
    ep0: EpisodeState,
    inputs: Seq<StepInput>,
    i: int,
) -> Option<ActionPatch> {
    pick_patch_spec(plan, ep_after_steps(plan, ep0, inputs, i), inputs[i])
}

/// The ban patch the episode's cycle `i` issues, if any.
pub open spec fn ban_patch_at(
    plan: SelectionPlan,
    ep0: EpisodeState,
    inputs: Seq<StepInput>,
    i: int,
) -> Option<ActionPatch> {
    ban_patch_spec(plan, inputs[i])
}

/// Within one episode the fallback cursor never moves backwards.
pub proof fn lemma_cursor_monotone(
    plan: SelectionPlan,
    ep0: EpisodeState,
    inputs: Seq<StepInput>,
    i: int,
    j: int,
)
    requires
        0 <= i <= j,
    ensures
        ep_after_steps(plan, ep0, inputs, j).fallback_cursor >= ep_after_steps(
            plan,
            ep0,
            inputs,
            i,
        ).fallback_cursor,
    decreases j - i,
{
    if j > i {
        lemma_cursor_monotone(plan, ep0, inputs, i, j - 1);
        // The cursor only ever advances below the pick list's length, which
        // fits in usize, so the advance cannot wrap.
        vstd::std_specs::vec::axiom_spec_len(&plan.picks);
    }
}

/// `locked` is monotone within an episode: once set, every later cycle of
/// the episode still sees it set. Since it starts false and only ever moves
/// to true, it transitions false to true at most once per episode.
pub proof fn lemma_locked_monotone(
    plan: SelectionPlan,
    ep0: EpisodeState,
    inputs: Seq<StepInput>,
    i: int,
    j: int,
)
    requires
        0 <= i <= j,
        ep_after_steps(plan, ep0, inputs, i).locked,
    ensures
        ep_after_steps(plan, ep0, inputs, j).locked,
    decreases j - i,
{
    if j > i {
        lemma_locked_monotone(plan, ep0, inputs, i, j - 1);
    }
}

/// While `locked` holds, a cycle issues no pick mutation.
pub proof fn lemma_no_pick_while_locked(
    plan: SelectionPlan,
    ep0: EpisodeState,
    inputs: Seq<StepInput>,
    i: int,
)
    requires
        ep_after_steps(plan, ep0, inputs, i).locked,
    ensures
        pick_patch_at(plan, ep0, inputs, i) is None,
{
}

/// Once the cursor-indexed fallback entry is reported picked or banned by
/// someone else, that cycle submits nothing for it and moves the cursor
/// past it by exactly one; every later cycle of the episode works at a
/// strictly larger cursor position, so no pick is ever submitted for that
/// entry again within the episode.
pub proof fn lemma_unavailable_entry_not_picked_again(
    plan: SelectionPlan,
    ep0: EpisodeState,
    inputs: Seq<StepInput>,
    i: int,
)
    requires
        0 <= i < inputs.len(),
        pick_detects_unavailable(plan, ep_after_steps(plan, ep0, inputs, i), inputs[i]),
    ensures
        pick_patch_at(plan, ep0, inputs, i) is None,
        ep_after_steps(plan, ep0, inputs, i + 1).fallback_cursor == ep_after_steps(
            plan,
            ep0,
            inputs,
            i,
        ).fallback_cursor + 1,
        forall|j: int|
            i < j <= inputs.len() ==> ep_after_steps(plan, ep0, inputs, j).fallback_cursor
                > ep_after_steps(plan, ep0, inputs, i).fallback_cursor,
        forall|j: int|
            i < j < inputs.len() && pick_patch_at(plan, ep0, inputs, j) is Some
                ==> (pick_patch_at(plan, ep0, inputs, j)->0).body.champion_id == plan.picks@[
                ep_after_steps(plan, ep0, inputs, j).fallback_cursor as int].0 && ep_after_steps(
                plan,
                ep0,
                inputs,
                j,
            ).fallback_cursor > ep_after_steps(plan, ep0, inputs, i).fallback_cursor,
{
    vstd::std_specs::vec::axiom_spec_len(&plan.picks);
    assert forall|j: int|
        i < j <= inputs.len() implies ep_after_steps(plan, ep0, inputs, j).fallback_cursor
        > ep_after_steps(plan, ep0, inputs, i).fallback_cursor by {
        assert(ep_after_steps(plan, ep0, inputs, i + 1) == ep_after_spec(
            plan,
            ep_after_steps(plan, ep0, inputs, i),
            inputs[i],
        ));
        lemma_cursor_monotone(plan, ep0, inputs, i + 1, j);
    }
}

/// While every cycle of the episode reports the ban candidate as already
/// picked or banned, no ban mutation is issued at any cycle: there is no
/// automatic ban fallback.
pub proof fn lemma_ban_unavailable_never_banned(
    plan: SelectionPlan,
    ep0: EpisodeState,
    inputs: Seq<StepInput>,
)
    requires
        forall|i: int| 0 <= i < inputs.len() ==> inputs[i].ban_unavailable == Some(true),
    ensures
        forall|i: int| 0 <= i < inputs.len() ==> ban_patch_at(plan, ep0, inputs, i) is None,
{
}

} // verus!
