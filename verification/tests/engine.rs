use circuit_watcher::actions::{
    ActionKind, ChampSelectAction, ChampSelectSnapshot, ResolvedAction, resolve_actions,
    timer_is_planning,
};
use circuit_watcher::dispatcher::{DispatchAction, StatusMessage, dispatch};
use circuit_watcher::executor::{
    ActionPatch, MutationCall, PatchBody, PlanOutcome, SUBMIT_COOLDOWN_MS, build_patch,
    ordered_calls,
};
use circuit_watcher::phase::{GameflowPhase, parse_phase};
use circuit_watcher::plan::{EpisodeState, RunePage, SelectionPlan};
use circuit_watcher::planner::{StepInput, availability_queries, champ_select_step, plan_step};

fn action(
    action_id: i64,
    actor_cell_id: i64,
    kind: ActionKind,
    in_progress: bool,
    completed: bool,
) -> ChampSelectAction {
    ChampSelectAction { action_id, actor_cell_id, kind, in_progress, completed }
}

fn plain_plan(ban: Option<(u32, &str)>, picks: &[(u32, &str)]) -> SelectionPlan {
    SelectionPlan {
        ban: ban.map(|(id, name)| (id, name.to_string())),
        picks: picks.iter().map(|(id, name)| (*id, name.to_string())).collect(),
        rune_swap_enabled: false,
        rune_pages: None,
    }
}

fn open_window_input(
    ban_unavailable: Option<bool>,
    pick_unavailable: Option<bool>,
) -> StepInput {
    StepInput {
        local_cell: 3,
        ban_act: ResolvedAction { action_id: 10, in_progress: false, completed: true },
        pick_act: ResolvedAction { action_id: 11, in_progress: true, completed: false },
        timer_planning: false,
        ban_unavailable,
        pick_unavailable,
    }
}

#[test]
fn parse_phase_recognizes_every_known_string() {
    assert!(matches!(parse_phase(Some("Matchmaking")), GameflowPhase::Matchmaking));
    assert!(matches!(parse_phase(Some("Lobby")), GameflowPhase::Lobby));
    assert!(matches!(parse_phase(Some("ReadyCheck")), GameflowPhase::ReadyCheck));
    assert!(matches!(parse_phase(Some("ChampSelect")), GameflowPhase::ChampSelect));
    assert!(matches!(parse_phase(Some("InProgress")), GameflowPhase::InProgress));
    assert!(matches!(parse_phase(Some("WaitingForStats")), GameflowPhase::WaitingForStats));
    assert!(matches!(parse_phase(Some("PreEndOfGame")), GameflowPhase::PreEndOfGame));
    assert!(matches!(parse_phase(Some("EndOfGame")), GameflowPhase::EndOfGame));
    assert!(matches!(parse_phase(None), GameflowPhase::Idle));
}

#[test]
fn parse_phase_preserves_unknown_strings() {
    match parse_phase(Some("Reconnect")) {
        GameflowPhase::Unknown(s) => assert_eq!(s, "Reconnect"),
        other => panic!("expected Unknown, got {:?}", other),
    }
}

#[test]
fn unknown_phase_issues_no_mutation_and_keeps_the_string() {
    let mut ep = EpisodeState { found_match: true, accepted_this_episode: true, locked: true, fallback_cursor: 1 };
    let before = ep;
    let step = dispatch(&GameflowPhase::Unknown("TerminatedInError".to_string()), &mut ep, true, true, true);
    assert_eq!(step.action, DispatchAction::Wait);
    assert_eq!(step.sleep_ms, 10000);
    assert_eq!(ep, before);
    match &step.status {
        StatusMessage::Unimplemented(s) => assert_eq!(s, "TerminatedInError"),
        other => panic!("expected Unimplemented, got {:?}", other),
    }
    assert_eq!(step.status.text(), "Unimplemented Phase: TerminatedInError");
}

#[test]
fn matchmaking_resets_episode_state() {
    let mut ep = EpisodeState { found_match: true, accepted_this_episode: true, locked: true, fallback_cursor: 2 };
    let step = dispatch(&GameflowPhase::Matchmaking, &mut ep, false, false, false);
    assert_eq!(ep, EpisodeState::initial());
    assert_eq!(step.action, DispatchAction::Wait);
    assert_eq!(step.sleep_ms, 1500);
    assert!(matches!(step.status, StatusMessage::LookingForMatch));
}

#[test]
fn ready_check_sequence_accepts_exactly_once() {
    // Phase sequence Matchmaking, Matchmaking, ReadyCheck with auto-accept
    // enabled and found_match initially false.
    let mut ep = EpisodeState::initial();
    let phases = [
        GameflowPhase::Matchmaking,
        GameflowPhase::Matchmaking,
        GameflowPhase::ReadyCheck,
    ];
    let mut accepts = 0;
    for phase in phases.iter() {
        let step = dispatch(phase, &mut ep, true, false, false);
        if step.action == DispatchAction::Accept {
            accepts += 1;
        }
    }
    assert_eq!(accepts, 1);
    assert!(ep.found_match);
}

#[test]
fn repeated_ready_checks_accept_only_once_per_episode() {
    let mut ep = EpisodeState::initial();
    let phases = [
        GameflowPhase::Matchmaking,
        GameflowPhase::ReadyCheck,
        GameflowPhase::ReadyCheck,
        GameflowPhase::ReadyCheck,
    ];
    let mut accepts = 0;
    for phase in phases.iter() {
        let step = dispatch(phase, &mut ep, true, false, false);
        if step.action == DispatchAction::Accept {
            accepts += 1;
        }
    }
    assert_eq!(accepts, 1);
}

#[test]
fn ready_check_without_auto_accept_waits() {
    let mut ep = EpisodeState::initial();
    let step = dispatch(&GameflowPhase::ReadyCheck, &mut ep, false, false, false);
    assert_eq!(step.action, DispatchAction::Wait);
    assert!(!ep.found_match);
}

#[test]
fn an_empty_plan_offers_no_candidates_or_queries() {
    let plan = SelectionPlan::empty();
    assert!(!plan.has_candidates());
    let ep = EpisodeState::initial();
    assert_eq!(availability_queries(&plan, &ep), (None, None));
}

#[test]
fn champ_select_runs_only_with_toggle_and_candidates() {
    let mut ep = EpisodeState::initial();
    let run = dispatch(&GameflowPhase::ChampSelect, &mut ep, false, true, true);
    assert_eq!(run.action, DispatchAction::RunChampSelect);
    let empty = dispatch(&GameflowPhase::ChampSelect, &mut ep, false, true, false);
    assert_eq!(empty.action, DispatchAction::Wait);
    assert_eq!(empty.sleep_ms, 0);
    let off = dispatch(&GameflowPhase::ChampSelect, &mut ep, false, false, true);
    assert_eq!(off.action, DispatchAction::Wait);
    assert_eq!(off.sleep_ms, 1500);
}

#[test]
fn status_texts_match_the_display_strings() {
    assert_eq!(StatusMessage::Idling.text(), "Idling...");
    assert_eq!(StatusMessage::LookingForMatch.text(), "Looking for a match");
    assert_eq!(StatusMessage::InLobby.text(), "In Lobby");
    assert_eq!(StatusMessage::MatchFound.text(), "Match Found");
    assert_eq!(StatusMessage::ChampSelectAuto.text(), "Champion Selection with Auto-pick/ban ON");
    assert_eq!(StatusMessage::ChampSelect.text(), "Champion Selection");
    assert_eq!(StatusMessage::GameInProgress.text(), "Game in progress...");
    assert_eq!(StatusMessage::WaitingForStats.text(), "Waiting for Stats");
    assert_eq!(StatusMessage::GameEnding.text(), "Game Ending...");
}

#[test]
fn resolver_takes_first_two_local_actions_in_turn_order() {
    let turns = vec![
        vec![
            action(1, 0, ActionKind::Ban, true, false),
            action(2, 3, ActionKind::Ban, true, false),
        ],
        vec![
            action(3, 3, ActionKind::Pick, false, false),
            action(4, 3, ActionKind::Pick, false, true),
        ],
    ];
    let (ban, pick) = resolve_actions(&turns, 3);
    assert_eq!(ban, ResolvedAction { action_id: 2, in_progress: true, completed: false });
    assert_eq!(pick, ResolvedAction { action_id: 3, in_progress: false, completed: false });
}

#[test]
fn resolver_defaults_missing_slots_to_zero() {
    let turns = vec![vec![action(7, 1, ActionKind::Ban, true, false)]];
    let (ban, pick) = resolve_actions(&turns, 9);
    assert_eq!(ban, ResolvedAction { action_id: 0, in_progress: false, completed: false });
    assert_eq!(pick, ResolvedAction { action_id: 0, in_progress: false, completed: false });
    let (ban_one, pick_one) = resolve_actions(&turns, 1);
    assert_eq!(ban_one.action_id, 7);
    assert_eq!(pick_one, ResolvedAction { action_id: 0, in_progress: false, completed: false });
}

#[test]
fn unavailable_pick_candidate_advances_cursor_without_patch() {
    // Pick fallback list [A, B]; candidate A reports unavailable.
    let plan = plain_plan(None, &[(51, "Caitlyn"), (22, "Ashe")]);
    let mut ep = EpisodeState::initial();
    let input = open_window_input(None, Some(true));
    let outcome = plan_step(&plan, &mut ep, &input);
    assert!(outcome.pick_patch.is_none());
    assert!(outcome.ban_patch.is_none());
    assert_eq!(ep.fallback_cursor, 1);
    // The next cycle probes candidate B.
    let (ban_query, pick_query) = availability_queries(&plan, &ep);
    assert_eq!(ban_query, None);
    assert_eq!(pick_query, Some(22));
}

#[test]
fn unavailable_ban_candidate_is_never_banned() {
    let plan = plain_plan(Some((266, "Aatrox")), &[]);
    let mut ep = EpisodeState::initial();
    for _ in 0..3 {
        let input = StepInput {
            local_cell: 2,
            ban_act: ResolvedAction { action_id: 5, in_progress: true, completed: false },
            pick_act: ResolvedAction { action_id: 0, in_progress: false, completed: false },
            timer_planning: false,
            ban_unavailable: Some(true),
            pick_unavailable: None,
        };
        let outcome = plan_step(&plan, &mut ep, &input);
        assert!(outcome.ban_patch.is_none());
        assert!(outcome.pick_patch.is_none());
        assert_eq!(outcome.cooldown_ms, 0);
    }
}

#[test]
fn planning_timer_blocks_every_patch() {
    // timer.phase == "PLANNING" for any candidate state: no patch that cycle.
    let plan = plain_plan(Some((266, "Aatrox")), &[(51, "Caitlyn")]);
    let mut ep = EpisodeState::initial();
    let input = StepInput {
        local_cell: 2,
        ban_act: ResolvedAction { action_id: 5, in_progress: true, completed: false },
        pick_act: ResolvedAction { action_id: 6, in_progress: true, completed: false },
        timer_planning: true,
        ban_unavailable: Some(false),
        pick_unavailable: Some(false),
    };
    let before = ep;
    let outcome = plan_step(&plan, &mut ep, &input);
    assert!(outcome.ban_patch.is_none());
    assert!(outcome.pick_patch.is_none());
    assert!(outcome.rune_swap.is_none());
    assert_eq!(outcome.cooldown_ms, 0);
    assert_eq!(ep, before);
}

#[test]
fn open_pick_window_submits_exactly_one_pick_and_locks() {
    // Pick action in progress and not completed, ban action completed,
    // candidate available, locked false.
    let plan = plain_plan(None, &[(51, "Caitlyn")]);
    let mut ep = EpisodeState::initial();
    let input = open_window_input(None, Some(false));
    let outcome = plan_step(&plan, &mut ep, &input);
    let patch = outcome.pick_patch.expect("a pick patch is owed here");
    assert_eq!(
        patch,
        ActionPatch {
            action_id: 11,
            body: PatchBody {
                actor_cell_id: 3,
                champion_id: 51,
                completed: true,
                id: 11,
                is_ally_action: true,
                kind: ActionKind::Pick,
            },
        }
    );
    assert!(ep.locked);
    assert_eq!(outcome.cooldown_ms, SUBMIT_COOLDOWN_MS);
    // The same window seen again submits nothing: the episode is locked.
    let again = plan_step(&plan, &mut ep, &input);
    assert!(again.pick_patch.is_none());
    assert_eq!(again.cooldown_ms, 0);
}

#[test]
fn open_ban_window_submits_the_ban_body_shape() {
    let plan = plain_plan(Some((266, "Aatrox")), &[]);
    let mut ep = EpisodeState::initial();
    let input = StepInput {
        local_cell: 4,
        ban_act: ResolvedAction { action_id: 21, in_progress: true, completed: false },
        pick_act: ResolvedAction { action_id: 22, in_progress: false, completed: false },
        timer_planning: false,
        ban_unavailable: Some(false),
        pick_unavailable: None,
    };
    let outcome = plan_step(&plan, &mut ep, &input);
    let patch = outcome.ban_patch.expect("a ban patch is owed here");
    assert_eq!(patch.action_id, 21);
    assert_eq!(patch.body.actor_cell_id, 4);
    assert_eq!(patch.body.champion_id, 266);
    assert!(patch.body.completed);
    assert!(patch.body.is_ally_action);
    assert_eq!(patch.body.id, 21);
    assert_eq!(patch.body.kind, ActionKind::Ban);
    assert_eq!(outcome.cooldown_ms, SUBMIT_COOLDOWN_MS);
    assert!(outcome.pick_patch.is_none());
}

#[test]
fn finalized_slots_close_the_window() {
    let plan = plain_plan(Some((266, "Aatrox")), &[(51, "Caitlyn")]);
    let mut ep = EpisodeState::initial();
    let input = StepInput {
        local_cell: 4,
        ban_act: ResolvedAction { action_id: 21, in_progress: false, completed: true },
        pick_act: ResolvedAction { action_id: 22, in_progress: false, completed: true },
        timer_planning: false,
        ban_unavailable: Some(false),
        pick_unavailable: Some(false),
    };
    let outcome = plan_step(&plan, &mut ep, &input);
    assert!(outcome.ban_patch.is_none());
    assert!(outcome.pick_patch.is_none());
    assert_eq!(ep, EpisodeState::initial());
}

#[test]
fn cursor_past_the_list_plans_nothing() {
    let plan = plain_plan(None, &[(51, "Caitlyn"), (22, "Ashe")]);
    let mut ep = EpisodeState { fallback_cursor: 2, ..EpisodeState::initial() };
    let (_, pick_query) = availability_queries(&plan, &ep);
    assert_eq!(pick_query, None);
    let input = open_window_input(None, None);
    let outcome = plan_step(&plan, &mut ep, &input);
    assert!(outcome.pick_patch.is_none());
    assert_eq!(ep.fallback_cursor, 2);
}

#[test]
fn rune_swap_accompanies_the_pick_with_the_cursor_template() {
    let first = RunePage {
        id: 90,
        name: "Page one".to_string(),
        primary_style_id: 8100,
        selected_perk_ids: vec![8112, 8126],
        sub_style_id: 8300,
    };
    let second = RunePage {
        id: 91,
        name: "Page two".to_string(),
        primary_style_id: 8000,
        selected_perk_ids: vec![8005],
        sub_style_id: 8400,
    };
    let plan = SelectionPlan {
        ban: None,
        picks: vec![(51, "Caitlyn".to_string()), (22, "Ashe".to_string())],
        rune_swap_enabled: true,
        rune_pages: Some((first, second)),
    };
    let mut ep = EpisodeState { fallback_cursor: 1, ..EpisodeState::initial() };
    let input = open_window_input(None, Some(false));
    let outcome = plan_step(&plan, &mut ep, &input);
    assert!(outcome.pick_patch.is_some());
    let swap = outcome.rune_swap.expect("the swap accompanies the pick");
    assert_eq!(swap.delete_page_id, 91);
    assert_eq!(swap.create_page.id, 91);
    assert_eq!(swap.create_page.name, "Page two");
    assert_eq!(swap.create_page.primary_style_id, 8000);
    assert_eq!(swap.create_page.selected_perk_ids, vec![8005]);
    assert_eq!(swap.create_page.sub_style_id, 8400);
}

#[test]
fn ordered_calls_put_the_swap_strictly_before_the_pick() {
    let page = RunePage {
        id: 90,
        name: "Page one".to_string(),
        primary_style_id: 8100,
        selected_perk_ids: vec![8112],
        sub_style_id: 8300,
    };
    let outcome = PlanOutcome {
        ban_patch: None,
        pick_patch: Some(build_patch(3, 11, 51, ActionKind::Pick)),
        rune_swap: Some(circuit_watcher::executor::RuneSwap {
            delete_page_id: 90,
            create_page: page,
        }),
        cooldown_ms: SUBMIT_COOLDOWN_MS,
    };
    let calls = ordered_calls(outcome);
    assert_eq!(calls.len(), 3);
    assert!(matches!(calls[0], MutationCall::DeleteRunePage(90)));
    assert!(matches!(calls[1], MutationCall::CreateRunePage(_)));
    assert!(matches!(calls[2], MutationCall::PickPatch(_)));
}

#[test]
fn ordered_calls_for_a_lone_ban() {
    let outcome = PlanOutcome {
        ban_patch: Some(build_patch(4, 21, 266, ActionKind::Ban)),
        pick_patch: None,
        rune_swap: None,
        cooldown_ms: SUBMIT_COOLDOWN_MS,
    };
    let calls = ordered_calls(outcome);
    assert_eq!(calls.len(), 1);
    assert!(matches!(calls[0], MutationCall::BanPatch(_)));
}

#[test]
fn champ_select_step_resolves_and_plans_from_a_snapshot() {
    let snapshot = ChampSelectSnapshot {
        local_player_cell_id: 3,
        actions: vec![
            vec![action(10, 3, ActionKind::Ban, false, true)],
            vec![action(11, 3, ActionKind::Pick, true, false)],
        ],
        timer_phase: "BAN_PICK".to_string(),
    };
    let plan = plain_plan(None, &[(51, "Caitlyn")]);
    let mut ep = EpisodeState::initial();
    let outcome = champ_select_step(&plan, &mut ep, &snapshot, None, Some(false));
    let patch = outcome.pick_patch.expect("the open window owes a pick");
    assert_eq!(patch.action_id, 11);
    assert_eq!(patch.body.champion_id, 51);
    assert!(ep.locked);
}

#[test]
fn champ_select_step_honors_the_planning_timer() {
    let snapshot = ChampSelectSnapshot {
        local_player_cell_id: 3,
        actions: vec![
            vec![action(10, 3, ActionKind::Ban, false, true)],
            vec![action(11, 3, ActionKind::Pick, true, false)],
        ],
        timer_phase: "PLANNING".to_string(),
    };
    assert!(timer_is_planning(&snapshot.timer_phase));
    let plan = plain_plan(None, &[(51, "Caitlyn")]);
    let mut ep = EpisodeState::initial();
    let outcome = champ_select_step(&plan, &mut ep, &snapshot, None, Some(false));
    assert!(outcome.pick_patch.is_none());
    assert!(!ep.locked);
}
