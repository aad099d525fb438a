//! The phase dispatcher: a finite-state switch over the polled gameflow
//! phase. It owns the episode-scoped state resets and the per-phase pacing,
//! and decides whether this tick accepts a ready check or runs the
//! champion-select reconciliation. Each tick re-evaluates from scratch, so
//! duplicate reads of the same phase decide the same way.

use vstd::prelude::*;
use vstd::string::StringExecFns;

use crate::phase::GameflowPhase;
use crate::plan::EpisodeState;

verus! {

/// What the status line shows for the tick. Unrecognized phase strings are
/// carried verbatim.
#[derive(Debug)]
pub enum StatusMessage {
    Idling,
    LookingForMatch,
    InLobby,
    MatchFound,
    ChampSelectAuto,
    ChampSelect,
    GameInProgress,
    WaitingForStats,
    GameEnding,
    Unimplemented(String),
}

impl StatusMessage {
    /// The display text of the message. For an unimplemented phase the raw
    /// phase string follows the fixed prefix, preserved verbatim.
    pub fn text(&self) -> (r: String)
        ensures
            match self {
                StatusMessage::Idling => r@ == "Idling..."@,
                StatusMessage::LookingForMatch => r@ == "Looking for a match"@,
                StatusMessage::InLobby => r@ == "In Lobby"@,
                StatusMessage::MatchFound => r@ == "Match Found"@,
                StatusMessage::ChampSelectAuto => r@ == "Champion Selection with Auto-pick/ban ON"@,
                StatusMessage::ChampSelect => r@ == "Champion Selection"@,
                StatusMessage::GameInProgress => r@ == "Game in progress..."@,
                StatusMessage::WaitingForStats => r@ == "Waiting for Stats"@,
                StatusMessage::GameEnding => r@ == "Game Ending..."@,
                StatusMessage::Unimplemented(s) => r@ == "Unimplemented Phase: "@ + s@,
            },
    {
        match self {
            StatusMessage::Idling => String::from_str("Idling..."),
            StatusMessage::LookingForMatch => String::from_str("Looking for a match"),
            StatusMessage::InLobby => String::from_str("In Lobby"),
            StatusMessage::MatchFound => String::from_str("Match Found"),
            StatusMessage::ChampSelectAuto => String::from_str(
                "Champion Selection with Auto-pick/ban ON",
            ),
            StatusMessage::ChampSelect => String::from_str("Champion Selection"),
            StatusMessage::GameInProgress => String::from_str("Game in progress..."),
            StatusMessage::WaitingForStats => String::from_str("Waiting for Stats"),
            StatusMessage::GameEnding => String::from_str("Game Ending..."),
            StatusMessage::Unimplemented(s) => {
                let mut t = String::from_str("Unimplemented Phase: ");
                t.append(s.as_str());
                t
            },
        }
    }
}

/// What the tick does beyond updating episode state: nothing, accept the
/// ready check, or run the champion-select reconciliation.
#[derive(Clone, Copy, Debug, PartialEq, Eq, Structural)]
pub enum DispatchAction {
    Wait,
    Accept,
    RunChampSelect,
}

/// One tick's decision: the status to display at the end of the tick, the
/// action to carry out, and how long to pause before the next poll.
#[derive(Debug)]
pub struct DispatchStep {
    pub status: StatusMessage,
    pub action: DispatchAction,
    pub sleep_ms: u64,
}

/// Dispatches one polled phase value.
///
/// A `Matchmaking` observation resets the whole episode state, whatever it
/// held before. A ready check is accepted at most once per episode: only
/// with auto-accept enabled and `found_match` still clear, and the accept
/// sets `found_match`. Champion select runs only with the auto-pick/ban
/// toggle on and a non-empty plan. Any other phase, the unrecognized ones
/// included, changes no episode state and issues no call.
pub fn dispatch(
    phase: &GameflowPhase,
    ep: &mut EpisodeState,
    auto_accept: bool,
    pick_ban_enabled: bool,
    plan_has_candidates: bool,
) -> (r: DispatchStep)
    ensures
        phase is Matchmaking ==> *final(ep) == EpisodeState::initial_spec() && r.action
            == DispatchAction::Wait && r.status is LookingForMatch && r.sleep_ms == 1500,
        !(phase is Matchmaking) ==> *final(ep) == *old(ep) || (phase is ReadyCheck && *final(ep)
            == (EpisodeState { found_match: true, accepted_this_episode: true, ..*old(ep) })),
        phase is Idle ==> r.action == DispatchAction::Wait && r.status is Idling && r.sleep_ms
            == 1500 && *final(ep) == *old(ep),
        phase is Lobby ==> r.action == DispatchAction::Wait && r.status is InLobby && r.sleep_ms
            == 1500 && *final(ep) == *old(ep),
        phase is ReadyCheck && auto_accept && !old(ep).found_match ==> r.action
            == DispatchAction::Accept && r.status is MatchFound && r.sleep_ms == 1500 && *final(ep)
            == (EpisodeState { found_match: true, accepted_this_episode: true, ..*old(ep) }),
        phase is ReadyCheck && !(auto_accept && !old(ep).found_match) ==> r.action
            == DispatchAction::Wait && r.status is MatchFound && r.sleep_ms == 0 && *final(ep)
            == *old(ep),
        phase is ChampSelect && pick_ban_enabled && plan_has_candidates ==> r.action
            == DispatchAction::RunChampSelect && r.status is ChampSelect && r.sleep_ms == 1500
            && *final(ep) == *old(ep),
        phase is ChampSelect && pick_ban_enabled && !plan_has_candidates ==> r.action
            == DispatchAction::Wait && r.status is ChampSelectAuto && r.sleep_ms == 0 && *final(ep)
            == *old(ep),
        phase is ChampSelect && !pick_ban_enabled ==> r.action == DispatchAction::Wait
            && r.status is ChampSelect && r.sleep_ms == 1500 && *final(ep) == *old(ep),
        phase is InProgress ==> r.action == DispatchAction::Wait && r.status is GameInProgress
            && r.sleep_ms == 20000 && *final(ep) == *old(ep),
        phase is WaitingForStats ==> r.action == DispatchAction::Wait
            && r.status is WaitingForStats && r.sleep_ms == 5000 && *final(ep) == *old(ep),
        phase is PreEndOfGame ==> r.action == DispatchAction::Wait && r.status is GameInProgress
            && r.sleep_ms == 10000 && *final(ep) == *old(ep),
        phase is EndOfGame ==> r.action == DispatchAction::Wait && r.status is GameEnding
            && r.sleep_ms == 10000 && *final(ep) == *old(ep),
        phase matches GameflowPhase::Unknown(s) ==> r.action == DispatchAction::Wait && (
        r.status matches StatusMessage::Unimplemented(u) && u@ == s@) && r.sleep_ms == 10000
            && *final(ep) == *old(ep),
{
    match phase {
        GameflowPhase::Idle => DispatchStep {
            status: StatusMessage::Idling,
            action: DispatchAction::Wait,
            sleep_ms: 1500,
        },
        GameflowPhase::Matchmaking => {
            ep.reset_for_matchmaking();
            DispatchStep {
                status: StatusMessage::LookingForMatch,
                action: DispatchAction::Wait,
                sleep_ms: 1500,
            }
        },
        GameflowPhase::Lobby => DispatchStep {
            status: StatusMessage::InLobby,
            action: DispatchAction::Wait,
            sleep_ms: 1500,
        },
        GameflowPhase::ReadyCheck => {
            if auto_accept && !ep.found_match {
                ep.found_match = true;
                ep.accepted_this_episode = true;
                DispatchStep {
                    status: StatusMessage::MatchFound,
                    action: DispatchAction::Accept,
                    sleep_ms: 1500,
                }
            } else {
                DispatchStep {
                    status: StatusMessage::MatchFound,
                    action: DispatchAction::Wait,
                    sleep_ms: 0,
                }
            }
        },
        GameflowPhase::ChampSelect => {
            if pick_ban_enabled {
                if plan_has_candidates {
                    DispatchStep {
                        status: StatusMessage::ChampSelect,
                        action: DispatchAction::RunChampSelect,
                        sleep_ms: 1500,
                    }
                } else {
                    DispatchStep {
                        status: StatusMessage::ChampSelectAuto,
                        action: DispatchAction::Wait,
                        sleep_ms: 0,
                    }
                }
            } else {
                DispatchStep {
                    status: StatusMessage::ChampSelect,
                    action: DispatchAction::Wait,
                    sleep_ms: 1500,
                }
            }
        },
        GameflowPhase::InProgress => DispatchStep {
            status: StatusMessage::GameInProgress,
            action: DispatchAction::Wait,
            sleep_ms: 20000,
        },
        GameflowPhase::WaitingForStats => DispatchStep {
            status: StatusMessage::WaitingForStats,
            action: DispatchAction::Wait,
            sleep_ms: 5000,
        },
        GameflowPhase::PreEndOfGame => DispatchStep {
            status: StatusMessage::GameInProgress,
            action: DispatchAction::Wait,
            sleep_ms: 10000,
        },
        GameflowPhase::EndOfGame => DispatchStep {
            status: StatusMessage::GameEnding,
            action: DispatchAction::Wait,
            sleep_ms: 10000,
        },
        GameflowPhase::Unknown(s) => DispatchStep {
            status: StatusMessage::Unimplemented(s.clone()),
            action: DispatchAction::Wait,
            sleep_ms: 10000,
        },
    }
}

} // verus!
