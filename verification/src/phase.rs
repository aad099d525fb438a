//! The gameflow phase: a closed tagged union over the phase string the
//! remote session reports each poll. Strings the engine does not recognize
//! are preserved verbatim in `Unknown` so they can be displayed; they never
//! cause a mutation.

use vstd::prelude::*;
use vstd::string::StringExecFns;

use crate::text::str_eq;

verus! {

/// The client's high-level match-lifecycle state, one value per poll.
/// `Idle` stands for a session object without a phase string.
#[derive(Debug)]
pub enum GameflowPhase {
    Idle,
    Matchmaking,
    Lobby,
    ReadyCheck,
    ChampSelect,
    InProgress,
    WaitingForStats,
    PreEndOfGame,
    EndOfGame,
    Unknown(String),
}

/// The phase strings the engine recognizes.
pub open spec fn known_phase(s: Seq<char>) -> bool {
    ||| s == "Matchmaking"@
    ||| s == "Lobby"@
    ||| s == "ReadyCheck"@
    ||| s == "ChampSelect"@
    ||| s == "InProgress"@
    ||| s == "WaitingForStats"@
    ||| s == "PreEndOfGame"@
    ||| s == "EndOfGame"@
}

/// Maps the polled phase string to its tagged value. A missing string is
/// `Idle`; an unrecognized one is preserved verbatim in `Unknown`.
pub fn parse_phase(raw: Option<&str>) -> (p: GameflowPhase)
    ensures
        raw is None ==> p == GameflowPhase::Idle,
        raw matches Some(s) ==> {
            &&& s@ == "Matchmaking"@ ==> p == GameflowPhase::Matchmaking
            &&& s@ == "Lobby"@ ==> p == GameflowPhase::Lobby
            &&& s@ == "ReadyCheck"@ ==> p == GameflowPhase::ReadyCheck
            &&& s@ == "ChampSelect"@ ==> p == GameflowPhase::ChampSelect
            &&& s@ == "InProgress"@ ==> p == GameflowPhase::InProgress
            &&& s@ == "WaitingForStats"@ ==> p == GameflowPhase::WaitingForStats
            &&& s@ == "PreEndOfGame"@ ==> p == GameflowPhase::PreEndOfGame
            &&& s@ == "EndOfGame"@ ==> p == GameflowPhase::EndOfGame
            &&& !known_phase(s@) ==> (p matches GameflowPhase::Unknown(u) && u@ == s@)
        },
{
    proof {
        reveal_strlit("Matchmaking");
        reveal_strlit("Lobby");
        reveal_strlit("ReadyCheck");
        reveal_strlit("ChampSelect");
        reveal_strlit("InProgress");
        reveal_strlit("WaitingForStats");
        reveal_strlit("PreEndOfGame");
        reveal_strlit("EndOfGame");
        assert("Matchmaking"@.len() == 11);
        assert("Lobby"@.len() == 5);
        assert("ReadyCheck"@.len() == 10);
        assert("ChampSelect"@.len() == 11);
        assert("InProgress"@.len() == 10);
        assert("WaitingForStats"@.len() == 15);
        assert("PreEndOfGame"@.len() == 12);
        assert("EndOfGame"@.len() == 9);
        assert("Matchmaking"@[0] == 'M');
        assert("ChampSelect"@[0] == 'C');
        assert("ReadyCheck"@[0] == 'R');
        assert("InProgress"@[0] == 'I');
    }
    match raw {
        None => GameflowPhase::Idle,
        Some(s) => {
            if str_eq(s, "Matchmaking") {
                GameflowPhase::Matchmaking
            } else if str_eq(s, "Lobby") {
                GameflowPhase::Lobby
            } else if str_eq(s, "ReadyCheck") {
                GameflowPhase::ReadyCheck
            } else if str_eq(s, "ChampSelect") {
                GameflowPhase::ChampSelect
            } else if str_eq(s, "InProgress") {
                GameflowPhase::InProgress
            } else if str_eq(s, "WaitingForStats") {
                GameflowPhase::WaitingForStats
            } else if str_eq(s, "PreEndOfGame") {
                GameflowPhase::PreEndOfGame
            } else if str_eq(s, "EndOfGame") {
                GameflowPhase::EndOfGame
            } else {
                GameflowPhase::Unknown(String::from_str(s))
            }
        },
    }
}

} // verus!
