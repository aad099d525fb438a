//! Operator intent and episode-scoped progress: the selection plan (ban
//! candidate, ordered pick fallbacks, rune-swap templates) and the
//! loop-carried episode state that a `Matchmaking` observation resets.

use vstd::prelude::*;

verus! {

/// Loop-carried, episode-scoped progress flags. All of them return to their
/// initial values whenever the polled phase is `Matchmaking`, which covers
/// both a fresh queue and a restart after a dodge.
#[derive(Clone, Copy, Debug, PartialEq, Eq, Structural)]
pub struct EpisodeState {
    /// A ready check was already seen and handled this episode.
    pub found_match: bool,
    /// An accept call was issued this episode.
    pub accepted_this_episode: bool,
    /// A pick was submitted this episode; no further pick is issued.
    pub locked: bool,
    /// Index into the plan's ordered fallback pick candidates.
    pub fallback_cursor: usize,
}

impl EpisodeState {
    /// The state every episode starts from.
    pub open spec fn initial_spec() -> EpisodeState {
        EpisodeState {
            found_match: false,
            accepted_this_episode: false,
            locked: false,
            fallback_cursor: 0,
        }
    }

    pub fn initial() -> (r: EpisodeState)
        ensures
            r == EpisodeState::initial_spec(),
    {
        EpisodeState {
            found_match: false,
            accepted_this_episode: false,
            locked: false,
            fallback_cursor: 0,
        }
    }

    /// Forgets all episode progress, as a `Matchmaking` observation demands.
    pub fn reset_for_matchmaking(&mut self)
        ensures
            *final(self) == EpisodeState::initial_spec(),
    {
        *self = EpisodeState::initial();
    }
}

/// A saved perk configuration; the first two pages of the operator's
/// inventory serve as delete/recreate templates for a rune swap.
#[derive(Debug)]
pub struct RunePage {
    pub id: i64,
    pub name: String,
    pub primary_style_id: i64,
    pub selected_perk_ids: Vec<i64>,
    pub sub_style_id: i64,
}

/// Two rune pages carry the same data: same id, name, styles and perk list.
pub open spec fn same_page(a: RunePage, b: RunePage) -> bool {
    &&& a.id == b.id
    &&& a.name@ == b.name@
    &&& a.primary_style_id == b.primary_style_id
    &&& a.selected_perk_ids@ == b.selected_perk_ids@
    &&& a.sub_style_id == b.sub_style_id
}

fn copy_ids(v: &Vec<i64>) -> (r: Vec<i64>)
    ensures
        r@ == v@,
{
    let mut r: Vec<i64> = Vec::new();
    let mut i: usize = 0;
    while i < v.len()
        invariant
            i <= v@.len(),
            r@ == v@.subrange(0, i as int),
        decreases v@.len() - i,
    {
        r.push(v[i]);
        proof {
            assert(v@.subrange(0, i + 1) =~= v@.subrange(0, i as int).push(v@[i as int]));
        }
        i += 1;
    }
    proof {
        assert(v@.subrange(0, v@.len() as int) =~= v@);
    }
    r
}

impl RunePage {
    /// A fresh page carrying the same style/perk data, used as the body of
    /// the replacement page created right after the template is deleted.
    pub fn duplicate(&self) -> (r: RunePage)
        ensures
            same_page(*self, r),
    {
        RunePage {
            id: self.id,
            name: self.name.clone(),
            primary_style_id: self.primary_style_id,
            selected_perk_ids: copy_ids(&self.selected_perk_ids),
            sub_style_id: self.sub_style_id,
        }
    }
}

/// The operator's intent for an episode: at most one ban candidate, an
/// ordered list of pick fallbacks, and the optional rune-swap material.
/// Candidates are `(champion id, champion name)` pairs; the control state
/// drops skipped entries before handing a plan over, and the episode's
/// progress through the fallbacks lives in [`EpisodeState`].
#[derive(Debug)]
pub struct SelectionPlan {
    pub ban: Option<(u32, String)>,
    pub picks: Vec<(u32, String)>,
    pub rune_swap_enabled: bool,
    pub rune_pages: Option<(RunePage, RunePage)>,
}

impl SelectionPlan {
    /// A plan with nothing to do; the champion-select branch is skipped
    /// entirely for such a plan.
    pub fn empty() -> (r: SelectionPlan)
        ensures
            r.ban is None,
            r.picks@.len() == 0,
            !r.rune_swap_enabled,
            r.rune_pages is None,
    {
        SelectionPlan { ban: None, picks: Vec::new(), rune_swap_enabled: false, rune_pages: None }
    }

    /// Whether the plan holds a ban candidate or at least one pick fallback.
    pub fn has_candidates(&self) -> (r: bool)
        ensures
            r == (self.ban is Some || self.picks@.len() > 0),
    {
        self.ban.is_some() || self.picks.len() > 0
    }
}

} // verus!
