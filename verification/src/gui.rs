//! The operator-facing control state: the auto-accept / auto-pick/ban /
//! rune-swap toggles, the champion picks and the ban entry, the loaded
//! catalog, and the status lines. The rendering layer owns the text boxes
//! and the label timers; it hands entered text to these methods and shows
//! the feedback they decide on. Pick entries are capped at two; an entry
//! left empty records a skipped slot as a `(0, "")` pair.

use vstd::prelude::*;
use vstd::string::StringExecFns;

use crate::catalog::{Champion, find_champion, name_matches};
use crate::plan::SelectionPlan;
use crate::text::{clean_name, clean_str};

verus! {

/// What submitting one entered name did to the plan.
#[derive(Clone, Copy, Debug, PartialEq, Eq, Structural)]
pub enum EntryOutcome {
    /// The name matched a champion that was not selected yet; it was added.
    Added,
    /// The entry was empty: a skipped slot was recorded.
    Skipped,
    /// The name matched a champion already among the picks; nothing added.
    Duplicate,
    /// No champion has that name; nothing added.
    NotFound,
}

/// Some catalog entry matches the cleaned input.
pub open spec fn some_match(champs: Seq<Champion>, cleaned: Seq<char>) -> bool {
    exists|i: int| 0 <= i < champs.len() && name_matches(champs[i], cleaned)
}

/// `i` is the first catalog index matching the cleaned input.
pub open spec fn is_first_match(champs: Seq<Champion>, cleaned: Seq<char>, i: int) -> bool {
    &&& 0 <= i < champs.len()
    &&& name_matches(champs[i], cleaned)
    &&& forall|j: int| 0 <= j < i ==> !name_matches(champs[j], cleaned)
}

/// The picks already hold this champion: same id and same name.
pub open spec fn contains_candidate(picks: Seq<(u32, String)>, id: u32, name: Seq<char>) -> bool {
    exists|k: int| 0 <= k < picks.len() && picks[k].0 == id && picks[k].1@ == name
}

fn picks_contain(picks: &Vec<(u32, String)>, id: u32, name: &String) -> (r: bool)
    ensures
        r == contains_candidate(picks@, id, name@),
{
    let mut k: usize = 0;
    while k < picks.len()
        invariant
            k <= picks@.len(),
            forall|j: int| 0 <= j < k ==> !(picks@[j].0 == id && picks@[j].1@ == name@),
        decreases picks@.len() - k,
    {
        if picks[k].0 == id && picks[k].1 == *name {
            return true;
        }
        k += 1;
    }
    false
}

/// The pick entries that name a champion, in order: skipped `(0, "")`
/// slots are left out.
pub open spec fn named_picks(picks: Seq<(u32, String)>) -> Seq<(u32, String)>
    decreases picks.len(),
{
    if picks.len() == 0 {
        Seq::empty()
    } else if picks[0].1@.len() > 0 {
        seq![picks[0]] + named_picks(picks.drop_first())
    } else {
        named_picks(picks.drop_first())
    }
}

proof fn lemma_named_picks_concat(a: Seq<(u32, String)>, b: Seq<(u32, String)>)
    ensures
        named_picks(a + b) == named_picks(a) + named_picks(b),
    decreases a.len(),
{
    if a.len() == 0 {
        assert(a + b =~= b);
        assert(named_picks(a) + named_picks(b) =~= named_picks(b));
    } else {
        assert((a + b).drop_first() =~= a.drop_first() + b);
        lemma_named_picks_concat(a.drop_first(), b);
        if a[0].1@.len() > 0 {
            assert(seq![a[0]] + (named_picks(a.drop_first()) + named_picks(b)) =~= (seq![a[0]]
                + named_picks(a.drop_first())) + named_picks(b));
        }
    }
}

/// The operator-facing control state, shared between the rendering layer
/// (which edits intent) and the reconciliation loop (which reads it).
#[derive(Debug)]
pub struct GUI {
    /// Auto-pick/ban toggle: the champion-select branch runs only when set.
    pub pick_ban_selection: bool,
    /// Rune-swap toggle.
    pub rune_page_selection: bool,
    /// Auto-accept toggle for ready checks.
    pub auto_accept: bool,
    /// Ordered pick fallback entries, at most two; `(0, "")` marks a skip.
    pub champion_picks: Vec<(u32, String)>,
    /// The single ban entry, once submitted; `(0, "")` marks a skip.
    pub ban_picks: Option<(u32, String)>,
    /// The champion catalog, loaded once.
    pub champions: Vec<Champion>,
    /// Feedback shown under the entry boxes.
    pub text: String,
    /// The status line for the current gameflow phase.
    pub gameflow_status: String,
    /// The connection line, set once the local client is discovered.
    pub connection_status: Option<String>,
}

impl GUI {
    /// Fresh control state over a loaded catalog: every toggle off, no
    /// entries, empty status lines.
    pub fn new(champions: Vec<Champion>) -> (r: GUI)
        ensures
            !r.pick_ban_selection,
            !r.rune_page_selection,
            !r.auto_accept,
            r.champion_picks@.len() == 0,
            r.ban_picks is None,
            r.champions == champions,
            r.text@.len() == 0,
            r.gameflow_status@.len() == 0,
            r.connection_status is None,
    {
        GUI {
            pick_ban_selection: false,
            rune_page_selection: false,
            auto_accept: false,
            champion_picks: Vec::new(),
            ban_picks: None,
            champions,
            text: String::new(),
            gameflow_status: String::new(),
            connection_status: None,
        }
    }

    /// Submits one entered pick name. An empty entry records a skipped
    /// slot; a recognized, not-yet-selected name is appended to the picks;
    /// a duplicate or unknown name changes no entry and sets the feedback
    /// text instead.
    pub fn submit_pick(&mut self, input: &str) -> (r: EntryOutcome)
        requires
            old(self).champion_picks@.len() < 2,
        ensures
            final(self).pick_ban_selection == old(self).pick_ban_selection,
            final(self).rune_page_selection == old(self).rune_page_selection,
            final(self).auto_accept == old(self).auto_accept,
            final(self).ban_picks == old(self).ban_picks,
            final(self).champions == old(self).champions,
            final(self).gameflow_status == old(self).gameflow_status,
            final(self).connection_status == old(self).connection_status,
            clean_name(input@).len() == 0 ==> r == EntryOutcome::Skipped && final(self).champion_picks@.len() == old(self).champion_picks@.len() + 1 && final(self).champion_picks@.last().0 == 0 && final(self).champion_picks@.last().1@.len() == 0
                && final(self).champion_picks@.subrange(
                0,
                old(self).champion_picks@.len() as int,
            ) == old(self).champion_picks@ && final(self).text == old(self).text,
            clean_name(input@).len() > 0 && !some_match(old(self).champions@, clean_name(input@))
                ==> r == EntryOutcome::NotFound && final(self).champion_picks == old(self).champion_picks && final(self).text@ == "No champion found with the given name."@,
            forall|i: int|
                clean_name(input@).len() > 0 && is_first_match(
                    old(self).champions@,
                    clean_name(input@),
                    i,
                ) ==> if contains_candidate(
                    old(self).champion_picks@,
                    old(self).champions@[i].id,
                    old(self).champions@[i].name@,
                ) {
                    &&& r == EntryOutcome::Duplicate
                    &&& final(self).champion_picks == old(self).champion_picks
                    &&& final(self).text@ == "Champion has alread been selected."@
                } else {
                    &&& r == EntryOutcome::Added
                    &&& final(self).champion_picks@ == old(self).champion_picks@.push(
                        (old(self).champions@[i].id, old(self).champions@[i].name),
                    )
                    &&& final(self).text == old(self).text
                },
    {
        let cleaned = clean_str(input);
        if cleaned.len() == 0 {
            let ghost before = self.champion_picks@;
            self.champion_picks.push((0, String::new()));
            proof {
                assert(self.champion_picks@.subrange(0, before.len() as int) =~= before);
            }
            return EntryOutcome::Skipped;
        }
        match find_champion(&self.champions, &cleaned) {
            Some(i) => {
                let id = self.champions[i].id;
                let name = self.champions[i].name.clone();
                if picks_contain(&self.champion_picks, id, &name) {
                    self.text = String::from_str("Champion has alread been selected.");
                    EntryOutcome::Duplicate
                } else {
                    self.champion_picks.push((id, name));
                    EntryOutcome::Added
                }
            },
            None => {
                self.text = String::from_str("No champion found with the given name.");
                EntryOutcome::NotFound
            },
        }
    }

    /// Submits the entered ban name. An empty entry records a skipped ban;
    /// a recognized name not already among the picks becomes the ban
    /// candidate; a duplicate or unknown name leaves the ban unset and
    /// sets the feedback text instead.
    pub fn submit_ban(&mut self, input: &str) -> (r: EntryOutcome)
        requires
            old(self).ban_picks is None,
        ensures
            final(self).pick_ban_selection == old(self).pick_ban_selection,
            final(self).rune_page_selection == old(self).rune_page_selection,
            final(self).auto_accept == old(self).auto_accept,
            final(self).champion_picks == old(self).champion_picks,
            final(self).champions == old(self).champions,
            final(self).gameflow_status == old(self).gameflow_status,
            final(self).connection_status == old(self).connection_status,
            clean_name(input@).len() == 0 ==> r == EntryOutcome::Skipped && (final(self).ban_picks matches Some(b) && b.0 == 0 && b.1@.len() == 0) && final(self).text == old(self).text,
            clean_name(input@).len() > 0 && !some_match(old(self).champions@, clean_name(input@))
                ==> r == EntryOutcome::NotFound && final(self).ban_picks is None && final(self).text@ == "No champion found with the given name."@,
            forall|i: int|
                clean_name(input@).len() > 0 && is_first_match(
                    old(self).champions@,
                    clean_name(input@),
                    i,
                ) ==> if contains_candidate(
                    old(self).champion_picks@,
                    old(self).champions@[i].id,
                    old(self).champions@[i].name@,
                ) {
                    &&& r == EntryOutcome::Duplicate
                    &&& final(self).ban_picks is None
                    &&& final(self).text@ == "Champion has alread been selected."@
                } else {
                    &&& r == EntryOutcome::Added
                    &&& final(self).ban_picks == Some(
                        (old(self).champions@[i].id, old(self).champions@[i].name),
                    )
                    &&& final(self).text == old(self).text
                },
    {
        let cleaned = clean_str(input);
        if cleaned.len() == 0 {
            self.ban_picks = Some((0, String::new()));
            return EntryOutcome::Skipped;
        }
        match find_champion(&self.champions, &cleaned) {
            Some(i) => {
                let id = self.champions[i].id;
                let name = self.champions[i].name.clone();
                if picks_contain(&self.champion_picks, id, &name) {
                    self.text = String::from_str("Champion has alread been selected.");
                    EntryOutcome::Duplicate
                } else {
                    self.ban_picks = Some((id, name));
                    EntryOutcome::Added
                }
            },
            None => {
                self.text = String::from_str("No champion found with the given name.");
                EntryOutcome::NotFound
            },
        }
    }

    /// Clears every pick and the ban entry.
    pub fn clear_picks_bans(&mut self)
        ensures
            final(self).champion_picks@.len() == 0,
            final(self).ban_picks is None,
            final(self).pick_ban_selection == old(self).pick_ban_selection,
            final(self).rune_page_selection == old(self).rune_page_selection,
            final(self).auto_accept == old(self).auto_accept,
            final(self).champions == old(self).champions,
            final(self).text == old(self).text,
            final(self).gameflow_status == old(self).gameflow_status,
            final(self).connection_status == old(self).connection_status,
    {
        self.champion_picks.clear();
        self.ban_picks = None;
    }

    /// When the operator skipped every slot — two empty picks and an empty
    /// ban — the entries are discarded and the auto-pick/ban toggle turns
    /// itself off. Returns whether that happened.
    pub fn clear_if_all_skipped(&mut self) -> (r: bool)
        ensures
            r == (old(self).champion_picks@.len() == 2 && old(self).champion_picks@[0].1@.len()
                == 0 && old(self).champion_picks@[1].1@.len() == 0 && (
            old(self).ban_picks matches Some(b) && b.1@.len() == 0)),
            r ==> final(self).champion_picks@.len() == 0 && final(self).ban_picks is None && !final(self).pick_ban_selection,
            !r ==> *final(self) == *old(self),
            final(self).rune_page_selection == old(self).rune_page_selection,
            final(self).auto_accept == old(self).auto_accept,
            final(self).champions == old(self).champions,
            final(self).text == old(self).text,
            final(self).gameflow_status == old(self).gameflow_status,
            final(self).connection_status == old(self).connection_status,
    {
        let all_skipped = self.champion_picks.len() == 2 && self.champion_picks[0].1.as_str().is_empty()
            && self.champion_picks[1].1.as_str().is_empty() && (match &self.ban_picks {
            Some(b) => b.1.as_str().is_empty(),
            None => false,
        });
        if all_skipped {
            self.champion_picks.clear();
            self.ban_picks = None;
            self.pick_ban_selection = false;
        }
        all_skipped
    }

    /// Flips the auto-accept toggle.
    pub fn toggle_auto_accept(&mut self)
        ensures
            final(self).auto_accept == !old(self).auto_accept,
            *final(self) == (GUI { auto_accept: !old(self).auto_accept, ..*old(self) }),
    {
        self.auto_accept = !self.auto_accept;
    }

    /// Flips the auto-pick/ban toggle.
    pub fn toggle_pick_ban_selection(&mut self)
        ensures
            final(self).pick_ban_selection == !old(self).pick_ban_selection,
            *final(self) == (GUI { pick_ban_selection: !old(self).pick_ban_selection, ..*old(self) }),
    {
        self.pick_ban_selection = !self.pick_ban_selection;
    }

    /// Flips the rune-swap toggle.
    pub fn toggle_rune_page_selection(&mut self)
        ensures
            final(self).rune_page_selection == !old(self).rune_page_selection,
            *final(self) == (GUI { rune_page_selection: !old(self).rune_page_selection, ..*old(self) }),
    {
        self.rune_page_selection = !self.rune_page_selection;
    }

    /// The selection plan the reconciliation loop works against: the named
    /// pick entries in order, the ban entry when it names a champion, and
    /// the rune-swap toggle. Rune-page templates are attached per poll by
    /// the caller.
    pub fn selection_plan(&self) -> (r: SelectionPlan)
        ensures
            r.picks@ == named_picks(self.champion_picks@),
            (r.ban is Some <==> (self.ban_picks matches Some(b) && b.1@.len() > 0)),
            self.ban_picks matches Some(b) ==> (b.1@.len() > 0 ==> r.ban == Some(b)),
            r.rune_swap_enabled == self.rune_page_selection,
            r.rune_pages is None,
    {
        let mut picks: Vec<(u32, String)> = Vec::new();
        let mut i: usize = 0;
        while i < self.champion_picks.len()
            invariant
                i <= self.champion_picks@.len(),
                picks@ == named_picks(self.champion_picks@.subrange(0, i as int)),
            decreases self.champion_picks@.len() - i,
        {
            let ghost prefix = self.champion_picks@.subrange(0, i as int);
            let ghost one = seq![self.champion_picks@[i as int]];
            if !self.champion_picks[i].1.as_str().is_empty() {
                let entry = (self.champion_picks[i].0, self.champion_picks[i].1.clone());
                picks.push(entry);
            }
            proof {
                assert(self.champion_picks@.subrange(0, i + 1) =~= prefix + one);
                lemma_named_picks_concat(prefix, one);
                assert(one.drop_first() =~= Seq::<(u32, String)>::empty());
                assert(named_picks(Seq::<(u32, String)>::empty()) =~= Seq::<(u32, String)>::empty());
                if one[0].1@.len() > 0 {
                    assert(named_picks(one) =~= one);
                } else {
                    assert(named_picks(one) =~= Seq::<(u32, String)>::empty());
                }
                assert(picks@ =~= named_picks(prefix) + named_picks(one));
            }
            i += 1;
        }
        proof {
            assert(self.champion_picks@.subrange(0, self.champion_picks@.len() as int)
                =~= self.champion_picks@);
        }
        let ban = match &self.ban_picks {
            Some(b) => {
                if !b.1.as_str().is_empty() {
                    Some((b.0, b.1.clone()))
                } else {
                    None
                }
            },
            None => None,
        };
        SelectionPlan {
            ban,
            picks,
            rune_swap_enabled: self.rune_page_selection,
            rune_pages: None,
        }
    }
}

} // verus!
