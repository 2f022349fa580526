use vstd::prelude::*;
use crate::ui::all_notes_count;
use crate::model::{Notebook, id_view, copy_id, known_count, notebooks_total};

verus! {

/// What a count event does to the counters it reaches.
#[derive(Debug, Clone, Copy, PartialEq, Eq, Structural)]
pub enum CountAction {
    Increase,
    Decrease,
    Reset,
}

/// A change in the number of notes of the notebook whose record id is `id`.
#[derive(Debug, Clone)]
pub struct CountEvent {
    pub id: String,
    pub action: CountAction,
}

impl PartialEq for CountEvent {
    fn eq(&self, other: &Self) -> (r: bool) {
        self.id == other.id && self.action == other.action
    }
}

impl vstd::std_specs::cmp::PartialEqSpecImpl for CountEvent {
    open spec fn obeys_eq_spec() -> bool {
        true
    }

    open spec fn eq_spec(&self, other: &Self) -> bool {
        self.id@ == other.id@ && self.action == other.action
    }
}

impl CountEvent {
    /// An event for the notebook `id`.
    pub fn new(id: String, action: CountAction) -> (e: CountEvent)
        ensures
            e.id@ == id@,
            e.action == action,
    {
        CountEvent { id, action }
    }
}

/// Whether an event about notebook `event_id` reaches the counter of
/// `notebook_id`; the counter without a notebook counts every note.
pub open spec fn event_applies(notebook_id: Option<Seq<char>>, event_id: Seq<char>) -> bool {
    match notebook_id {
        Some(id) => id == event_id,
        None => true,
    }
}

/// The count after `action` is carried out on `count`.
pub open spec fn action_result(count: int, action: CountAction) -> int {
    match action {
        CountAction::Increase => count + 1,
        CountAction::Decrease => count - 1,
        CountAction::Reset => 0,
    }
}

/// The count a counter of `notebook_id` shows after it has seen `event`.
pub open spec fn count_after(count: int, notebook_id: Option<Seq<char>>, event: Option<CountEvent>) -> int {
    match event {
        Some(e) => if event_applies(notebook_id, e.id@) {
            action_result(count, e.action)
        } else {
            count
        },
        None => count,
    }
}

/// The note counter shown beside a notebook (or, without a notebook id, beside
/// "All Notes"), which follows the count events it is sent.
pub struct Counter {
    pub count: u32,
    pub notebook_id: Option<String>,
}

impl Counter {
    /// A counter that starts at `initial_count`.
    pub fn new(initial_count: u32, notebook_id: Option<String>) -> (c: Counter)
        ensures
            c.count == initial_count,
            id_view(c.notebook_id) == id_view(notebook_id),
    {
        Counter { count: initial_count, notebook_id }
    }

    /// The counter shown beside `notebook`: it starts at the notebook's known
    /// note count, 0 when unknown.
    pub fn for_notebook(notebook: &Notebook) -> (c: Counter)
        ensures
            c.count == known_count(*notebook),
            id_view(c.notebook_id) == id_view(notebook.id),
    {
        let initial = match notebook.count {
            Some(n) => n,
            None => 0,
        };
        Counter::new(initial, copy_id(&notebook.id))
    }

    /// The counter shown beside "All Notes": it starts at the sum of the known
    /// note counts of every notebook.
    pub fn for_all_notes(notebooks: &Vec<Notebook>) -> (c: Counter)
        requires
            notebooks_total(notebooks@) <= u32::MAX,
        ensures
            c.count == notebooks_total(notebooks@),
            c.notebook_id is None,
    {
        Counter::new(all_notes_count(notebooks), None)
    }

    /// Whether carrying out `event` leaves the count within a `u32`: it does
    /// except for an increase at `u32::MAX` or a decrease at 0.
    pub fn can_update(&self, event: &Option<CountEvent>) -> (r: bool)
        ensures
            r == (0 <= count_after(self.count as int, id_view(self.notebook_id), *event) <= u32::MAX),
    {
        match event {
            Some(count_event) => {
                let applies = match &self.notebook_id {
                    Some(notebook_id) => *notebook_id == count_event.id,
                    None => true,
                };
                if applies {
                    match count_event.action {
                        CountAction::Increase => self.count < u32::MAX,
                        CountAction::Decrease => self.count > 0,
                        CountAction::Reset => true,
                    }
                } else {
                    true
                }
            },
            None => true,
        }
    }

    /// Carries out the latest count event, if it concerns this counter, and
    /// returns the count to show.
    pub fn update(&mut self, event: &Option<CountEvent>) -> (shown: u32)
        requires
            0 <= count_after(old(self).count as int, id_view(old(self).notebook_id), *event) <= u32::MAX,
        ensures
            final(self).count == count_after(old(self).count as int, id_view(old(self).notebook_id), *event),
            id_view(final(self).notebook_id) == id_view(old(self).notebook_id),
            shown == final(self).count,
    {
        if let Some(count_event) = event {
            let applies = match &self.notebook_id {
                Some(notebook_id) => *notebook_id == count_event.id,
                None => true,
            };
            if applies {
                match count_event.action {
                    CountAction::Increase => self.count = self.count + 1,
                    CountAction::Decrease => self.count = self.count - 1,
                    CountAction::Reset => self.count = 0,
                }
            }
        }
        self.count
    }
}


/// The sum of a sequence of counts.
pub open spec fn sum_of(counts: Seq<int>) -> int
    decreases counts.len(),
{
    if counts.len() == 0 {
        0
    } else {
        sum_of(counts.drop_last()) + counts.last()
    }
}

/// The counts a row of counters shows.
pub open spec fn shown_counts(counters: Seq<Counter>) -> Seq<int> {
    counters.map_values(|c: Counter| c.count as int)
}

/// The counts a row of counters shows once each has seen `event`.
pub open spec fn counts_after_event(counters: Seq<Counter>, event: Option<CountEvent>) -> Seq<int> {
    counters.map_values(|c: Counter| count_after(c.count as int, id_view(c.notebook_id), event))
}

/// Changing one entry of a sequence changes its sum by the same amount.
proof fn lemma_sum_one_changed(s: Seq<int>, t: Seq<int>, k: int)
    requires
        s.len() == t.len(),
        0 <= k < s.len(),
        forall|i: int| 0 <= i < s.len() && i != k ==> s[i] == t[i],
    ensures
        sum_of(t) == sum_of(s) + (t[k] - s[k]),
    decreases s.len(),
{
    if k == s.len() - 1 {
        assert(s.drop_last() =~= t.drop_last());
    } else {
        lemma_sum_one_changed(s.drop_last(), t.drop_last(), k);
    }
}

/// A note counted and then uncounted in the same notebook leaves every counter
/// where it was.
pub proof fn law_increase_then_decrease(
    count: int,
    notebook_id: Option<Seq<char>>,
    added: CountEvent,
    removed: CountEvent,
)
    requires
        added.action == CountAction::Increase,
        removed.action == CountAction::Decrease,
        added.id@ == removed.id@,
    ensures
        count_after(count_after(count, notebook_id, Some(added)), notebook_id, Some(removed)) == count,
{
}

/// A counter of one notebook ignores every event about another notebook, and
/// ignores the absence of an event.
pub proof fn law_other_notebooks_ignored(count: int, notebook_id: Seq<char>, event: CountEvent)
    requires
        event.id@ != notebook_id,
    ensures
        count_after(count, Some(notebook_id), Some(event)) == count,
        count_after(count, Some(notebook_id), None) == count,
{
}

/// The counter without a notebook carries out every event, whichever notebook
/// it concerns.
pub proof fn law_all_notes_counter_sees_every_event(count: int, event: CountEvent)
    ensures
        count_after(count, None, Some(event)) == action_result(count, event.action),
        event.action == CountAction::Increase ==> count_after(count, None, Some(event)) == count + 1,
        event.action == CountAction::Decrease ==> count_after(count, None, Some(event)) == count - 1,
        event.action == CountAction::Reset ==> count_after(count, None, Some(event)) == 0,
{
}

/// A notebook's counter goes up by one on an increase for that notebook, down
/// by one on a decrease, and to zero on a reset.
pub proof fn law_own_events_step_the_counter(count: int, notebook_id: Seq<char>, event: CountEvent)
    requires
        event.id@ == notebook_id,
    ensures
        event.action == CountAction::Increase ==> count_after(count, Some(notebook_id), Some(event)) == count + 1,
        event.action == CountAction::Decrease ==> count_after(count, Some(notebook_id), Some(event)) == count - 1,
        event.action == CountAction::Reset ==> count_after(count, Some(notebook_id), Some(event)) == 0,
{
}

/// Counters that start at the known counts of a row of notebooks show, in
/// sum, the total that "All Notes" starts at.
pub proof fn law_initial_counters_sum_to_total(notebooks: Seq<Notebook>, counters: Seq<Counter>)
    requires
        counters.len() == notebooks.len(),
        forall|i: int| 0 <= i < counters.len() ==> #[trigger] counters[i].count == known_count(notebooks[i]),
    ensures
        sum_of(shown_counts(counters)) == notebooks_total(notebooks),
    decreases notebooks.len(),
{
    if notebooks.len() > 0 {
        let n = (notebooks.len() - 1) as int;
        assert(shown_counts(counters).drop_last() =~= shown_counts(counters.drop_last()));
        law_initial_counters_sum_to_total(notebooks.drop_last(), counters.drop_last());
        assert(counters[n].count == known_count(notebooks[n]));
    }
}

/// When the "All Notes" counter shows the sum of the notebook counters, and an
/// event adds or removes a note of exactly one of those notebooks, it still
/// shows that sum once every counter has seen the event.
pub proof fn law_total_follows_notebook_counters(
    total: int,
    counters: Seq<Counter>,
    event: CountEvent,
    k: int,
)
    requires
        total == sum_of(shown_counts(counters)),
        event.action != CountAction::Reset,
        0 <= k < counters.len(),
        id_view(counters[k].notebook_id) == Some(event.id@),
        forall|i: int|
            0 <= i < counters.len() && i != k ==> #[trigger] counters[i].notebook_id is Some
                && id_view(counters[i].notebook_id) != Some(event.id@),
    ensures
        count_after(total, None, Some(event)) == sum_of(counts_after_event(counters, Some(event))),
{
    let s = shown_counts(counters);
    let t = counts_after_event(counters, Some(event));
    assert forall|i: int| 0 <= i < s.len() && i != k implies s[i] == t[i] by {
        assert(counters[i].notebook_id is Some);
    }
    lemma_sum_one_changed(s, t, k);
}

} // verus!
