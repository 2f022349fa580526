use vstd::prelude::*;
use crate::model::{Note, Notebook, id_view, copy_id, is_all_notebook, same_id, notebooks_total};
use crate::count::{CountAction, CountEvent, count_after};

verus! {

// ---- what is selected ----

/// The notebook and the note that the user has selected.
pub struct Selection {
    pub notebook: Option<Notebook>,
    pub note: Option<Note>,
}

/// The selection after the user clicks `notebook`: a notebook with another id
/// than the selected one becomes selected and the selected note is dropped;
/// with no notebook selected, the notebook becomes selected and the note stays;
/// a notebook with the selected id changes nothing.
pub open spec fn after_choosing(s: Selection, notebook: Notebook) -> Selection {
    match s.notebook {
        Some(selected) => if id_view(selected.id) != id_view(notebook.id) {
            Selection { notebook: Some(notebook), note: None }
        } else {
            s
        },
        None => Selection { notebook: Some(notebook), note: s.note },
    }
}

/// Whether two optional notebooks are equal field by field.
pub open spec fn same_notebook(a: Option<Notebook>, b: Option<Notebook>) -> bool {
    match (a, b) {
        (Some(x), Some(y)) => id_view(x.id) == id_view(y.id) && x.name@ == y.name@ && x.count == y.count,
        (None, None) => true,
        _ => false,
    }
}

/// The selection after the selected notebook is set to `notebook` directly
/// (the single-page front end): whenever the value changes, the selected note
/// is dropped, also when nothing was selected before.
pub open spec fn after_setting_notebook(s: Selection, notebook: Option<Notebook>) -> Selection {
    Selection {
        notebook,
        note: if same_notebook(s.notebook, notebook) { s.note } else { None },
    }
}

/// Compares two optional notebooks field by field.
fn notebooks_equal(a: &Option<Notebook>, b: &Option<Notebook>) -> (r: bool)
    ensures
        r == same_notebook(*a, *b),
{
    match (a, b) {
        (Some(x), Some(y)) => same_id(&x.id, &y.id) && x.name == y.name && x.count == y.count,
        (None, None) => true,
        _ => false,
    }
}

impl Selection {
    /// Nothing selected.
    pub fn new() -> (s: Selection)
        ensures
            s.notebook is None,
            s.note is None,
    {
        Selection { notebook: None, note: None }
    }

    /// The user clicks a notebook in the list.
    pub fn choose_notebook(&mut self, notebook: Notebook)
        ensures
            *final(self) == after_choosing(*old(self), notebook),
            old(self).notebook is None ==> final(self).notebook == Some(notebook)
                && final(self).note == old(self).note,
            old(self).notebook matches Some(sel) && id_view(sel.id) != id_view(notebook.id)
                ==> final(self).notebook == Some(notebook) && final(self).note is None,
            old(self).notebook matches Some(sel) && id_view(sel.id) == id_view(notebook.id)
                ==> *final(self) == *old(self),
    {
        let replace = match &self.notebook {
            Some(selected) => !same_id(&selected.id, &notebook.id),
            None => true,
        };
        if replace {
            if self.notebook.is_some() {
                self.note = None;
            }
            self.notebook = Some(notebook);
        }
    }

    /// The selected notebook is set to `notebook`, and a change of it drops the
    /// selected note. This is how the single-page front end keeps its
    /// selection; the notebook list with its items uses `choose_notebook`.
    pub fn set_notebook(&mut self, notebook: Option<Notebook>)
        ensures
            *final(self) == after_setting_notebook(*old(self), notebook),
    {
        if !notebooks_equal(&self.notebook, &notebook) {
            self.note = None;
        }
        self.notebook = notebook;
    }

    /// The user clicks "All Notes".
    pub fn choose_all_notes(&mut self)
        ensures
            exists|all: Notebook| is_all_notebook(all) && *final(self) == after_choosing(*old(self), all),
    {
        let all = Notebook::all();
        proof {
            assert(is_all_notebook(all));
        }
        self.choose_notebook(all);
    }

    /// The user clicks a note in the list.
    pub fn choose_note(&mut self, note: Note)
        ensures
            final(self).notebook == old(self).notebook,
            final(self).note == Some(note),
    {
        self.note = Some(note);
    }

    /// The selected note is dropped (after it was deleted).
    pub fn drop_note(&mut self)
        ensures
            final(self).notebook == old(self).notebook,
            final(self).note is None,
    {
        self.note = None;
    }
}

// ---- how list items are drawn ----

/// Class of a notebook item that is selected.
pub open spec fn selected_notebook_style() -> Seq<char> {
    "flex flex-row content-center items-center bg-gray-900 pl-4"@
}

/// Class of a notebook item that is not selected.
pub open spec fn unselected_notebook_style() -> Seq<char> {
    "flex flex-row content-center items-center pl-4"@
}

/// Class of a note item that is selected.
pub open spec fn selected_note_style() -> Seq<char> {
    "w-full flex flex-col pl-2 bg-gray-900 border-t border-gray-600 select-none w-64 max-w-64"@
}

/// Class of a note item that is not selected.
pub open spec fn unselected_note_style() -> Seq<char> {
    "w-full flex flex-col pl-2 border-t border-gray-600 select-none w-64 max-w-64"@
}

/// Class of the "All Notes" item when it is selected.
pub open spec fn selected_all_style() -> Seq<char> {
    "flex flex-row content-center items-center bg-gray-900"@
}

/// Class of the "All Notes" item when it is not selected.
pub open spec fn unselected_all_style() -> Seq<char> {
    "flex flex-row content-center items-center"@
}

/// The class of the notebook item with id `notebook_id`.
pub fn notebook_item_style(selected: &Option<Notebook>, notebook_id: &Option<String>) -> (c: &'static str)
    ensures
        c@ == (if selected matches Some(nb) && id_view(nb.id) == id_view(*notebook_id) {
            selected_notebook_style()
        } else {
            unselected_notebook_style()
        }),
{
    let chosen = match selected {
        Some(nb) => same_id(&nb.id, notebook_id),
        None => false,
    };
    if chosen {
        "flex flex-row content-center items-center bg-gray-900 pl-4"
    } else {
        "flex flex-row content-center items-center pl-4"
    }
}

/// The class of the note item with id `note_id`.
pub fn note_item_style(selected: &Option<Note>, note_id: &Option<String>) -> (c: &'static str)
    ensures
        c@ == (if selected matches Some(n) && id_view(n.id) == id_view(*note_id) {
            selected_note_style()
        } else {
            unselected_note_style()
        }),
{
    let chosen = match selected {
        Some(n) => same_id(&n.id, note_id),
        None => false,
    };
    if chosen {
        "w-full flex flex-col pl-2 bg-gray-900 border-t border-gray-600 select-none w-64 max-w-64"
    } else {
        "w-full flex flex-col pl-2 border-t border-gray-600 select-none w-64 max-w-64"
    }
}

/// The class of the "All Notes" item: selected when the selected notebook has
/// no record id.
pub fn all_notes_style(selected: &Option<Notebook>) -> (c: &'static str)
    ensures
        c@ == (if selected matches Some(nb) && nb.id is None {
            selected_all_style()
        } else {
            unselected_all_style()
        }),
{
    let chosen = match selected {
        Some(nb) => nb.id.is_none(),
        None => false,
    };
    if chosen {
        "flex flex-row content-center items-center bg-gray-900"
    } else {
        "flex flex-row content-center items-center"
    }
}


// ---- the notes bar ----

/// Which notes the notes bar lists: for a selected notebook, the summaries of
/// the notebook with its id (every note when it has none); with no notebook
/// selected, none, and nothing is fetched.
pub fn summaries_source(selected: &Option<Notebook>) -> (r: Option<Option<String>>)
    ensures
        selected is None ==> r is None,
        selected matches Some(nb) ==> r matches Some(id) && id_view(id) == id_view(nb.id),
{
    match selected {
        Some(nb) => Some(copy_id(&nb.id)),
        None => None,
    }
}

/// Whether the notes bar offers to add a note: always, except while the
/// "All Notes" pseudo notebook is selected.
pub fn can_add_note(selected: &Option<Notebook>) -> (r: bool)
    ensures
        r == !(*selected matches Some(nb) && is_all_notebook(nb)),
{
    match selected {
        Some(nb) => !nb.is_all(),
        None => true,
    }
}

/// What adding a note to `selected` sends: for a notebook with a record id, a
/// new empty note of that notebook and an increase of its note count; for one
/// without, nothing.
pub open spec fn is_add_note_request(selected: Notebook, request: Option<(Note, CountEvent)>) -> bool {
    match selected.id {
        Some(id) => match request {
            Some((note, event)) => {
                &&& note.id is None
                &&& note.title@ == Seq::<char>::empty()
                &&& note.content@ == Seq::<char>::empty()
                &&& note.notebook@ == id@
                &&& event.id@ == id@
                &&& event.action == CountAction::Increase
            },
            None => false,
        },
        None => request is None,
    }
}

/// The user asks for a new note in the selected notebook.
pub fn add_note_request(selected: &Option<Notebook>) -> (r: Option<(Note, CountEvent)>)
    requires
        selected is Some,
    ensures
        is_add_note_request(selected->Some_0, r),
        selected->Some_0.id is None ==> r is None,
        selected->Some_0.id matches Some(id) ==> r matches Some((note, event)) && {
            &&& note.id is None
            &&& note.title@.len() == 0
            &&& note.content@.len() == 0
            &&& note.notebook@ == id@
            &&& event.id@ == id@
            &&& event.action == CountAction::Increase
        },
{
    match selected {
        Some(nb) => match &nb.id {
            Some(id) => Some((Note::new(id.clone()), CountEvent::new(id.clone(), CountAction::Increase))),
            None => None,
        },
        None => None,
    }
}

// ---- the note view ----

/// The record id of the note to load in full: that of the selected note, when
/// a note with an id is selected.
pub fn note_to_load(selected: &Option<Note>) -> (r: Option<String>)
    ensures
        id_view(r) == (match selected {
            Some(n) => id_view(n.id),
            None => None,
        }),
{
    match selected {
        Some(n) => copy_id(&n.id),
        None => None,
    }
}

/// The title and content the note editor starts with once the full note has
/// been loaded: the note's own.
pub fn editor_fields(note: &Note) -> (r: (String, String))
    ensures
        r.0@ == note.title@,
        r.1@ == note.content@,
{
    (note.title.clone(), note.content.clone())
}

/// Whether "Save" is disabled: when neither title nor content was edited, or
/// the edited title is empty.
pub fn save_disabled(note: &Note, new_title: &String, new_content: &String) -> (r: bool)
    ensures
        r == ((note.title@ == new_title@ && note.content@ == new_content@) || new_title@.len() == 0),
{
    (note.title == *new_title && note.content == *new_content) || new_title.as_str().is_empty()
}

/// The note that "Save" stores: the loaded note with the edited title and content.
pub fn edited_note(note: &Note, new_title: String, new_content: String) -> (r: Note)
    ensures
        id_view(r.id) == id_view(note.id),
        r.notebook@ == note.notebook@,
        r.title@ == new_title@,
        r.content@ == new_content@,
{
    Note { id: copy_id(&note.id), title: new_title, content: new_content, notebook: note.notebook.clone() }
}

/// What deleting `note` sends: for a stored note, its record id and a
/// decrease of its notebook's note count; for an unsaved one, nothing.
pub open spec fn is_delete_note_request(note: Note, request: Option<(String, CountEvent)>) -> bool {
    match note.id {
        Some(id) => match request {
            Some((rid, event)) => {
                &&& rid@ == id@
                &&& event.id@ == note.notebook@
                &&& event.action == CountAction::Decrease
            },
            None => false,
        },
        None => request is None,
    }
}

/// The user deletes the note shown.
pub fn delete_note_request(note: &Note) -> (r: Option<(String, CountEvent)>)
    ensures
        is_delete_note_request(*note, r),
        note.id is None ==> r is None,
        note.id matches Some(id) ==> r matches Some((rid, event)) && {
            &&& rid@ == id@
            &&& event.id@ == note.notebook@
            &&& event.action == CountAction::Decrease
        },
{
    match &note.id {
        Some(id) => Some((id.clone(), CountEvent::new(note.notebook.clone(), CountAction::Decrease))),
        None => None,
    }
}

// ---- the notebook bar ----

/// What a key pressed in the new-notebook field does.
pub enum KeyOutcome {
    /// Store this new notebook and close the field.
    Submit(Notebook),
    /// Close the field.
    Cancel,
    /// Nothing.
    Ignore,
}

/// The outcome of pressing `key` in the new-notebook field whose text is
/// `input` (absent when the field is not on screen): "Enter" submits a new
/// notebook of that name, "Escape" closes the field, any other key does nothing.
pub fn key_outcome(key: &String, input: Option<String>) -> (r: KeyOutcome)
    ensures
        key@ == "Enter"@ ==> match input {
            Some(name) => r matches KeyOutcome::Submit(nb) && nb.id is None && nb.count is None
                && nb.name@ == name@,
            None => r is Ignore,
        },
        key@ == "Escape"@ ==> r is Cancel,
        key@ != "Enter"@ && key@ != "Escape"@ ==> r is Ignore,
{
    proof {
        reveal_strlit("Enter");
        reveal_strlit("Escape");
        assert("Escape"@[1] != "Enter"@[1]);
    }
    if *key == String::from_str("Enter") {
        match input {
            Some(name) => KeyOutcome::Submit(Notebook { id: None, name, count: None }),
            None => KeyOutcome::Ignore,
        }
    } else if *key == String::from_str("Escape") {
        KeyOutcome::Cancel
    } else {
        KeyOutcome::Ignore
    }
}

proof fn lemma_total_of_prefix(notebooks: Seq<Notebook>, i: int)
    requires
        0 <= i <= notebooks.len(),
    ensures
        0 <= notebooks_total(notebooks.take(i)) <= notebooks_total(notebooks),
    decreases notebooks.len(),
{
    if i == notebooks.len() {
        assert(notebooks.take(i) =~= notebooks);
        if notebooks.len() > 0 {
            lemma_total_of_prefix(notebooks.drop_last(), i - 1);
            assert(notebooks.drop_last().take(i - 1) =~= notebooks.drop_last());
        }
    } else {
        lemma_total_of_prefix(notebooks.drop_last(), i);
        assert(notebooks.drop_last().take(i) =~= notebooks.take(i));
    }
}

/// The count shown beside "All Notes": the sum of the known counts of every
/// notebook.
pub fn all_notes_count(notebooks: &Vec<Notebook>) -> (total: u32)
    requires
        notebooks_total(notebooks@) <= u32::MAX,
    ensures
        total == notebooks_total(notebooks@),
{
    let mut total: u32 = 0;
    let mut i: usize = 0;
    while i < notebooks.len()
        invariant
            i <= notebooks.len(),
            total == notebooks_total(notebooks@.take(i as int)),
            notebooks_total(notebooks@) <= u32::MAX,
        decreases notebooks.len() - i,
    {
        proof {
            assert(notebooks@.take(i + 1).drop_last() =~= notebooks@.take(i as int));
            lemma_total_of_prefix(notebooks@, i + 1);
        }
        let c: u32 = match notebooks[i].count {
            Some(c) => c,
            None => 0,
        };
        total = total + c;
        i = i + 1;
    }
    assert(notebooks@.take(notebooks.len() as int) =~= notebooks@);
    total
}


/// What the notebook bar's own events change: whether the new-notebook field
/// is open, and the latest count event that the note counters are sent.
pub struct NotebookBarState {
    pub creating: bool,
    pub count_event: Option<CountEvent>,
}

impl NotebookBarState {
    /// The bar as first shown: field closed, no count event.
    pub fn new() -> (s: NotebookBarState)
        ensures
            !s.creating,
            s.count_event is None,
    {
        NotebookBarState { creating: false, count_event: None }
    }

    /// The user clicks "add notebook": the field opens.
    pub fn open_field(&mut self)
        ensures
            final(self).creating,
            final(self).count_event == old(self).count_event,
    {
        self.creating = true;
    }

    /// The user presses `key` in the new-notebook field, whose text is `input`
    /// (absent when the field is not on screen). "Enter" with a field returns
    /// the new notebook to store, clears the pending count event (so that the
    /// counters rebuilt for the new list replay nothing) and closes the field;
    /// "Escape" closes the field; anything else changes nothing.
    pub fn press_key(&mut self, key: &String, input: Option<String>) -> (stored: Option<Notebook>)
        ensures
            key@ == "Enter"@ ==> match input {
                Some(name) => {
                    &&& stored matches Some(nb) && nb.id is None && nb.count is None && nb.name@ == name@
                    &&& !final(self).creating
                    &&& final(self).count_event is None
                },
                None => stored is None && *final(self) == *old(self),
            },
            key@ == "Escape"@ ==> {
                &&& stored is None
                &&& !final(self).creating
                &&& final(self).count_event == old(self).count_event
            },
            key@ != "Enter"@ && key@ != "Escape"@ ==> stored is None && *final(self) == *old(self),
    {
        match key_outcome(key, input) {
            KeyOutcome::Submit(notebook) => {
                self.count_event = None;
                self.creating = false;
                Some(notebook)
            },
            KeyOutcome::Cancel => {
                self.creating = false;
                None
            },
            KeyOutcome::Ignore => None,
        }
    }
}

/// Whether the sum of the known counts of `notebooks` fits in a `u32`.
pub fn notebooks_total_fits(notebooks: &Vec<Notebook>) -> (r: bool)
    ensures
        r == (notebooks_total(notebooks@) <= u32::MAX),
{
    let mut total: u64 = 0;
    let mut i: usize = 0;
    while i < notebooks.len()
        invariant
            i <= notebooks.len(),
            total == notebooks_total(notebooks@.take(i as int)),
            total <= u32::MAX,
        decreases notebooks.len() - i,
    {
        proof {
            assert(notebooks@.take(i + 1).drop_last() =~= notebooks@.take(i as int));
        }
        let c: u64 = match notebooks[i].count {
            Some(c) => c as u64,
            None => 0,
        };
        total = total + c;
        i = i + 1;
        if total > 0xffff_ffff {
            proof {
                lemma_total_of_prefix(notebooks@, i as int);
            }
            return false;
        }
    }
    assert(notebooks@.take(notebooks.len() as int) =~= notebooks@);
    true
}

// ---- the loading indicator ----

/// Classes every loading indicator has.
pub open spec fn loading_base_class() -> Seq<char> {
    "bg-gray-800 flex items-center justify-center p-8 gap-4 text-gray-400 text-lg"@
}

/// The class of a loading indicator: the common classes, a space, and the
/// size, the whole screen or the enclosing box.
pub fn loading_class(fullscreen: bool) -> (c: String)
    ensures
        c@ == loading_base_class() + " "@ + (if fullscreen { "h-screen w-screen"@ } else { "h-full w-full"@ }),
{
    let wh = if fullscreen {
        "h-screen w-screen"
    } else {
        "h-full w-full"
    };
    let base = String::from_str("bg-gray-800 flex items-center justify-center p-8 gap-4 text-gray-400 text-lg");
    base.concat(" ").concat(wh)
}

// ---- laws ----

/// Clicking the same notebook twice selects what one click selects.
pub proof fn law_choosing_twice_is_choosing_once(s: Selection, notebook: Notebook)
    ensures
        after_choosing(after_choosing(s, notebook), notebook) == after_choosing(s, notebook),
{
}

/// After a click on a notebook, a notebook with the clicked record id is
/// selected; when another notebook was selected before, no note is.
pub proof fn law_choosing_selects_clicked_notebook(s: Selection, notebook: Notebook)
    ensures
        after_choosing(s, notebook).notebook matches Some(nb) && id_view(nb.id) == id_view(notebook.id),
        s.notebook matches Some(old_nb) && id_view(old_nb.id) != id_view(notebook.id) ==> {
            &&& after_choosing(s, notebook).notebook == Some(notebook)
            &&& after_choosing(s, notebook).note is None
        },
        s.notebook is None ==> {
            &&& after_choosing(s, notebook).notebook == Some(notebook)
            &&& after_choosing(s, notebook).note == s.note
        },
        s.notebook matches Some(old_nb) && id_view(old_nb.id) == id_view(notebook.id)
            ==> after_choosing(s, notebook) == s,
{
}

/// Adding a note to a notebook with a record id sends a new empty note of
/// exactly that notebook, and an increase for exactly that notebook.
pub proof fn law_added_note_belongs_to_selected_notebook(
    selected: Notebook,
    request: Option<(Note, CountEvent)>,
)
    requires
        is_add_note_request(selected, request),
    ensures
        selected.id is None ==> request is None,
        selected.id matches Some(id) ==> request matches Some((note, event)) && {
            &&& note.id is None
            &&& note.title@.len() == 0
            &&& note.content@.len() == 0
            &&& note.notebook@ == id@
            &&& event.id@ == id@
            &&& event.action == CountAction::Increase
        },
{
}

/// Deleting a stored note sends its whole record id, and a decrease for the
/// notebook it belongs to; an unsaved note sends nothing.
pub proof fn law_deleted_note_is_the_shown_note(note: Note, request: Option<(String, CountEvent)>)
    requires
        is_delete_note_request(note, request),
    ensures
        note.id is None ==> request is None,
        note.id matches Some(id) ==> request matches Some((rid, event)) && {
            &&& rid@ == id@
            &&& event.id@ == note.notebook@
            &&& event.action == CountAction::Decrease
        },
{
}

/// Setting the notebook directly selects exactly the given value; the note
/// stays only when the value is unchanged field by field, and is dropped when
/// the record id changes or a notebook is set where none was.
pub proof fn law_setting_notebook(s: Selection, notebook: Option<Notebook>)
    ensures
        after_setting_notebook(s, notebook).notebook == notebook,
        s.notebook == notebook ==> after_setting_notebook(s, notebook).note == s.note,
        s.notebook is None && notebook is Some ==> after_setting_notebook(s, notebook).note is None,
        s.notebook matches Some(a) && notebook matches Some(b) && id_view(a.id) != id_view(b.id)
            ==> after_setting_notebook(s, notebook).note is None,
        s.notebook matches Some(a) && notebook matches Some(b) && a.name@ != b.name@
            ==> after_setting_notebook(s, notebook).note is None,
{
}

/// A note added to a notebook and then deleted leaves every counter where it
/// was.
pub proof fn law_add_then_delete_restores_counters(
    selected: Notebook,
    added: Note,
    increase: CountEvent,
    stored: Note,
    stored_id: String,
    decrease: CountEvent,
    count: int,
    counter_notebook: Option<Seq<char>>,
)
    requires
        is_add_note_request(selected, Some((added, increase))),
        stored.notebook@ == added.notebook@,
        is_delete_note_request(stored, Some((stored_id, decrease))),
    ensures
        count_after(count_after(count, counter_notebook, Some(increase)), counter_notebook, Some(decrease))
            == count,
{
}

} // verus!
