use vstd::prelude::*;

verus! {

/// A note: its record id (absent before the first save), title, content and
/// the record id of the notebook it belongs to.
#[derive(Debug, Clone, PartialEq, Eq)]
pub struct Note {
    pub id: Option<String>,
    pub title: String,
    pub content: String,
    pub notebook: String,
}

/// A notebook: its record id (absent for the "all notes" pseudo notebook and
/// for a notebook not yet stored), its name and, once known, its note count.
#[derive(Debug, Clone, PartialEq, Eq)]
pub struct Notebook {
    pub id: Option<String>,
    pub name: String,
    pub count: Option<u32>,
}

/// One row of the per-notebook note count query.
#[derive(Debug, Clone, PartialEq, Eq)]
pub struct NotebookNoteCount {
    pub id: String,
    pub count: u32,
}

/// An optional record id, taken by the characters it holds.
pub open spec fn id_view(id: Option<String>) -> Option<Seq<char>> {
    match id {
        Some(s) => Some(s@),
        None => None,
    }
}

/// The name under which the pseudo notebook that stands for every note is shown.
pub open spec fn all_notes_name() -> Seq<char> {
    "All Notes"@
}

/// Whether a notebook is, field by field, the "all notes" pseudo notebook.
pub open spec fn is_all_notebook(nb: Notebook) -> bool {
    &&& nb.id is None
    &&& nb.name@ == all_notes_name()
    &&& nb.count is None
}

/// Compares two optional record ids by their characters.
pub fn same_id(a: &Option<String>, b: &Option<String>) -> (r: bool)
    ensures
        r == (id_view(*a) == id_view(*b)),
{
    match (a, b) {
        (Some(x), Some(y)) => *x == *y,
        (None, None) => true,
        _ => false,
    }
}

/// Copies an optional record id.
pub fn copy_id(id: &Option<String>) -> (r: Option<String>)
    ensures
        id_view(r) == id_view(*id),
{
    match id {
        Some(s) => Some(s.clone()),
        None => None,
    }
}

/// The note count of a notebook, 0 when unknown.
pub open spec fn known_count(nb: Notebook) -> int {
    match nb.count {
        Some(c) => c as int,
        None => 0,
    }
}

/// The sum of the known note counts of `notebooks`.
pub open spec fn notebooks_total(notebooks: Seq<Notebook>) -> int
    decreases notebooks.len(),
{
    if notebooks.len() == 0 {
        0
    } else {
        notebooks_total(notebooks.drop_last()) + known_count(notebooks.last())
    }
}

impl Notebook {
    /// The pseudo notebook that stands for every note: no id, no count.
    pub fn all() -> (nb: Notebook)
        ensures
            is_all_notebook(nb),
    {
        Notebook { id: None, name: String::from_str("All Notes"), count: None }
    }

    /// Whether this notebook equals the "all notes" pseudo notebook.
    pub fn is_all(&self) -> (r: bool)
        ensures
            r == is_all_notebook(*self),
    {
        let all = Notebook::all();
        self.id.is_none() && self.count.is_none() && self.name == all.name
    }

    /// A copy of this notebook, field by field.
    pub fn duplicate(&self) -> (r: Notebook)
        ensures
            id_view(r.id) == id_view(self.id),
            r.name@ == self.name@,
            r.count == self.count,
    {
        Notebook { id: copy_id(&self.id), name: self.name.clone(), count: self.count }
    }
}

impl Note {
    /// A fresh, unsaved note in the given notebook, with empty title and content.
    pub fn new(notebook: String) -> (n: Note)
        ensures
            n.id is None,
            n.title@ == Seq::<char>::empty(),
            n.content@ == Seq::<char>::empty(),
            n.notebook@ == notebook@,
    {
        Note { id: None, title: String::new(), content: String::new(), notebook }
    }

    /// A copy of this note, field by field.
    pub fn duplicate(&self) -> (r: Note)
        ensures
            id_view(r.id) == id_view(self.id),
            r.title@ == self.title@,
            r.content@ == self.content@,
            r.notebook@ == self.notebook@,
    {
        Note {
            id: copy_id(&self.id),
            title: self.title.clone(),
            content: self.content.clone(),
            notebook: self.notebook.clone(),
        }
    }
}

} // verus!
