use vstd::prelude::*;
use crate::model::{Note, Notebook, NotebookNoteCount, id_view, copy_id};

verus! {

/// An error that a server function reports to its caller.
#[derive(Debug, Clone)]
pub enum ServerFnError {
    ServerError(String),
}

/// Whether `error` is a server error whose message is `message`.
pub open spec fn error_says(error: ServerFnError, message: Seq<char>) -> bool {
    match error {
        ServerFnError::ServerError(m) => m@ == message,
    }
}

/// Message of the error reported when the database names no stored record.
pub open spec fn no_record_id_message() -> Seq<char> {
    "couldnt get id"@
}

/// Message of the error reported when a notebook id is not a record id.
pub open spec fn bad_notebook_id_message() -> Seq<char> {
    "error making thing"@
}

/// Message of the error reported when no note was found.
pub open spec fn missing_note_message() -> Seq<char> {
    "couldn't get note"@
}

// ---- statements that store a note or a notebook ----

/// Statement that overwrites a stored note.
pub open spec fn update_note_statement() -> Seq<char> {
    "UPDATE ONLY type::thing($id) SET notebook = type::thing($notebook), title = $title, content = $content;"@
}

/// Statement that stores a new note.
pub open spec fn create_note_statement() -> Seq<char> {
    "CREATE note SET notebook = type::thing($notebook), title = $title, content = $content;"@
}

/// Statement that renames a stored notebook.
pub open spec fn update_notebook_statement() -> Seq<char> {
    "UPDATE ONLY type::thing($id) SET name = $name"@
}

/// Statement that stores a new notebook.
pub open spec fn create_notebook_statement() -> Seq<char> {
    "CREATE notebook SET name = $name;"@
}

/// The statement that stores `note`: an update when it already has a record
/// id (bound as `$id`), a creation otherwise.
pub fn note_upsert_statement(note: &Note) -> (q: &'static str)
    ensures
        q@ == (if note.id is Some { update_note_statement() } else { create_note_statement() }),
{
    if note.id.is_some() {
        "UPDATE ONLY type::thing($id) SET notebook = type::thing($notebook), title = $title, content = $content;"
    } else {
        "CREATE note SET notebook = type::thing($notebook), title = $title, content = $content;"
    }
}

/// The statement that stores `notebook`: an update when it already has a
/// record id (bound as `$id`), a creation otherwise.
pub fn notebook_upsert_statement(notebook: &Notebook) -> (q: &'static str)
    ensures
        q@ == (if notebook.id is Some { update_notebook_statement() } else { create_notebook_statement() }),
{
    if notebook.id.is_some() {
        "UPDATE ONLY type::thing($id) SET name = $name"
    } else {
        "CREATE notebook SET name = $name;"
    }
}

// ---- statements that read or delete ----

/// Statement that lists every notebook of table `$table` by id and name.
pub open spec fn notebooks_statement() -> Seq<char> {
    "SELECT type::string(id) as id, type::string(name) as name FROM type::table($table)"@
}

/// Statement that counts the notes of table `$table` per notebook.
pub open spec fn note_counts_statement() -> Seq<char> {
    "SELECT type::string(notebook) as id, count(id) as count FROM type::table($table) GROUP BY id"@
}

/// Statement that reads the note `$note_id` of notebook `$notebook_id`.
pub open spec fn note_statement() -> Seq<char> {
    "SELECT * FROM $table WHERE notebook=$notebook_id AND id=$note_id"@
}

/// Statement that deletes the note `$note_id`.
pub open spec fn delete_note_statement() -> Seq<char> {
    "DELETE type::thing($note_id)"@
}

/// The statement that lists the notebooks.
pub fn list_notebooks_statement() -> (q: &'static str)
    ensures
        q@ == notebooks_statement(),
{
    "SELECT type::string(id) as id, type::string(name) as name FROM type::table($table)"
}

/// The statement that counts the notes of each notebook.
pub fn count_notes_statement() -> (q: &'static str)
    ensures
        q@ == note_counts_statement(),
{
    "SELECT type::string(notebook) as id, count(id) as count FROM type::table($table) GROUP BY id"
}

/// The statement that reads one note.
pub fn read_note_statement() -> (q: &'static str)
    ensures
        q@ == note_statement(),
{
    "SELECT * FROM $table WHERE notebook=$notebook_id AND id=$note_id"
}

/// The statement that deletes one note.
pub fn remove_note_statement() -> (q: &'static str)
    ensures
        q@ == delete_note_statement(),
{
    "DELETE type::thing($note_id)"
}

/// What a store statement answers: the record id of the first record it
/// returned, or an error when it returned none.
pub fn first_record_id(ids: Vec<String>) -> (r: Result<String, ServerFnError>)
    ensures
        ids.len() > 0 ==> (r matches Ok(id) && id@ == ids[0]@),
        ids.len() == 0 ==> (r matches Err(e) && error_says(e, no_record_id_message())),
{
    if ids.len() > 0 {
        Ok(ids[0].clone())
    } else {
        Err(ServerFnError::ServerError(String::from_str("couldnt get id")))
    }
}

/// What fetching one note answers: the note, or an error when none was found.
pub fn found_note(found: Option<Note>) -> (r: Result<Note, ServerFnError>)
    ensures
        found matches Some(n) ==> r == Ok::<Note, ServerFnError>(n),
        found is None ==> (r matches Err(e) && error_says(e, missing_note_message())),
{
    match found {
        Some(note) => Ok(note),
        None => Err(ServerFnError::ServerError(String::from_str("couldn't get note"))),
    }
}

// ---- note counts ----

/// The count that the count rows give notebook `id`: that of the last row
/// with this id (later rows replace earlier ones), or 0 when there is none.
pub open spec fn count_for(counts: Seq<NotebookNoteCount>, id: Seq<char>) -> u32
    decreases counts.len(),
{
    if counts.len() == 0 {
        0
    } else if counts.last().id@ == id {
        counts.last().count
    } else {
        count_for(counts.drop_last(), id)
    }
}

/// The count of a notebook is that of the last count row naming it: when row
/// `k` names `id` and no later row does, the notebook gets row `k`'s count.
pub proof fn law_count_is_last_row(counts: Seq<NotebookNoteCount>, id: Seq<char>, k: int)
    requires
        0 <= k < counts.len(),
        counts[k].id@ == id,
        forall|j: int| k < j < counts.len() ==> #[trigger] counts[j].id@ != id,
    ensures
        count_for(counts, id) == counts[k].count,
    decreases counts.len(),
{
    if k < counts.len() - 1 {
        assert(counts.last().id@ != id);
        law_count_is_last_row(counts.drop_last(), id, k);
    }
}

/// A notebook that no count row names has count 0.
pub proof fn law_count_absent_is_zero(counts: Seq<NotebookNoteCount>, id: Seq<char>)
    requires
        forall|j: int| 0 <= j < counts.len() ==> #[trigger] counts[j].id@ != id,
    ensures
        count_for(counts, id) == 0,
    decreases counts.len(),
{
    if counts.len() > 0 {
        assert(counts.last().id@ != id);
        law_count_absent_is_zero(counts.drop_last(), id);
    }
}

/// The count that a notebook is given: that of its id, or 0 without an id.
pub open spec fn attached_count(counts: Seq<NotebookNoteCount>, id: Option<Seq<char>>) -> u32 {
    match id {
        Some(id) => count_for(counts, id),
        None => 0,
    }
}

/// Looks up the count of notebook `id` in the count rows.
fn lookup_count(counts: &Vec<NotebookNoteCount>, id: &String) -> (c: u32)
    ensures
        c == count_for(counts@, id@),
{
    let mut found: u32 = 0;
    let mut i: usize = 0;
    while i < counts.len()
        invariant
            i <= counts.len(),
            found == count_for(counts@.take(i as int), id@),
        decreases counts.len() - i,
    {
        assert(counts@.take(i + 1).drop_last() =~= counts@.take(i as int));
        if counts[i].id == *id {
            found = counts[i].count;
        }
        i = i + 1;
    }
    assert(counts@.take(counts.len() as int) =~= counts@);
    found
}

/// Gives each notebook its note count from the count rows: the count of its
/// id, or 0 when it has no id or no row names it.
pub fn attach_note_counts(notebooks: &Vec<Notebook>, counts: &Vec<NotebookNoteCount>) -> (r: Vec<Notebook>)
    ensures
        r.len() == notebooks.len(),
        forall|i: int|
            0 <= i < r.len() ==> {
                &&& id_view(#[trigger] r[i].id) == id_view(notebooks[i].id)
                &&& r[i].name@ == notebooks[i].name@
                &&& r[i].count == Some(attached_count(counts@, id_view(notebooks[i].id)))
            },
        forall|i: int, k: int|
            #![trigger notebooks[i], counts[k]]
            0 <= i < r.len() && 0 <= k < counts.len() && id_view(notebooks[i].id) == Some(counts[k].id@)
                && (forall|j: int| k < j < counts.len() ==> counts[j].id@ != counts[k].id@)
                ==> r[i].count == Some(counts[k].count),
        forall|i: int|
            0 <= i < r.len() && (forall|j: int|
                0 <= j < counts.len() ==> id_view(#[trigger] notebooks[i].id) != Some(counts[j].id@))
                ==> r[i].count == Some(0u32),
{
    let mut r: Vec<Notebook> = Vec::new();
    let mut i: usize = 0;
    while i < notebooks.len()
        invariant
            i <= notebooks.len(),
            r.len() == i,
            forall|j: int|
                0 <= j < i ==> {
                    &&& id_view(#[trigger] r[j].id) == id_view(notebooks[j].id)
                    &&& r[j].name@ == notebooks[j].name@
                    &&& r[j].count == Some(attached_count(counts@, id_view(notebooks[j].id)))
                },
        decreases notebooks.len() - i,
    {
        let notebook = &notebooks[i];
        let count = match &notebook.id {
            Some(id) => lookup_count(counts, id),
            None => 0,
        };
        r.push(Notebook { id: copy_id(&notebook.id), name: notebook.name.clone(), count: Some(count) });
        i = i + 1;
    }
    proof {
        assert forall|i: int, k: int|
            #![trigger notebooks[i], counts[k]]
            0 <= i < r.len() && 0 <= k < counts.len() && id_view(notebooks[i].id) == Some(counts[k].id@)
                && (forall|j: int| k < j < counts.len() ==> counts[j].id@ != counts[k].id@)
                implies r[i].count == Some(counts[k].count) by {
            assert(id_view(r[i].id) == id_view(notebooks[i].id));
            law_count_is_last_row(counts@, counts[k].id@, k);
        }
        assert forall|i: int|
            0 <= i < r.len() && (forall|j: int|
                0 <= j < counts.len() ==> id_view(#[trigger] notebooks[i].id) != Some(counts[j].id@))
                implies r[i].count == Some(0u32) by {
            assert(id_view(r[i].id) == id_view(notebooks[i].id));
            if let Some(id) = notebooks[i].id {
                assert forall|j: int| 0 <= j < counts.len() implies #[trigger] counts@[j].id@ != id@ by {
                    assert(id_view(notebooks[i].id) != Some(counts[j].id@));
                }
                law_count_absent_is_zero(counts@, id@);
            }
        }
    }
    r
}

} // verus!
