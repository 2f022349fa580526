use drawnotes::count::{CountAction, CountEvent, Counter};
use drawnotes::model::{Note, Notebook, NotebookNoteCount};
use drawnotes::record::{note_summaries_query, summaries_query_for, SummariesQuery};
use drawnotes::server::{
    attach_note_counts, count_notes_statement, first_record_id, found_note, list_notebooks_statement,
    note_upsert_statement, notebook_upsert_statement, read_note_statement, remove_note_statement,
    ServerFnError,
};
use drawnotes::ui::{
    add_note_request, all_notes_count, all_notes_style, can_add_note, delete_note_request,
    edited_note, editor_fields, key_outcome, NotebookBarState, loading_class, notebooks_total_fits, note_item_style, note_to_load, notebook_item_style,
    save_disabled, summaries_source, KeyOutcome, Selection,
};

fn s(text: &str) -> String {
    text.to_string()
}

fn notebook(id: Option<&str>, name: &str, count: Option<u32>) -> Notebook {
    Notebook { id: id.map(s), name: s(name), count }
}

fn note(id: Option<&str>, title: &str, content: &str, nb: &str) -> Note {
    Note { id: id.map(s), title: s(title), content: s(content), notebook: s(nb) }
}

fn event(id: &str, action: CountAction) -> Option<CountEvent> {
    Some(CountEvent { id: s(id), action })
}

// ---- counters ----

#[test]
fn counter_follows_events_of_its_notebook() {
    let mut c = Counter::new(3, Some(s("notebook:a")));
    assert_eq!(c.update(&event("notebook:a", CountAction::Increase)), 4);
    assert_eq!(c.update(&event("notebook:a", CountAction::Decrease)), 3);
    assert_eq!(c.update(&event("notebook:a", CountAction::Reset)), 0);
    assert_eq!(c.count, 0);
}

#[test]
fn counter_bounds() {
    let zero = Counter::new(0, Some(s("notebook:a")));
    assert!(!zero.can_update(&event("notebook:a", CountAction::Decrease)));
    assert!(zero.can_update(&event("notebook:b", CountAction::Decrease)));
    assert!(zero.can_update(&event("notebook:a", CountAction::Increase)));
    let full = Counter::new(u32::MAX, None);
    assert!(!full.can_update(&event("notebook:a", CountAction::Increase)));
    assert!(full.can_update(&event("notebook:a", CountAction::Reset)));
    assert!(full.can_update(&None));
}

#[test]
fn counter_ignores_other_notebooks_and_no_event() {
    let mut c = Counter::new(5, Some(s("notebook:a")));
    assert_eq!(c.update(&event("notebook:b", CountAction::Increase)), 5);
    assert_eq!(c.update(&event("notebook:b", CountAction::Reset)), 5);
    assert_eq!(c.update(&None), 5);
}

#[test]
fn all_notes_counter_follows_every_notebook() {
    let mut c = Counter::new(7, None);
    assert_eq!(c.update(&event("notebook:a", CountAction::Increase)), 8);
    assert_eq!(c.update(&event("notebook:b", CountAction::Decrease)), 7);
    assert_eq!(c.update(&event("notebook:z", CountAction::Reset)), 0);
}

#[test]
fn increase_then_decrease_restores_count() {
    let mut a = Counter::new(2, Some(s("notebook:a")));
    let mut all = Counter::new(9, None);
    for e in [event("notebook:a", CountAction::Increase), event("notebook:a", CountAction::Decrease)] {
        a.update(&e);
        all.update(&e);
    }
    assert_eq!(a.count, 2);
    assert_eq!(all.count, 9);
}

#[test]
fn total_counter_tracks_sum_of_notebook_counters() {
    let mut a = Counter::new(2, Some(s("notebook:a")));
    let mut b = Counter::new(3, Some(s("notebook:b")));
    let mut all = Counter::new(5, None);
    let events = [
        event("notebook:a", CountAction::Increase),
        event("notebook:b", CountAction::Increase),
        event("notebook:b", CountAction::Decrease),
        event("notebook:a", CountAction::Increase),
    ];
    for e in events {
        a.update(&e);
        b.update(&e);
        all.update(&e);
        assert_eq!(all.count, a.count + b.count);
    }
    assert_eq!((a.count, b.count, all.count), (4, 3, 7));
}

#[test]
fn counters_built_from_notebooks() {
    let notebooks = vec![
        notebook(Some("notebook:a"), "A", Some(2)),
        notebook(Some("notebook:b"), "B", None),
        notebook(Some("notebook:c"), "C", Some(5)),
    ];
    let a = Counter::for_notebook(&notebooks[0]);
    let b = Counter::for_notebook(&notebooks[1]);
    let c = Counter::for_notebook(&notebooks[2]);
    let all = Counter::for_all_notes(&notebooks);
    assert_eq!((a.count, b.count, c.count, all.count), (2, 0, 5, 7));
    assert_eq!(a.notebook_id, Some(s("notebook:a")));
    assert_eq!(all.notebook_id, None);
    assert_eq!(all.count, a.count + b.count + c.count);
}

#[test]
fn notebooks_total_fits_u32() {
    assert!(notebooks_total_fits(&vec![notebook(None, "A", Some(u32::MAX))]));
    assert!(!notebooks_total_fits(&vec![
        notebook(None, "A", Some(u32::MAX)),
        notebook(None, "B", Some(1)),
    ]));
    assert!(notebooks_total_fits(&vec![]));
}

#[test]
fn count_events_compare_by_id_and_action() {
    let a = CountEvent::new(s("notebook:a"), CountAction::Increase);
    assert_eq!(a, CountEvent { id: s("notebook:a"), action: CountAction::Increase });
    assert_ne!(a, CountEvent { id: s("notebook:a"), action: CountAction::Decrease });
    assert_ne!(a, CountEvent { id: s("notebook:b"), action: CountAction::Increase });
}

// ---- notebooks and their counts ----

#[test]
fn attach_note_counts_uses_last_row_and_zero() {
    let notebooks = vec![
        notebook(Some("notebook:a"), "Work", None),
        notebook(Some("notebook:b"), "Home", Some(99)),
        notebook(None, "Draft", None),
    ];
    let counts = vec![
        NotebookNoteCount { id: s("notebook:a"), count: 2 },
        NotebookNoteCount { id: s("notebook:c"), count: 8 },
        NotebookNoteCount { id: s("notebook:a"), count: 5 },
    ];
    let r = attach_note_counts(&notebooks, &counts);
    assert_eq!(
        r,
        vec![
            notebook(Some("notebook:a"), "Work", Some(5)),
            notebook(Some("notebook:b"), "Home", Some(0)),
            notebook(None, "Draft", Some(0)),
        ]
    );
    assert_eq!(all_notes_count(&r), 5);
}

#[test]
fn all_notes_count_sums_known_counts() {
    let notebooks = vec![
        notebook(Some("notebook:a"), "A", Some(4)),
        notebook(Some("notebook:b"), "B", None),
        notebook(Some("notebook:c"), "C", Some(6)),
    ];
    assert_eq!(all_notes_count(&notebooks), 10);
    assert_eq!(all_notes_count(&vec![]), 0);
}

#[test]
fn all_notebook_is_the_pseudo_notebook() {
    let all = Notebook::all();
    assert_eq!(all, notebook(None, "All Notes", None));
    assert!(all.is_all());
    assert!(!notebook(None, "All Notes", Some(0)).is_all());
    assert!(!notebook(Some("notebook:a"), "All Notes", None).is_all());
}

// ---- server functions ----

#[test]
fn upsert_statements_depend_on_id() {
    assert_eq!(
        note_upsert_statement(&note(Some("note:1"), "t", "c", "notebook:a")),
        "UPDATE ONLY type::thing($id) SET notebook = type::thing($notebook), title = $title, content = $content;"
    );
    assert_eq!(
        note_upsert_statement(&note(None, "t", "c", "notebook:a")),
        "CREATE note SET notebook = type::thing($notebook), title = $title, content = $content;"
    );
    assert_eq!(
        notebook_upsert_statement(&notebook(Some("notebook:a"), "n", None)),
        "UPDATE ONLY type::thing($id) SET name = $name"
    );
    assert_eq!(
        notebook_upsert_statement(&notebook(None, "n", None)),
        "CREATE notebook SET name = $name;"
    );
}

#[test]
fn first_record_id_takes_first_or_fails() {
    assert_eq!(first_record_id(vec![s("note:1"), s("note:2")]).unwrap(), "note:1");
    match first_record_id(vec![]) {
        Err(ServerFnError::ServerError(m)) => assert_eq!(m, "couldnt get id"),
        Ok(_) => panic!("expected an error"),
    }
}

#[test]
fn found_note_or_error() {
    let n = note(Some("note:1"), "t", "c", "notebook:a");
    assert_eq!(found_note(Some(n.clone())).unwrap(), n);
    match found_note(None) {
        Err(ServerFnError::ServerError(m)) => assert_eq!(m, "couldn't get note"),
        Ok(_) => panic!("expected an error"),
    }
}

#[test]
fn summaries_query_for_every_note() {
    let q = note_summaries_query(None).ok().unwrap();
    assert!(matches!(q, SummariesQuery::AllNotes));
    assert_eq!(
        q.statement(),
        "SELECT type::string(id) as id, title, string::slice(content, 0, 40) as content, type::string(notebook) as notebook FROM type::table($table);"
    );
}

#[test]
fn summaries_query_for_one_notebook() {
    let q = note_summaries_query(Some(s("notebook:abc"))).ok().unwrap();
    match &q {
        SummariesQuery::InNotebook(thing) => {
            assert_eq!(thing.tb, "notebook");
            assert_eq!(thing.to_string(), "notebook:abc");
        }
        SummariesQuery::AllNotes => panic!("expected a notebook query"),
    }
    assert!(q.statement().ends_with("WHERE notebook=type::thing($notebook_thing);"));
}

#[test]
fn summaries_query_rejects_bad_notebook_id() {
    for bad in ["", "no colon here"] {
        match note_summaries_query(Some(s(bad))) {
            Err(ServerFnError::ServerError(m)) => assert_eq!(m, "error making thing"),
            Ok(_) => panic!("expected an error for {bad:?}"),
        }
    }
    match summaries_query_for(None) {
        Err(ServerFnError::ServerError(m)) => assert_eq!(m, "error making thing"),
        Ok(_) => panic!("expected an error"),
    }
}

// ---- selection ----

#[test]
fn choosing_notebooks() {
    let mut sel = Selection::new();
    sel.choose_note(note(Some("note:1"), "t", "c", "notebook:a"));
    // nothing selected: the notebook is selected, the note stays
    sel.choose_notebook(notebook(Some("notebook:a"), "A", Some(1)));
    assert_eq!(sel.notebook, Some(notebook(Some("notebook:a"), "A", Some(1))));
    assert!(sel.note.is_some());
    // same id: nothing changes
    sel.choose_notebook(notebook(Some("notebook:a"), "Renamed", Some(7)));
    assert_eq!(sel.notebook, Some(notebook(Some("notebook:a"), "A", Some(1))));
    assert!(sel.note.is_some());
    // another id: selected, note dropped
    sel.choose_notebook(notebook(Some("notebook:b"), "B", None));
    assert_eq!(sel.notebook, Some(notebook(Some("notebook:b"), "B", None)));
    assert!(sel.note.is_none());
    // choosing the same notebook twice is choosing it once
    sel.choose_notebook(notebook(Some("notebook:b"), "B", None));
    assert_eq!(sel.notebook, Some(notebook(Some("notebook:b"), "B", None)));
}

#[test]
fn choosing_all_notes() {
    let mut sel = Selection::new();
    sel.choose_notebook(notebook(Some("notebook:a"), "A", None));
    sel.choose_note(note(Some("note:1"), "t", "c", "notebook:a"));
    sel.choose_all_notes();
    assert_eq!(sel.notebook, Some(Notebook::all()));
    assert!(sel.note.is_none());
    sel.choose_note(note(Some("note:2"), "t", "c", "notebook:a"));
    sel.choose_all_notes();
    assert!(sel.note.is_some());
    sel.drop_note();
    assert!(sel.note.is_none());
    assert_eq!(sel.notebook, Some(Notebook::all()));
}

#[test]
fn item_styles() {
    let sel = Some(notebook(Some("notebook:a"), "A", None));
    assert_eq!(
        notebook_item_style(&sel, &Some(s("notebook:a"))),
        "flex flex-row content-center items-center bg-gray-900 pl-4"
    );
    assert_eq!(
        notebook_item_style(&sel, &Some(s("notebook:b"))),
        "flex flex-row content-center items-center pl-4"
    );
    assert_eq!(
        notebook_item_style(&None, &None),
        "flex flex-row content-center items-center pl-4"
    );
    let n = Some(note(Some("note:1"), "t", "c", "notebook:a"));
    assert_eq!(
        note_item_style(&n, &Some(s("note:1"))),
        "w-full flex flex-col pl-2 bg-gray-900 border-t border-gray-600 select-none w-64 max-w-64"
    );
    assert_eq!(
        note_item_style(&n, &Some(s("note:2"))),
        "w-full flex flex-col pl-2 border-t border-gray-600 select-none w-64 max-w-64"
    );
    assert_eq!(all_notes_style(&Some(Notebook::all())), "flex flex-row content-center items-center bg-gray-900");
    assert_eq!(all_notes_style(&sel), "flex flex-row content-center items-center");
    assert_eq!(all_notes_style(&None), "flex flex-row content-center items-center");
}

// ---- notes bar and note view ----

#[test]
fn notes_bar_decisions() {
    let a = Some(notebook(Some("notebook:a"), "A", None));
    assert_eq!(summaries_source(&a), Some(Some(s("notebook:a"))));
    assert_eq!(summaries_source(&Some(Notebook::all())), Some(None));
    assert_eq!(summaries_source(&None), None);
    assert!(can_add_note(&a));
    assert!(can_add_note(&None));
    assert!(!can_add_note(&Some(Notebook::all())));
    let (n, e) = add_note_request(&a).unwrap();
    assert_eq!(n, note(None, "", "", "notebook:a"));
    assert_eq!(e, CountEvent::new(s("notebook:a"), CountAction::Increase));
    assert!(add_note_request(&Some(Notebook::all())).is_none());
}

#[test]
fn note_view_decisions() {
    let n = note(Some("note:1"), "Title", "Body", "notebook:a");
    assert_eq!(note_to_load(&Some(n.clone())), Some(s("note:1")));
    assert_eq!(note_to_load(&Some(note(None, "", "", "notebook:a"))), None);
    assert_eq!(note_to_load(&None), None);
    assert!(save_disabled(&n, &s("Title"), &s("Body")));
    assert!(save_disabled(&n, &s(""), &s("Other")));
    assert!(!save_disabled(&n, &s("Title"), &s("Other")));
    assert!(!save_disabled(&n, &s("New"), &s("Body")));
    let e = edited_note(&n, s("New"), s("Text"));
    assert_eq!(e, note(Some("note:1"), "New", "Text", "notebook:a"));
    let (id, ev) = delete_note_request(&n).unwrap();
    assert_eq!(id, "note:1");
    assert_eq!(ev, CountEvent::new(s("notebook:a"), CountAction::Decrease));
    assert!(delete_note_request(&note(None, "", "", "notebook:a")).is_none());
}

#[test]
fn add_then_delete_restores_counters() {
    let selected = Some(notebook(Some("notebook:a"), "A", None));
    let mut own = Counter::new(1, Some(s("notebook:a")));
    let mut all = Counter::new(4, None);
    let (added, inc) = add_note_request(&selected).unwrap();
    own.update(&Some(inc.clone()));
    all.update(&Some(inc));
    let stored = Note { id: Some(s("note:9")), ..added };
    let (_, dec) = delete_note_request(&stored).unwrap();
    own.update(&Some(dec.clone()));
    all.update(&Some(dec));
    assert_eq!((own.count, all.count), (1, 4));
}

// ---- notebook bar and loading indicator ----

#[test]
fn keys_in_new_notebook_field() {
    match key_outcome(&s("Enter"), Some(s("Recipes"))) {
        KeyOutcome::Submit(nb) => assert_eq!(nb, notebook(None, "Recipes", None)),
        _ => panic!("expected a submission"),
    }
    assert!(matches!(key_outcome(&s("Enter"), None), KeyOutcome::Ignore));
    assert!(matches!(key_outcome(&s("Escape"), Some(s("x"))), KeyOutcome::Cancel));
    assert!(matches!(key_outcome(&s("a"), Some(s("x"))), KeyOutcome::Ignore));
}

#[test]
fn loading_classes() {
    assert_eq!(
        loading_class(true),
        "bg-gray-800 flex items-center justify-center p-8 gap-4 text-gray-400 text-lg h-screen w-screen"
    );
    assert_eq!(
        loading_class(false),
        "bg-gray-800 flex items-center justify-center p-8 gap-4 text-gray-400 text-lg h-full w-full"
    );
}

#[test]
fn editor_starts_with_loaded_note() {
    let n = note(Some("note:1"), "Title", "Body", "notebook:a");
    assert_eq!(editor_fields(&n), (s("Title"), s("Body")));
}

#[test]
fn notebook_bar_keys_change_its_state() {
    let mut bar = NotebookBarState::new();
    assert!(!bar.creating && bar.count_event.is_none());
    bar.open_field();
    bar.count_event = event("notebook:a", CountAction::Increase);
    assert!(bar.press_key(&s("x"), Some(s("Rec"))).is_none());
    assert!(bar.creating && bar.count_event.is_some());
    assert!(bar.press_key(&s("Enter"), None).is_none());
    assert!(bar.creating && bar.count_event.is_some());
    assert_eq!(bar.press_key(&s("Enter"), Some(s("Recipes"))), Some(notebook(None, "Recipes", None)));
    assert!(!bar.creating);
    assert!(bar.count_event.is_none());
    bar.open_field();
    bar.count_event = event("notebook:a", CountAction::Decrease);
    assert!(bar.press_key(&s("Escape"), Some(s("Rec"))).is_none());
    assert!(!bar.creating);
    assert_eq!(bar.count_event, event("notebook:a", CountAction::Decrease));
}

#[test]
fn summaries_query_binds_the_parsed_record() {
    for (text, table) in [("notebook:abc", "notebook"), ("shelf:xyz", "shelf")] {
        match note_summaries_query(Some(s(text))) {
            Ok(SummariesQuery::InNotebook(thing)) => {
                assert_eq!(thing.tb, table);
                assert_eq!(thing.to_string(), text);
            }
            _ => panic!("expected a notebook query for {text}"),
        }
    }
}

#[test]
fn read_and_delete_statements() {
    assert_eq!(
        list_notebooks_statement(),
        "SELECT type::string(id) as id, type::string(name) as name FROM type::table($table)"
    );
    assert_eq!(
        count_notes_statement(),
        "SELECT type::string(notebook) as id, count(id) as count FROM type::table($table) GROUP BY id"
    );
    assert_eq!(read_note_statement(), "SELECT * FROM $table WHERE notebook=$notebook_id AND id=$note_id");
    assert_eq!(remove_note_statement(), "DELETE type::thing($note_id)");
}

#[test]
fn setting_the_notebook_drops_the_note_on_change() {
    let mut sel = Selection::new();
    sel.choose_note(note(Some("note:1"), "t", "c", "notebook:a"));
    // from nothing to a notebook: the note is dropped
    sel.set_notebook(Some(notebook(Some("notebook:a"), "A", None)));
    assert!(sel.note.is_none());
    sel.choose_note(note(Some("note:1"), "t", "c", "notebook:a"));
    // the same value again: the note stays
    sel.set_notebook(Some(notebook(Some("notebook:a"), "A", None)));
    assert!(sel.note.is_some());
    // a different value, even with the same id: the note is dropped
    sel.set_notebook(Some(notebook(Some("notebook:a"), "A", Some(3))));
    assert!(sel.note.is_none());
    assert_eq!(sel.notebook, Some(notebook(Some("notebook:a"), "A", Some(3))));
    sel.choose_note(note(Some("note:1"), "t", "c", "notebook:a"));
    sel.set_notebook(None);
    assert!(sel.note.is_none() && sel.notebook.is_none());
}
