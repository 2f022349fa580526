use vstd::prelude::*;
use surrealdb::sql::Thing;
use crate::server::{ServerFnError, error_says, bad_notebook_id_message};

verus! {

/// A SurrealDB record id (`table:key`); Verus sees nothing inside it.
#[verifier::external_type_specification]
#[verifier::external_body]
pub struct ExThing(Thing);

/// Whether `t` is a record that SurrealDB's record-id parser
/// (`Thing::from_str`) can give for `text`. This is a relation, not a
/// function: a key may hold a subquery (such as `DEFINE USER`) whose parsed
/// value draws random numbers, so one text can parse to several records.
pub uninterp spec fn may_parse_to(text: Seq<char>, t: Thing) -> bool;

/// Whether the parser accepts `text`: it can give some record for it.
pub open spec fn is_record_id(text: Seq<char>) -> bool {
    exists|t: Thing| may_parse_to(text, t)
}

/// Parses `text` as a record id with `<Thing as FromStr>::from_str`.
/// Trusted: the result is present exactly when that parser accepts the text
/// (acceptance depends on the text alone), and a present result is a record
/// the parser can give for this very text. Which of those records comes back
/// is left open. A key holding a `DEFINE USER` subquery also makes the parse
/// panic if the operating system's random source fails.
#[verifier::external_body]
fn parse_record_id(text: &str) -> (r: Option<Thing>)
    ensures
        (r is Some) == is_record_id(text@),
        r matches Some(t) ==> may_parse_to(text@, t),
{
    <Thing as std::str::FromStr>::from_str(text).ok()
}

/// Which notes the note summaries are read from.
pub enum SummariesQuery {
    /// Every stored note.
    AllNotes,
    /// The notes of the notebook with this record id.
    InNotebook(Thing),
}

/// Statement that reads the summaries of every note.
pub open spec fn all_summaries_statement() -> Seq<char> {
    "SELECT type::string(id) as id, title, string::slice(content, 0, 40) as content, type::string(notebook) as notebook FROM type::table($table);"@
}

/// Statement that reads the summaries of the notes of notebook `$notebook_thing`.
pub open spec fn notebook_summaries_statement() -> Seq<char> {
    "SELECT type::string(id) as id, title, string::slice(content, 0, 40) as content, type::string(notebook) as notebook FROM type::table($table) WHERE notebook=type::thing($notebook_thing);"@
}

impl SummariesQuery {
    /// The statement that runs this query.
    pub fn statement(&self) -> (q: &'static str)
        ensures
            q@ == (match self {
                SummariesQuery::AllNotes => all_summaries_statement(),
                SummariesQuery::InNotebook(_) => notebook_summaries_statement(),
            }),
    {
        match self {
            SummariesQuery::AllNotes => "SELECT type::string(id) as id, title, string::slice(content, 0, 40) as content, type::string(notebook) as notebook FROM type::table($table);",
            SummariesQuery::InNotebook(_) => "SELECT type::string(id) as id, title, string::slice(content, 0, 40) as content, type::string(notebook) as notebook FROM type::table($table) WHERE notebook=type::thing($notebook_thing);",
        }
    }
}

/// The query for the notes of a notebook, given what parsing its id gave:
/// that record when the id parsed, an error otherwise.
pub fn summaries_query_for(parsed: Option<Thing>) -> (r: Result<SummariesQuery, ServerFnError>)
    ensures
        parsed matches Some(t) ==> r matches Ok(SummariesQuery::InNotebook(u)) && u == t,
        parsed is None ==> (r matches Err(e) && error_says(e, bad_notebook_id_message())),
{
    match parsed {
        Some(thing) => Ok(SummariesQuery::InNotebook(thing)),
        None => Err(ServerFnError::ServerError(String::from_str("error making thing"))),
    }
}

/// The query that reads note summaries: every note without a notebook id;
/// with one, the notes of the record that SurrealDB parses from the id (the
/// query built by `summaries_query_for` from that parse), and an error when it
/// is not a record id.
pub fn note_summaries_query(notebook_id: Option<String>) -> (r: Result<SummariesQuery, ServerFnError>)
    ensures
        notebook_id is None ==> r matches Ok(SummariesQuery::AllNotes),
        notebook_id matches Some(id) ==> if is_record_id(id@) {
            r matches Ok(SummariesQuery::InNotebook(t)) && may_parse_to(id@, t)
        } else {
            r matches Err(e) && error_says(e, bad_notebook_id_message())
        },
{
    match notebook_id {
        Some(id) => summaries_query_for(parse_record_id(id.as_str())),
        None => Ok(SummariesQuery::AllNotes),
    }
}

} // verus!
