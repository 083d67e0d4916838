//! The hub's line protocol: what a request line holds, which operation an
//! action names, and the texts of the answers that are not data.

use vstd::prelude::*;
use crate::text::{trim, trim_str};

verus! {

broadcast use vstd::string::group_string_axioms;

/// The limit of a request that names none.
pub fn default_radio_limit() -> (l: usize)
    ensures
        l == 15,
{
    15
}

/// A request of a client: an action, its query (empty when absent) and a
/// limit (`default_radio_limit` when absent).
#[derive(Debug)]
pub struct ClientRequest {
    pub action: String,
    pub query: String,
    pub limit: usize,
}

/// The operations a client can ask for.
#[derive(Debug, PartialEq, Eq, Structural, Clone, Copy)]
pub enum Action {
    /// Metadata of a query, from the database or the service; no download.
    Resolve,
    /// Up to `limit` hits of the service.
    Search,
    /// Download, analysis and save.
    Download,
    /// Purge a track: its record and its audio file.
    Remove,
    /// A radio seeded by a track.
    Radio,
    /// The tracks of an album.
    Album,
    /// The IDs of all stored tracks.
    GetAllIds,
    /// Count a play of a track.
    Played,
    /// Anything else.
    Unknown,
}

/// The operation an action name asks for.
pub open spec fn action_of(name: Seq<char>) -> Action {
    if name == "resolve"@ {
        Action::Resolve
    } else if name == "search"@ {
        Action::Search
    } else if name == "download"@ {
        Action::Download
    } else if name == "remove"@ {
        Action::Remove
    } else if name == "radio"@ {
        Action::Radio
    } else if name == "album"@ {
        Action::Album
    } else if name == "get_all_ids"@ {
        Action::GetAllIds
    } else if name == "played"@ {
        Action::Played
    } else {
        Action::Unknown
    }
}

fn same_text(name: &String, lit: &str) -> (b: bool)
    ensures
        b == (name@ == lit@),
{
    let l = String::from_str(lit);
    *name == l
}

impl Action {
    /// The operation the action name `name` asks for.
    pub fn parse(name: &String) -> (a: Action)
        ensures
            a == action_of(name@),
    {
        if same_text(name, "resolve") {
            Action::Resolve
        } else if same_text(name, "search") {
            Action::Search
        } else if same_text(name, "download") {
            Action::Download
        } else if same_text(name, "remove") {
            Action::Remove
        } else if same_text(name, "radio") {
            Action::Radio
        } else if same_text(name, "album") {
            Action::Album
        } else if same_text(name, "get_all_ids") {
            Action::GetAllIds
        } else if same_text(name, "played") {
            Action::Played
        } else {
            Action::Unknown
        }
    }
}

/// The text of a request line worth reading: the line without surrounding
/// white space, or none when nothing is left.
pub fn request_text(line: &str) -> (r: Option<String>)
    ensures
        trim(line@).len() == 0 ==> r is None,
        trim(line@).len() > 0 ==> (r matches Some(t) && t@ == trim(line@)),
{
    let t = trim_str(line);
    if t.as_str().is_empty() {
        None
    } else {
        Some(t)
    }
}

/// The error answer to an unknown action.
pub fn unknown_action_message(action: &str) -> (m: String)
    ensures
        m@ == "Acción desconocida: "@ + action@,
{
    let mut m = String::from_str("Acción desconocida: ");
    m.append(action);
    m
}

/// The error answer to a line that is not a valid request; `detail` is the
/// parser's account of the problem.
pub fn invalid_json_message(detail: &str) -> (m: String)
    ensures
        m@ == "JSON inválido: "@ + detail@,
{
    let mut m = String::from_str("JSON inválido: ");
    m.append(detail);
    m
}

/// The acknowledgement text of a purge.
pub fn deleted_ack() -> (m: String)
    ensures
        m@ == "deleted"@,
{
    String::from_str("deleted")
}

/// The acknowledgement text of a counted play.
pub fn played_ack() -> (m: String)
    ensures
        m@ == "ok"@,
{
    String::from_str("ok")
}

} // verus!
