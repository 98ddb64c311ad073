use vstd::prelude::*;
use crate::text::{has_prefix, starts_with};
use crate::request::{id_field, i32_of, get_id, parse_id};
use crate::helado::Helado;

verus! {

/// Which handler a request goes to, by its method and the start of its path.
#[derive(Debug, Clone, Copy, PartialEq, Eq, Structural)]
pub enum Route {
    Create,
    ReadOne,
    ReadAll,
    Update,
    Delete,
    Unknown,
}

/// The order matters: a path with an identifier also starts with the bare
/// collection path, so the longer prefixes are tried first.
pub open spec fn route_of(s: Seq<char>) -> Route {
    if has_prefix(s, "POST /helados"@) {
        Route::Create
    } else if has_prefix(s, "GET /helados/"@) {
        Route::ReadOne
    } else if has_prefix(s, "GET /helados"@) {
        Route::ReadAll
    } else if has_prefix(s, "PUT /helados/"@) {
        Route::Update
    } else if has_prefix(s, "DELETE /helados/"@) {
        Route::Delete
    } else {
        Route::Unknown
    }
}

pub fn route(request: &str) -> (r: Route)
    ensures
        r == route_of(request@),
{
    if starts_with(request, "POST /helados") {
        Route::Create
    } else if starts_with(request, "GET /helados/") {
        Route::ReadOne
    } else if starts_with(request, "GET /helados") {
        Route::ReadAll
    } else if starts_with(request, "PUT /helados/") {
        Route::Update
    } else if starts_with(request, "DELETE /helados/") {
        Route::Delete
    } else {
        Route::Unknown
    }
}

/// A parameterised statement for the store to run; the values travel apart
/// from the statement's text.
#[derive(Debug, Clone, PartialEq, Eq)]
pub enum Command {
    Insert { sabor: String, precio: String },
    SelectOne { id: i32 },
    SelectAll,
    Update { id: i32, sabor: String, precio: String },
    Remove { id: i32 },
}

/// The statement that makes the table, when it is not there yet.
pub const CREATE_TABLE: &'static str = "CREATE TABLE IF NOT EXISTS helados (
            id SERIAL PRIMARY KEY,
            sabor VARCHAR NOT NULL,
            precio VARCHAR NOT NULL
        )";

pub open spec fn statement_of(c: Command) -> Seq<char> {
    match c {
        Command::Insert { .. } => "INSERT INTO helados (sabor, precio) VALUES ($1, $2)"@,
        Command::SelectOne { .. } => "SELECT * FROM helados WHERE id = $1"@,
        Command::SelectAll => "SELECT * FROM helados"@,
        Command::Update { .. } => "UPDATE helados SET sabor = $1, precio = $2 WHERE id = $3"@,
        Command::Remove { .. } => "DELETE FROM helados WHERE id = $1"@,
    }
}

impl Command {
    /// The text of the statement; its parameters are the command's fields, in
    /// the order in which they are declared.
    pub fn statement(&self) -> (r: &'static str)
        ensures
            r@ == statement_of(*self),
    {
        match self {
            Command::Insert { .. } => "INSERT INTO helados (sabor, precio) VALUES ($1, $2)",
            Command::SelectOne { .. } => "SELECT * FROM helados WHERE id = $1",
            Command::SelectAll => "SELECT * FROM helados",
            Command::Update { .. } => "UPDATE helados SET sabor = $1, precio = $2 WHERE id = $3",
            Command::Remove { .. } => "DELETE FROM helados WHERE id = $1",
        }
    }
}

/// What the service answers, before it is written out.
#[derive(Debug, Clone, PartialEq, Eq)]
pub enum Answer {
    Created,
    Updated,
    Deleted,
    Found(Helado),
    All(Vec<Helado>),
    /// Read-one found no record under the identifier.
    NoSuchFlavor,
    /// Delete removed no record.
    NothingDeleted,
    /// No handler takes the request.
    NoRoute,
    /// A malformed body or identifier, or a failure of the store.
    Error,
}

/// The next thing to do for a request: run a statement, or answer at once.
#[derive(Debug, Clone, PartialEq, Eq)]
pub enum Step {
    Run(Command),
    Reply(Answer),
}

/// What the store reported for a statement.
#[derive(Debug, Clone, PartialEq, Eq)]
pub enum Outcome {
    /// The connection or the statement failed.
    Failed,
    /// A statement that changes the table ran, on this many rows.
    Executed(u64),
    /// The row under the identifier, if there is one.
    Fetched(Option<Helado>),
    /// Every row of the table.
    Listed(Vec<Helado>),
}

pub open spec fn create_step(body: Option<Helado>) -> Step {
    match body {
        Some(h) => Step::Run(Command::Insert { sabor: h.sabor, precio: h.precio }),
        None => Step::Reply(Answer::Error),
    }
}

pub open spec fn read_one_step(request: Seq<char>) -> Step {
    match i32_of(id_field(request)) {
        Some(id) => Step::Run(Command::SelectOne { id }),
        None => Step::Reply(Answer::Error),
    }
}

pub open spec fn update_step(request: Seq<char>, body: Option<Helado>) -> Step {
    match (i32_of(id_field(request)), body) {
        (Some(id), Some(h)) => Step::Run(Command::Update { id, sabor: h.sabor, precio: h.precio }),
        _ => Step::Reply(Answer::Error),
    }
}

pub open spec fn delete_step(request: Seq<char>) -> Step {
    match i32_of(id_field(request)) {
        Some(id) => Step::Run(Command::Remove { id }),
        None => Step::Reply(Answer::Error),
    }
}

/// The first step for a request, `body` being its body read as a record
/// (nothing when it is not one).
pub open spec fn dispatch_of(request: Seq<char>, body: Option<Helado>) -> Step {
    match route_of(request) {
        Route::Create => create_step(body),
        Route::ReadOne => read_one_step(request),
        Route::ReadAll => Step::Run(Command::SelectAll),
        Route::Update => update_step(request, body),
        Route::Delete => delete_step(request),
        Route::Unknown => Step::Reply(Answer::NoRoute),
    }
}

/// Create: insert the name and price of the body; any identifier in it is
/// left to the store.
pub fn handle_post_request(body: Option<Helado>) -> (r: Step)
    ensures
        r == create_step(body),
{
    match body {
        Some(h) => Step::Run(Command::Insert { sabor: h.sabor, precio: h.precio }),
        None => Step::Reply(Answer::Error),
    }
}

/// Read-one: look up the record under the identifier of the path.
pub fn handle_get_request(request: &str) -> (r: Step)
    ensures
        r == read_one_step(request@),
{
    match parse_id(get_id(request)) {
        Some(id) => Step::Run(Command::SelectOne { id }),
        None => Step::Reply(Answer::Error),
    }
}

/// Read-all: list the table.
pub fn handle_get_all_request() -> (r: Step)
    ensures
        r == Step::Run(Command::SelectAll),
{
    Step::Run(Command::SelectAll)
}

/// Update: overwrite name and price under the identifier of the path.
pub fn handle_put_request(request: &str, body: Option<Helado>) -> (r: Step)
    ensures
        r == update_step(request@, body),
{
    match (parse_id(get_id(request)), body) {
        (Some(id), Some(h)) => Step::Run(Command::Update { id, sabor: h.sabor, precio: h.precio }),
        _ => Step::Reply(Answer::Error),
    }
}

/// Delete: remove the record under the identifier of the path.
pub fn handle_delete_request(request: &str) -> (r: Step)
    ensures
        r == delete_step(request@),
{
    match parse_id(get_id(request)) {
        Some(id) => Step::Run(Command::Remove { id }),
        None => Step::Reply(Answer::Error),
    }
}

/// Routes a request to its handler.
pub fn dispatch(request: &str, body: Option<Helado>) -> (r: Step)
    ensures
        r == dispatch_of(request@, body),
{
    match route(request) {
        Route::Create => handle_post_request(body),
        Route::ReadOne => handle_get_request(request),
        Route::ReadAll => handle_get_all_request(),
        Route::Update => handle_put_request(request, body),
        Route::Delete => handle_delete_request(request),
        Route::Unknown => Step::Reply(Answer::NoRoute),
    }
}

/// The answer once the store has reported on a command. An update answers
/// success whether or not a row had the identifier; a delete that removed no
/// row answers not-found. A report that does not fit the command is a failure.
pub open spec fn answer_of(c: Command, o: Outcome) -> Answer {
    match (c, o) {
        (Command::Insert { .. }, Outcome::Executed(_)) => Answer::Created,
        (Command::Update { .. }, Outcome::Executed(_)) => Answer::Updated,
        (Command::Remove { .. }, Outcome::Executed(n)) => if n == 0 {
            Answer::NothingDeleted
        } else {
            Answer::Deleted
        },
        (Command::SelectOne { .. }, Outcome::Fetched(found)) => match found {
            Some(h) => Answer::Found(h),
            None => Answer::NoSuchFlavor,
        },
        (Command::SelectAll, Outcome::Listed(hs)) => Answer::All(hs),
        _ => Answer::Error,
    }
}

pub fn complete(c: &Command, o: Outcome) -> (r: Answer)
    ensures
        r == answer_of(*c, o),
{
    match (c, o) {
        (Command::Insert { .. }, Outcome::Executed(_)) => Answer::Created,
        (Command::Update { .. }, Outcome::Executed(_)) => Answer::Updated,
        (Command::Remove { .. }, Outcome::Executed(n)) => if n == 0 {
            Answer::NothingDeleted
        } else {
            Answer::Deleted
        },
        (Command::SelectOne { .. }, Outcome::Fetched(found)) => match found {
            Some(h) => Answer::Found(h),
            None => Answer::NoSuchFlavor,
        },
        (Command::SelectAll, Outcome::Listed(hs)) => Answer::All(hs),
        _ => Answer::Error,
    }
}

} // verus!
