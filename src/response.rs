use vstd::prelude::*;
use crate::helado::{json_of, json_list, list_to_json};
use crate::service::Answer;

verus! {

/// The three outcomes a client can see.
#[derive(Debug, Clone, Copy, PartialEq, Eq, Structural)]
pub enum Status {
    Success,
    NotFound,
    InternalError,
}

pub const OK_RESPONSE: &'static str = "HTTP/1.1 200 OK\r\nContent-Type: application/json\r\n\r\n";

pub const NOT_FOUND: &'static str = "HTTP/1.1 404 NOT FOUND\r\n\r\n";

pub const INTERNAL_SERVER_ERROR: &'static str = "HTTP/1.1 500 INTERNAL SERVER ERROR\r\n\r\n";

pub open spec fn status_line_of(s: Status) -> Seq<char> {
    match s {
        Status::Success => "HTTP/1.1 200 OK\r\nContent-Type: application/json\r\n\r\n"@,
        Status::NotFound => "HTTP/1.1 404 NOT FOUND\r\n\r\n"@,
        Status::InternalError => "HTTP/1.1 500 INTERNAL SERVER ERROR\r\n\r\n"@,
    }
}

/// The status line and headers of a response, up to and with the blank line.
pub fn status_line(s: Status) -> (r: &'static str)
    ensures
        r@ == status_line_of(s),
{
    match s {
        Status::Success => OK_RESPONSE,
        Status::NotFound => NOT_FOUND,
        Status::InternalError => INTERNAL_SERVER_ERROR,
    }
}

pub open spec fn status_of(a: Answer) -> Status {
    match a {
        Answer::Created | Answer::Updated | Answer::Deleted | Answer::Found(_) | Answer::All(
            _,
        ) => Status::Success,
        Answer::NoSuchFlavor | Answer::NothingDeleted | Answer::NoRoute => Status::NotFound,
        Answer::Error => Status::InternalError,
    }
}

pub open spec fn body_of(a: Answer) -> Seq<char> {
    match a {
        Answer::Created => "Helado created"@,
        Answer::Updated => "Helado updated"@,
        Answer::Deleted => "Helado deleted"@,
        Answer::Found(h) => json_of(h),
        Answer::All(hs) => json_list(hs@),
        Answer::NoSuchFlavor => "helado not found"@,
        Answer::NothingDeleted => "Helado not found"@,
        Answer::NoRoute => "404 Not Found"@,
        Answer::Error => "Error"@,
    }
}

impl Answer {
    pub fn status(&self) -> (r: Status)
        ensures
            r == status_of(*self),
    {
        match self {
            Answer::Created | Answer::Updated | Answer::Deleted | Answer::Found(_) | Answer::All(
                _,
            ) => Status::Success,
            Answer::NoSuchFlavor | Answer::NothingDeleted | Answer::NoRoute => Status::NotFound,
            Answer::Error => Status::InternalError,
        }
    }

    /// The body of the response: a short message, or the JSON of what was read.
    pub fn body(&self) -> (r: String)
        ensures
            r@ == body_of(*self),
    {
        match self {
            Answer::Created => String::from_str("Helado created"),
            Answer::Updated => String::from_str("Helado updated"),
            Answer::Deleted => String::from_str("Helado deleted"),
            Answer::Found(h) => h.to_json(),
            Answer::All(hs) => list_to_json(hs),
            Answer::NoSuchFlavor => String::from_str("helado not found"),
            Answer::NothingDeleted => String::from_str("Helado not found"),
            Answer::NoRoute => String::from_str("404 Not Found"),
            Answer::Error => String::from_str("Error"),
        }
    }

    /// The whole response as it goes on the wire.
    pub fn to_http(&self) -> (r: String)
        ensures
            r@ == status_line_of(status_of(*self)) + body_of(*self),
    {
        let mut out = String::from_str(status_line(self.status()));
        let b = self.body();
        out.append(b.as_str());
        out
    }
}

} // verus!
