//! What the user asks for: a source path, a destination path and a method.

use crate::error::ArchiveError;
use crate::line::{trim_line, trimmed};
use crate::method::{listed, select_method, selection_for, CompressionMethod};
use vstd::prelude::*;

verus! {

/// One archiving request. The paths are kept as given; whether they can be
/// opened shows only when the files are.
#[derive(Clone, Debug, PartialEq, Eq)]
pub struct Request {
    pub source: String,
    pub destination: String,
    pub method: CompressionMethod,
}

/// A request as plain values.
pub struct RequestView {
    pub source: Seq<char>,
    pub destination: Seq<char>,
    pub method: CompressionMethod,
}

impl View for Request {
    type V = RequestView;

    open spec fn view(&self) -> RequestView {
        RequestView { source: self.source@, destination: self.destination@, method: self.method }
    }
}

/// The request that three lines of input stand for: each line trimmed, the
/// third mapped to a method.
pub open spec fn request_of(
    source_line: Seq<char>,
    destination_line: Seq<char>,
    selector_line: Seq<char>,
) -> RequestView {
    RequestView {
        source: trimmed(source_line),
        destination: trimmed(destination_line),
        method: selection_for(trimmed(selector_line)).method,
    }
}

/// Takes the result of reading one line, `None` standing for a failed read:
/// the trimmed text of the line, or `InputReadFailed`.
pub fn accept_line<'a>(read: Option<&'a str>) -> (r: Result<&'a str, ArchiveError>)
    ensures
        r is Ok <==> read is Some,
        r matches Ok(text) ==> text@ == trimmed(read->0@),
        r matches Err(e) ==> e == ArchiveError::InputReadFailed,
{
    match read {
        Some(line) => Ok(trim_line(line)),
        None => Err(ArchiveError::InputReadFailed),
    }
}

impl Request {
    /// Builds the request from the three lines the user entered. The second
    /// component tells whether the selector was unlisted, so that the method
    /// is the fallback and the user is owed a warning.
    pub fn from_lines(source_line: &str, destination_line: &str, selector_line: &str) -> (r: (
        Request,
        bool,
    ))
        ensures
            r.0@ == request_of(source_line@, destination_line@, selector_line@),
            r.1 == selection_for(trimmed(selector_line@)).fallback,
    {
        let selection = select_method(trim_line(selector_line));
        let request = Request {
            source: trim_line(source_line).to_owned(),
            destination: trim_line(destination_line).to_owned(),
            method: selection.method,
        };
        (request, selection.fallback)
    }
}

/// Whatever the other two lines hold, a selector line whose trimmed text is
/// not a menu key requests Deflate, and the warning is owed.
pub proof fn lemma_unlisted_selector_requests_deflate(
    source_line: Seq<char>,
    destination_line: Seq<char>,
    selector_line: Seq<char>,
)
    requires
        !listed(trimmed(selector_line)),
    ensures
        request_of(source_line, destination_line, selector_line).method
            == CompressionMethod::Deflate,
        selection_for(trimmed(selector_line)).fallback,
{
}

} // verus!
