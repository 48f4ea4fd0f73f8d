use vstd::prelude::*;
use vstd::string::StringExecFns;

verus! {

/// The three fixed response templates.
#[derive(Clone, Copy, Debug, PartialEq, Eq, Structural)]
pub enum Status {
    /// 200, with a JSON content type and permissive CORS headers.
    Success,
    /// 404, no headers.
    NotFound,
    /// 500, no headers.
    InternalError,
}

/// The head written before the content, for each template.
pub open spec fn status_line_of(s: Status) -> Seq<char> {
    match s {
        Status::Success => "HTTP/1.1 200 OK\r\nContent-Type: application/json\r\nAccess-Control-Allow-Origin: *\r\nAccess-Control-Allow-Methods: GET, POST, PUT, DELETE\r\nAccess-Control-Allow-Headers: Content-Type\r\n\r\n"@,
        Status::NotFound => "HTTP/1.1 404 NOT FOUND\r\n\r\n"@,
        Status::InternalError => "HTTP/1.1 500 INTERNAL ERROR\r\n\r\n"@,
    }
}

/// A response as plain values: its template and its content.
pub type ResponseView = (Status, Seq<char>);

/// A status template and the content that follows it.
#[derive(Clone, Debug, PartialEq, Eq)]
pub struct Response {
    pub status: Status,
    pub content: String,
}

impl View for Response {
    type V = ResponseView;

    open spec fn view(&self) -> ResponseView {
        (self.status, self.content@)
    }
}

impl Status {
    /// The head of this template.
    pub fn status_line(&self) -> (r: &'static str)
        ensures
            r@ == status_line_of(*self),
    {
        match self {
            Status::Success => "HTTP/1.1 200 OK\r\nContent-Type: application/json\r\nAccess-Control-Allow-Origin: *\r\nAccess-Control-Allow-Methods: GET, POST, PUT, DELETE\r\nAccess-Control-Allow-Headers: Content-Type\r\n\r\n",
            Status::NotFound => "HTTP/1.1 404 NOT FOUND\r\n\r\n",
            Status::InternalError => "HTTP/1.1 500 INTERNAL ERROR\r\n\r\n",
        }
    }
}

impl Response {
    pub fn new(status: Status, content: String) -> (r: Response)
        ensures
            r.status == status,
            r.content == content,
    {
        Response { status, content }
    }

    /// A response with a literal content.
    pub fn with_text(status: Status, content: &str) -> (r: Response)
        ensures
            r@ == (status, content@),
    {
        Response { status, content: String::from_str(content) }
    }

    /// The full text written back: the template's head, then the content.
    pub fn to_text(&self) -> (r: String)
        ensures
            r@ == status_line_of(self.status) + self.content@,
    {
        let mut out = String::from_str(self.status.status_line());
        out.append(self.content.as_str());
        out
    }
}

} // verus!
