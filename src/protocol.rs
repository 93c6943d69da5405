//! The wire vocabulary: requests decoded from a line of JSON, and the
//! responses written back, one JSON object per line.
use vstd::prelude::*;
use crate::json::{
    decimal, decimal_text, fields_view, find_string, json_quoted, object_members, parse_object,
    quote, signed_decimal, signed_decimal_text, string_member, Field,
};

verus! {

/// The wire code of every failed transfer.
pub const TRANSFER_FAILED: i8 = 1;

/// A request of the parent tool.
pub enum Request {
    Init,
    Terminate,
    Download { oid: String },
    Upload { oid: String, path: String },
}

/// A request as plain values.
pub enum RequestView {
    Init,
    Terminate,
    Download { oid: Seq<char> },
    Upload { oid: Seq<char>, path: Seq<char> },
}

impl View for Request {
    type V = RequestView;

    open spec fn view(&self) -> RequestView {
        match self {
            Request::Init => RequestView::Init,
            Request::Terminate => RequestView::Terminate,
            Request::Download { oid } => RequestView::Download { oid: oid@ },
            Request::Upload { oid, path } => RequestView::Upload { oid: oid@, path: path@ },
        }
    }
}

/// The request that the members of a JSON object stand for: the member
/// `event` names the kind, and the kinds that carry an object id or a path
/// need them as string members. Other members are ignored.
pub open spec fn request_of(fs: Seq<(Seq<char>, Option<Seq<char>>)>) -> Option<RequestView> {
    match string_member(fs, "event"@) {
        Some(tag) => if tag == "init"@ {
            Some(RequestView::Init)
        } else if tag == "terminate"@ {
            Some(RequestView::Terminate)
        } else if tag == "download"@ {
            match string_member(fs, "oid"@) {
                Some(oid) => Some(RequestView::Download { oid }),
                None => None,
            }
        } else if tag == "upload"@ {
            match (string_member(fs, "oid"@), string_member(fs, "path"@)) {
                (Some(oid), Some(path)) => Some(RequestView::Upload { oid, path }),
                _ => None,
            }
        } else {
            None
        },
        None => None,
    }
}

/// The request that a line of text holds, if it holds one.
pub open spec fn request_of_line(line: Seq<char>) -> Option<RequestView> {
    match object_members(line) {
        Some(fs) => request_of(fs),
        None => None,
    }
}

/// The message of the error that a line without a request gives.
pub open spec fn invalid_request_message() -> Seq<char> {
    "invalid request"@
}

impl Request {
    /// Reads a request from the members of a JSON object.
    pub fn from_fields(fields: &Vec<Field>) -> (r: Option<Request>)
        ensures
            match r {
                Some(q) => request_of(fields_view(fields@)) == Some(q@),
                None => request_of(fields_view(fields@)) is None,
            },
    {
        let event = find_string(fields, &String::from_str("event"));
        let tag = match event {
            Some(t) => t,
            None => return None,
        };
        if tag == String::from_str("init") {
            Some(Request::Init)
        } else if tag == String::from_str("terminate") {
            Some(Request::Terminate)
        } else if tag == String::from_str("download") {
            match find_string(fields, &String::from_str("oid")) {
                Some(oid) => Some(Request::Download { oid }),
                None => None,
            }
        } else if tag == String::from_str("upload") {
            let oid = find_string(fields, &String::from_str("oid"));
            let path = find_string(fields, &String::from_str("path"));
            match (oid, path) {
                (Some(oid), Some(path)) => Some(Request::Upload { oid, path }),
                _ => None,
            }
        } else {
            None
        }
    }

    /// Decodes one line of the protocol.
    pub fn parse(line: &str) -> (r: Result<Request, ProtocolError>)
        ensures
            match r {
                Ok(q) => request_of_line(line@) == Some(q@),
                Err(e) => request_of_line(line@) is None && e.code == TRANSFER_FAILED
                    && e.message@ == invalid_request_message(),
            },
    {
        let parsed = match parse_object(line) {
            Some(fields) => Request::from_fields(&fields),
            None => None,
        };
        match parsed {
            Some(q) => Ok(q),
            None => Err(ProtocolError::new(TRANSFER_FAILED, String::from_str("invalid request"))),
        }
    }
}

/// The error object of a failed transfer.
pub struct ProtocolError {
    pub code: i8,
    pub message: String,
}

impl ProtocolError {
    pub fn new(code: i8, message: String) -> (r: Self)
        ensures
            r.code == code,
            r.message == message,
    {
        ProtocolError { code, message }
    }
}

/// A response: it is written as one line of JSON.
pub trait Response {
    /// The line that stands for this response.
    spec fn wire(&self) -> Seq<char>;

    fn json(&self) -> (r: String)
        ensures
            r@ == self.wire(),
    ;
}

/// The reply to `init`, an empty object.
pub struct InitResponse {}

impl InitResponse {
    pub fn new() -> (r: Self) {
        InitResponse {}
    }
}

impl Response for InitResponse {
    open spec fn wire(&self) -> Seq<char> {
        "{}"@
    }

    fn json(&self) -> (r: String) {
        String::from_str("{}")
    }
}

/// A report of bytes moved for one object.
pub struct ProgressResponse {
    pub event: String,
    pub oid: String,
    pub bytes_so_far: usize,
    pub bytes_since_last: usize,
}

/// The line of a progress report.
pub open spec fn progress_wire(event: Seq<char>, oid: Seq<char>, so_far: nat, since_last: nat) -> Seq<char> {
    "{\"event\":"@ + json_quoted(event) + ",\"oid\":"@ + json_quoted(oid) + ",\"bytesSoFar\":"@
        + decimal(so_far) + ",\"bytesSinceLast\":"@ + decimal(since_last) + "}"@
}

impl ProgressResponse {
    pub fn new(oid: String, bytes_so_far: usize, bytes_since_last: usize) -> (r: Self)
        ensures
            r.event@ == "progress"@,
            r.oid == oid,
            r.bytes_so_far == bytes_so_far,
            r.bytes_since_last == bytes_since_last,
    {
        ProgressResponse { event: String::from_str("progress"), oid, bytes_so_far, bytes_since_last }
    }
}

impl Response for ProgressResponse {
    open spec fn wire(&self) -> Seq<char> {
        progress_wire(self.event@, self.oid@, self.bytes_so_far as nat, self.bytes_since_last as nat)
    }

    fn json(&self) -> (r: String) {
        let mut s = String::from_str("{\"event\":");
        s.append(quote(self.event.as_str()).as_str());
        s.append(",\"oid\":");
        s.append(quote(self.oid.as_str()).as_str());
        s.append(",\"bytesSoFar\":");
        s.append(decimal_text(self.bytes_so_far).as_str());
        s.append(",\"bytesSinceLast\":");
        s.append(decimal_text(self.bytes_since_last).as_str());
        s.append("}");
        s
    }
}

/// The last report of one transfer: success, with the local path for a
/// download, or failure with its error.
pub enum TransferResponse {
    Success { event: String, oid: String, path: Option<String> },
    Failure { event: String, oid: String, error: ProtocolError },
}

/// The line of a successful transfer; a missing path is left out.
pub open spec fn complete_ok_wire(event: Seq<char>, oid: Seq<char>, path: Option<Seq<char>>) -> Seq<char> {
    "{\"event\":"@ + json_quoted(event) + ",\"oid\":"@ + json_quoted(oid) + match path {
        Some(p) => ",\"path\":"@ + json_quoted(p),
        None => Seq::empty(),
    } + "}"@
}

/// The line of a failed transfer.
pub open spec fn complete_err_wire(event: Seq<char>, oid: Seq<char>, code: int, message: Seq<char>) -> Seq<char> {
    "{\"event\":"@ + json_quoted(event) + ",\"oid\":"@ + json_quoted(oid) + ",\"error\":{\"code\":"@
        + signed_decimal(code) + ",\"message\":"@ + json_quoted(message) + "}}"@
}

impl TransferResponse {
    /// This is the last report of `oid` for the outcome `result`: success
    /// carries the path, if any; failure carries the wire code of a failed
    /// transfer and the error's text.
    pub open spec fn reports(self, oid: String, result: Result<Option<String>, String>) -> bool {
        match result {
            Ok(path) => self == (TransferResponse::Success { event: self->Success_event, oid, path })
                && self->Success_event@ == "complete"@,
            Err(message) => self is Failure && self->Failure_event@ == "complete"@
                && self->Failure_oid == oid && self->Failure_error.code == TRANSFER_FAILED
                && self->Failure_error.message == message,
        }
    }

    /// The last report for `oid`, from the outcome of its transfer: the
    /// local path written, if any, or the text of the error.
    pub fn new(oid: String, result: Result<Option<String>, String>) -> (r: Self)
        ensures
            r.reports(oid, result),
    {
        match result {
            Ok(path) => TransferResponse::Success { event: String::from_str("complete"), oid, path },
            Err(message) => TransferResponse::Failure {
                event: String::from_str("complete"),
                oid,
                error: ProtocolError::new(TRANSFER_FAILED, message),
            },
        }
    }
}

impl Response for TransferResponse {
    open spec fn wire(&self) -> Seq<char> {
        match self {
            TransferResponse::Success { event, oid, path } => complete_ok_wire(event@, oid@, match path {
                Some(p) => Some(p@),
                None => None,
            }),
            TransferResponse::Failure { event, oid, error } =>
                complete_err_wire(event@, oid@, error.code as int, error.message@),
        }
    }

    fn json(&self) -> (r: String) {
        match self {
            TransferResponse::Success { event, oid, path } => {
                let mut s = String::from_str("{\"event\":");
                s.append(quote(event.as_str()).as_str());
                s.append(",\"oid\":");
                s.append(quote(oid.as_str()).as_str());
                match path {
                    Some(p) => {
                        s.append(",\"path\":");
                        s.append(quote(p.as_str()).as_str());
                    },
                    None => {},
                }
                s.append("}");
                s
            },
            TransferResponse::Failure { event, oid, error } => {
                let mut s = String::from_str("{\"event\":");
                s.append(quote(event.as_str()).as_str());
                s.append(",\"oid\":");
                s.append(quote(oid.as_str()).as_str());
                s.append(",\"error\":{\"code\":");
                s.append(signed_decimal_text(error.code).as_str());
                s.append(",\"message\":");
                s.append(quote(error.message.as_str()).as_str());
                s.append("}}");
                s
            },
        }
    }
}

} // verus!
