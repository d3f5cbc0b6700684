//! Requests to the photo backend and its answers, as plain values.
//!
//! A `Request` says what is to be sent; a `Reply` says what came back. The
//! caller carries the one out and hands in the other.

use crate::json::Json;
use crate::text::{text_of, texts};
use vstd::prelude::*;

verus! {

/// The status of an answer that the backend counts as a success.
pub const STATUS_OK: u16 = 200;

/// The priority that every label is added with.
pub const LABEL_PRIORITY: i32 = 10;

/// How a request is made.
#[derive(Debug, Clone, Copy, PartialEq, Eq)]
pub enum Method {
    Get,
    Post,
    Put,
}

/// A label for a photo, as the backend takes it.
#[derive(Debug, PartialEq, Eq)]
pub struct Label {
    pub name: String,
    pub priority: i32,
}

/// The mathematical content of a `Label`.
pub struct LabelView {
    pub name: Seq<char>,
    pub priority: i32,
}

impl View for Label {
    type V = LabelView;

    open spec fn view(&self) -> LabelView {
        LabelView { name: self.name@, priority: self.priority }
    }
}

impl Label {
    /// The label `name`, with the priority that every label gets.
    pub fn new(name: &str) -> (label: Label)
        ensures
            label@ == (LabelView { name: name@, priority: LABEL_PRIORITY }),
    {
        Label { name: name.to_string(), priority: LABEL_PRIORITY }
    }
}

/// What a request carries.
#[derive(Debug, PartialEq, Eq)]
pub enum Payload {
    /// Nothing.
    Empty,
    /// A JSON object with the members `username` and `password`.
    Credentials { username: String, password: String },
    /// A multipart form with one part, `files`: the bytes of the file at
    /// `path`, streamed, under the name `file_name`.
    File { path: String, file_name: String },
    /// A JSON object with the member `albums`, a list of album names.
    Albums(Vec<String>),
    /// Parameters of the query string, in this order.
    Query(Vec<(String, String)>),
    /// The label, as a JSON object with the members `Name` and `Priority`.
    Label(Label),
}

/// The mathematical content of a `Payload`.
pub enum PayloadView {
    Empty,
    Credentials { username: Seq<char>, password: Seq<char> },
    File { path: Seq<char>, file_name: Seq<char> },
    Albums(Seq<Seq<char>>),
    Query(Seq<(Seq<char>, Seq<char>)>),
    Label(LabelView),
}

/// The pairs of a list, as pairs of sequences of characters.
pub open spec fn pairs_view(pairs: Seq<(String, String)>) -> Seq<(Seq<char>, Seq<char>)> {
    Seq::new(pairs.len(), |i: int| (pairs[i].0@, pairs[i].1@))
}

impl View for Payload {
    type V = PayloadView;

    open spec fn view(&self) -> PayloadView {
        match self {
            Payload::Empty => PayloadView::Empty,
            Payload::Credentials { username, password } => PayloadView::Credentials {
                username: username@,
                password: password@,
            },
            Payload::File { path, file_name } => PayloadView::File {
                path: path@,
                file_name: file_name@,
            },
            Payload::Albums(albums) => PayloadView::Albums(texts(albums@)),
            Payload::Query(pairs) => PayloadView::Query(pairs_view(pairs@)),
            Payload::Label(label) => PayloadView::Label(label@),
        }
    }
}

/// A request to the backend.
#[derive(Debug, PartialEq, Eq)]
pub struct Request {
    pub method: Method,
    pub url: String,
    /// The session that the request is made in; it travels in the header
    /// `X-Session-ID`. `None` before a session is attached, and for the
    /// request that opens one.
    pub session_id: Option<String>,
    pub payload: Payload,
}

/// The mathematical content of a `Request`.
pub struct RequestView {
    pub method: Method,
    pub url: Seq<char>,
    pub session_id: Option<Seq<char>>,
    pub payload: PayloadView,
}

impl View for Request {
    type V = RequestView;

    open spec fn view(&self) -> RequestView {
        RequestView {
            method: self.method,
            url: self.url@,
            session_id: text_of(self.session_id),
            payload: self.payload@,
        }
    }
}

/// The header `X-Session-ID` of an answer.
#[derive(Debug, PartialEq, Eq)]
pub enum Header {
    /// The answer has no such header.
    Missing,
    /// The header is there and is no text; the reason is attached.
    Unreadable(String),
    /// The header's text.
    Text(String),
}

/// The mathematical content of a `Header`.
pub enum HeaderView {
    Missing,
    Unreadable(Seq<char>),
    Text(Seq<char>),
}

impl View for Header {
    type V = HeaderView;

    open spec fn view(&self) -> HeaderView {
        match self {
            Header::Missing => HeaderView::Missing,
            Header::Unreadable(reason) => HeaderView::Unreadable(reason@),
            Header::Text(text) => HeaderView::Text(text@),
        }
    }
}

/// An answer of the backend.
#[derive(Debug, PartialEq, Eq)]
pub struct Reply {
    pub status: u16,
    pub session_id: Header,
    /// The body, as text.
    pub body: String,
    /// The body as a JSON document, where it is one.
    pub json: Option<Json>,
}

/// The mathematical content of a `Reply`.
pub struct ReplyView {
    pub status: u16,
    pub session_id: HeaderView,
    pub body: Seq<char>,
    pub json: Option<Json>,
}

impl View for Reply {
    type V = ReplyView;

    open spec fn view(&self) -> ReplyView {
        ReplyView {
            status: self.status,
            session_id: self.session_id@,
            body: self.body@,
            json: self.json,
        }
    }
}

} // verus!
