//! The answers of the HTTP endpoints: a status code and a body.
use vstd::prelude::*;
use crate::dto::ProjectDto;

verus! {

pub const STATUS_OK: u16 = 200;

pub const STATUS_CREATED: u16 = 201;

pub const STATUS_NO_CONTENT: u16 = 204;

pub const STATUS_NOT_FOUND: u16 = 404;

pub const STATUS_INTERNAL_SERVER_ERROR: u16 = 500;

/// The body of an answer: nothing, one project or a list of projects as
/// JSON, or plain text.
#[derive(Debug, PartialEq, Eq)]
pub enum ReplyBody {
    Empty,
    Project(ProjectDto),
    Projects(Vec<ProjectDto>),
    Text(String),
}

/// An answer of an endpoint.
#[derive(Debug, PartialEq, Eq)]
pub struct HttpReply {
    pub status: u16,
    pub body: ReplyBody,
}

/// What a body holds.
pub enum BodyView {
    Empty,
    Project(ProjectDto),
    Projects(Seq<ProjectDto>),
    Text(Seq<char>),
}

/// What an answer holds.
pub struct ReplyView {
    pub status: u16,
    pub body: BodyView,
}

impl View for ReplyBody {
    type V = BodyView;

    open spec fn view(&self) -> BodyView {
        match self {
            ReplyBody::Empty => BodyView::Empty,
            ReplyBody::Project(p) => BodyView::Project(*p),
            ReplyBody::Projects(ps) => BodyView::Projects(ps@),
            ReplyBody::Text(t) => BodyView::Text(t@),
        }
    }
}

impl View for HttpReply {
    type V = ReplyView;

    open spec fn view(&self) -> ReplyView {
        ReplyView { status: self.status, body: self.body@ }
    }
}

/// The answer to a request that the database failed: status 500, no body.
pub open spec fn internal_error() -> ReplyView {
    ReplyView { status: STATUS_INTERNAL_SERVER_ERROR, body: BodyView::Empty }
}

impl HttpReply {
    pub fn internal_server_error() -> (reply: Self)
        ensures
            reply@ == internal_error(),
    {
        HttpReply { status: STATUS_INTERNAL_SERVER_ERROR, body: ReplyBody::Empty }
    }
}

} // verus!
