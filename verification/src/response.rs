//! Mapping of typed repository results to HTTP status and body.

use vstd::prelude::*;

use crate::error::ApiError;
use crate::post::{Post, PostPreview};
use crate::series::{Series, SeriesPreview};
use crate::services::Service;

verus! {

/// What an HTTP reply carries. A success carries the value to serialize;
/// JSON is the sole representation and the process edge renders it. A
/// failure carries a fixed message, a failure description, or nothing.
pub enum Body {
    Empty,
    Message(String),
    PostPreviews(Vec<PostPreview>),
    PostItem(Post),
    SeriesPreviews(Vec<SeriesPreview>),
    SeriesItem(Series),
    Services(Vec<Service>),
}

/// An HTTP reply: a status code and what the body holds.
pub struct HttpReply {
    pub status: u16,
    pub body: Body,
}

/// The fixed human-readable body of every not-found reply.
pub open spec fn spec_not_found_body() -> Seq<char> {
    "<h1>404: Not Found</h1>"@
}

impl ApiError {
    /// Maps a failure to its reply: not-found becomes 404 with the fixed
    /// message and no entity body; a pool failure becomes 500 carrying the
    /// failure's description; a failed statement becomes a bare 500 with an
    /// empty body, leaking no detail.
    pub fn error_response(&self) -> (r: HttpReply)
        ensures
            match self {
                ApiError::NotFound => {
                    &&& r.status == 404
                    &&& r.body matches Body::Message(m) && m@ == spec_not_found_body()
                },
                ApiError::PgError(_) => {
                    &&& r.status == 500
                    &&& r.body matches Body::Empty
                },
                ApiError::PoolError(msg) => {
                    &&& r.status == 500
                    &&& r.body matches Body::Message(m) && m == msg
                },
            },
    {
        match self {
            ApiError::NotFound => HttpReply {
                status: 404,
                body: Body::Message("<h1>404: Not Found</h1>".to_owned()),
            },
            ApiError::PgError(_) => HttpReply { status: 500, body: Body::Empty },
            ApiError::PoolError(msg) => HttpReply { status: 500, body: Body::Message(msg.clone()) },
        }
    }
}

} // verus!
