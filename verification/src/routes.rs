//! Per-endpoint handlers: each takes the outcome of acquiring a pooled
//! connection, invokes exactly one repository operation on success, and
//! maps the result to an HTTP reply.
//!
//! A connection that was acquired is passed as the `Database` view it
//! serves; a failed acquisition is passed as the pool failure's description
//! and short-circuits to the failure reply without touching any table.

use vstd::prelude::*;

use crate::db::Database;
use crate::error::ApiError;
use crate::post::{spec_find_by_slug, spec_post_matches, spec_previews_match, Post};
use crate::response::{spec_not_found_body, Body, HttpReply};
use crate::series::{spec_find_series_by_slug, spec_series_matches, spec_series_previews_match,
    Series};
use crate::services::{spec_services_match, Service};

verus! {

/// Lists all post previews: 200 with the previews in row order, or 500
/// carrying the description of a failed acquisition.
pub fn get_all_posts(db_pool: Result<&Database, String>) -> (r: HttpReply)
    ensures
        match db_pool {
            Ok(db) => {
                &&& r.status == 200
                &&& r.body matches Body::PostPreviews(ps) && spec_previews_match(
                    ps@,
                    db.posts@,
                    db.post_tags@,
                )
            },
            Err(msg) => {
                &&& r.status == 500
                &&& r.body matches Body::Message(m) && m == msg
            },
        },
{
    let db = match db_pool {
        Ok(db) => db,
        Err(msg) => return ApiError::PoolError(msg).error_response(),
    };
    match Post::get_all_previews(db) {
        Ok(posts) => HttpReply { status: 200, body: Body::PostPreviews(posts) },
        Err(e) => e.error_response(),
    }
}

/// Fetches one post by slug: 200 with the post, 404 with the fixed message
/// and no entity body when the slug is unknown, or 500 carrying the
/// description of a failed acquisition.
pub fn get_post_by_slug(slug: &String, db_pool: Result<&Database, String>) -> (r: HttpReply)
    ensures
        match db_pool {
            Ok(db) => match spec_find_by_slug(db.posts@, slug@) {
                Some(row) => {
                    &&& r.status == 200
                    &&& r.body matches Body::PostItem(p) && spec_post_matches(p, row, db.post_tags@)
                },
                None => {
                    &&& r.status == 404
                    &&& r.body matches Body::Message(m) && m@ == spec_not_found_body()
                },
            },
            Err(msg) => {
                &&& r.status == 500
                &&& r.body matches Body::Message(m) && m == msg
            },
        },
{
    let db = match db_pool {
        Ok(db) => db,
        Err(msg) => return ApiError::PoolError(msg).error_response(),
    };
    match Post::get_post_by_slug(slug, db) {
        Ok(post) => HttpReply { status: 200, body: Body::PostItem(post) },
        Err(e) => e.error_response(),
    }
}

/// Lists all series previews: 200 with the previews in row order, or 500
/// carrying the description of a failed acquisition.
pub fn get_all_series(db_pool: Result<&Database, String>) -> (r: HttpReply)
    ensures
        match db_pool {
            Ok(db) => {
                &&& r.status == 200
                &&& r.body matches Body::SeriesPreviews(ps) && spec_series_previews_match(
                    ps@,
                    db.series@,
                    db.series_tags@,
                )
            },
            Err(msg) => {
                &&& r.status == 500
                &&& r.body matches Body::Message(m) && m == msg
            },
        },
{
    let db = match db_pool {
        Ok(db) => db,
        Err(msg) => return ApiError::PoolError(msg).error_response(),
    };
    match Series::get_all_previews(db) {
        Ok(series) => HttpReply { status: 200, body: Body::SeriesPreviews(series) },
        Err(e) => e.error_response(),
    }
}

/// Fetches one series by slug: 200 with the series, its tags and its post
/// previews, 404 with the fixed message and no entity body when the slug is
/// unknown, or 500 carrying the description of a failed acquisition.
pub fn get_series_by_slug(db_pool: Result<&Database, String>, slug: String) -> (r: HttpReply)
    ensures
        match db_pool {
            Ok(db) => match spec_find_series_by_slug(db.series@, slug@) {
                Some(row) => {
                    &&& r.status == 200
                    &&& r.body matches Body::SeriesItem(s) && spec_series_matches(s, row, *db)
                },
                None => {
                    &&& r.status == 404
                    &&& r.body matches Body::Message(m) && m@ == spec_not_found_body()
                },
            },
            Err(msg) => {
                &&& r.status == 500
                &&& r.body matches Body::Message(m) && m == msg
            },
        },
{
    let db = match db_pool {
        Ok(db) => db,
        Err(msg) => return ApiError::PoolError(msg).error_response(),
    };
    match Series::get_series_by_slug(slug, db) {
        Ok(series) => HttpReply { status: 200, body: Body::SeriesItem(series) },
        Err(e) => e.error_response(),
    }
}

/// Lists all services: 200 with the services in row order, or 500 carrying
/// the description of a failed acquisition.
pub fn get_all_services(db_pool: Result<&Database, String>) -> (r: HttpReply)
    ensures
        match db_pool {
            Ok(db) => {
                &&& r.status == 200
                &&& r.body matches Body::Services(ss) && spec_services_match(
                    ss@,
                    db.services@,
                    db.service_tags@,
                )
            },
            Err(msg) => {
                &&& r.status == 500
                &&& r.body matches Body::Message(m) && m == msg
            },
        },
{
    let db = match db_pool {
        Ok(db) => db,
        Err(msg) => return ApiError::PoolError(msg).error_response(),
    };
    match Service::get_all(db) {
        Ok(services) => HttpReply { status: 200, body: Body::Services(services) },
        Err(e) => e.error_response(),
    }
}

} // verus!
