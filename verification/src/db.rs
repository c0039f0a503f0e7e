//! Plain row values as the database hands them back.
//!
//! The process edge executes the SQL and converts each result row into one
//! of these structs; every function of the library is then verified against
//! the row contents alone. `Database` bundles the tables a request may
//! read: it stands for the view of the store that one acquired connection
//! serves.

use vstd::prelude::*;

use crate::date::Date;

verus! {

/// One row of a tag join for a single owning entity kind: the owning
/// entity's numeric identifier together with the tag's name and color.
pub struct TagRow {
    pub owner_id: i32,
    pub name: String,
    pub color: String,
}

/// One row of the posts table.
pub struct PostRow {
    pub id: i32,
    pub series_id: i32,
    pub views: i32,
    pub title: String,
    pub short_description: String,
    pub slug: String,
    pub created: Date,
    pub content: String,
}

/// One row of the series table.
pub struct SeriesRow {
    pub id: i32,
    pub views: i32,
    pub title: String,
    pub long_description: String,
    pub short_description: String,
    pub slug: String,
    pub created: Date,
    pub updated: Date,
}

/// One row of the services table.
pub struct ServiceRow {
    pub id: i32,
    pub image: String,
    pub name: String,
    pub description: String,
    pub subdomain: String,
}

/// The tables a request may read, in the row order the underlying queries
/// return them.
pub struct Database {
    pub posts: Vec<PostRow>,
    pub series: Vec<SeriesRow>,
    pub services: Vec<ServiceRow>,
    pub post_tags: Vec<TagRow>,
    pub series_tags: Vec<TagRow>,
    pub service_tags: Vec<TagRow>,
}

} // verus!
