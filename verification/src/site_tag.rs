//! Tag lookup: the tags associated with one post, series, or service.

use vstd::prelude::*;

use crate::db::{Database, TagRow};
use crate::error::ApiError;

verus! {

/// A named, colored label attached to posts, series, or services.
pub struct SiteTag {
    pub name: String,
    pub color: String,
}

/// The tag a join row carries, without its owner.
pub open spec fn spec_tag_of(row: TagRow) -> SiteTag {
    SiteTag { name: row.name, color: row.color }
}

/// The tags of the rows owned by `id`, in row order.
pub open spec fn spec_tags_for(rows: Seq<TagRow>, id: i32) -> Seq<SiteTag>
    decreases rows.len(),
{
    if rows.len() == 0 {
        Seq::empty()
    } else if rows.last().owner_id == id {
        spec_tags_for(rows.drop_last(), id).push(spec_tag_of(rows.last()))
    } else {
        spec_tags_for(rows.drop_last(), id)
    }
}

/// An identifier that owns none of the rows resolves to the empty tag list,
/// never to a failure.
pub proof fn lemma_tags_empty_when_no_match(rows: Seq<TagRow>, id: i32)
    requires
        forall|i: int| 0 <= i < rows.len() ==> rows[i].owner_id != id,
    ensures
        spec_tags_for(rows, id) == Seq::<SiteTag>::empty(),
    decreases rows.len(),
{
    if rows.len() > 0 {
        lemma_tags_empty_when_no_match(rows.drop_last(), id);
    }
}

/// Collects the tags of the rows owned by `id`, preserving row order.
fn tags_for_owner(rows: &Vec<TagRow>, id: i32) -> (tags: Vec<SiteTag>)
    ensures
        tags@ == spec_tags_for(rows@, id),
{
    let mut tags: Vec<SiteTag> = Vec::new();
    let mut i: usize = 0;
    while i < rows.len()
        invariant
            i <= rows@.len(),
            tags@ == spec_tags_for(rows@.take(i as int), id),
        decreases rows@.len() - i,
    {
        proof {
            assert(rows@.take(i + 1).drop_last() == rows@.take(i as int));
            assert(rows@.take(i + 1).last() == rows@[i as int]);
        }
        if rows[i].owner_id == id {
            tags.push(SiteTag { name: rows[i].name.clone(), color: rows[i].color.clone() });
        }
        i = i + 1;
    }
    proof {
        assert(rows@.take(rows@.len() as int) == rows@);
    }
    tags
}

impl SiteTag {
    /// The tags joined to the post with the given identifier, in join order.
    /// Zero matching rows is a valid outcome, never a failure.
    pub fn get_post_tags(post_id: i32, db: &Database) -> (r: Result<Vec<SiteTag>, ApiError>)
        ensures
            r matches Ok(tags) && tags@ == spec_tags_for(db.post_tags@, post_id),
    {
        Ok(tags_for_owner(&db.post_tags, post_id))
    }

    /// The tags joined to the series with the given identifier, in join
    /// order. Zero matching rows is a valid outcome, never a failure.
    pub fn get_series_tags(series_id: i32, db: &Database) -> (r: Result<Vec<SiteTag>, ApiError>)
        ensures
            r matches Ok(tags) && tags@ == spec_tags_for(db.series_tags@, series_id),
    {
        Ok(tags_for_owner(&db.series_tags, series_id))
    }

    /// The tags joined to the service with the given identifier, in join
    /// order. Zero matching rows is a valid outcome, never a failure.
    pub fn get_service_tags(service_id: i32, db: &Database) -> (r: Result<Vec<SiteTag>, ApiError>)
        ensures
            r matches Ok(tags) && tags@ == spec_tags_for(db.service_tags@, service_id),
    {
        Ok(tags_for_owner(&db.service_tags, service_id))
    }
}

} // verus!
